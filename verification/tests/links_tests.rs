use playback_scheduler::links::Regexp;

#[test]
fn youtube_watch_links_are_supported() {
    assert!(Regexp::is_supported_link("https://www.youtube.com/watch?v=dQw4w9WgXcQ"));
    assert!(Regexp::is_supported_link("youtube.com/watch?v=dQw4w9WgXcQ"));
    assert!(Regexp::is_supported_link("https://youtu.be/dQw4w9WgXcQ"));
}

#[test]
fn soundcloud_track_links_are_supported() {
    assert!(Regexp::is_supported_link("https://soundcloud.com/some-artist/some-track"));
    assert!(Regexp::is_supported_link("soundcloud.com/artist/track"));
}

#[test]
fn plain_text_is_not_supported() {
    assert!(!Regexp::is_supported_link("never gonna give you up"));
    assert!(!Regexp::is_supported_link(""));
    assert!(!Regexp::is_supported_link("https://example.com/watch?v=short"));
}
