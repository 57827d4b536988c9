//! Formatting a fetched task into the reply message, character for
//! character.

use vstd::prelude::*;
use vstd::string::StringExecFns;

use crate::tarkov::types::Key;
use crate::tarkov::types::NeededKeysWrapper;
use crate::tarkov::types::Task;

verus! {

/// The decimal digit for a value below ten.
pub open spec fn dec_digit(d: int) -> char {
    if d == 0 {
        '0'
    } else if d == 1 {
        '1'
    } else if d == 2 {
        '2'
    } else if d == 3 {
        '3'
    } else if d == 4 {
        '4'
    } else if d == 5 {
        '5'
    } else if d == 6 {
        '6'
    } else if d == 7 {
        '7'
    } else if d == 8 {
        '8'
    } else {
        '9'
    }
}

/// The decimal digits of a natural number, most significant first, without
/// leading zeros (a lone zero for zero itself).
pub open spec fn dec_nat(n: nat) -> Seq<char>
    decreases n,
{
    if n < 10 {
        seq![dec_digit(n as int)]
    } else {
        dec_nat(n / 10).push(dec_digit((n % 10) as int))
    }
}

/// The decimal text of an integer: a minus sign before the digits of its
/// magnitude when negative.
pub open spec fn dec_int(n: int) -> Seq<char> {
    if n < 0 {
        "-"@ + dec_nat((-n) as nat)
    } else {
        dec_nat(n as nat)
    }
}

/// The one-character string for a digit value.
fn digit_str(d: u64) -> (r: &'static str)
    requires
        d < 10,
    ensures
        r@ == seq![dec_digit(d as int)],
{
    proof {
        reveal_strlit("0");
        reveal_strlit("1");
        reveal_strlit("2");
        reveal_strlit("3");
        reveal_strlit("4");
        reveal_strlit("5");
        reveal_strlit("6");
        reveal_strlit("7");
        reveal_strlit("8");
        reveal_strlit("9");
    }
    match d {
        0 => "0",
        1 => "1",
        2 => "2",
        3 => "3",
        4 => "4",
        5 => "5",
        6 => "6",
        7 => "7",
        8 => "8",
        _ => "9",
    }
}

/// The decimal text of an unsigned value.
pub fn u64_dec_string(n: u64) -> (r: String)
    ensures
        r@ == dec_nat(n as nat),
    decreases n,
{
    if n < 10 {
        digit_str(n).to_owned()
    } else {
        let mut s = u64_dec_string(n / 10);
        s.append(digit_str(n % 10));
        proof {
            assert(s@ =~= dec_nat(n as nat));
        }
        s
    }
}

/// The decimal text of a signed value.
pub fn i64_dec_string(n: i64) -> (r: String)
    ensures
        r@ == dec_int(n as int),
{
    if n >= 0 {
        u64_dec_string(n as u64)
    } else {
        let wide: i128 = -(n as i128);
        let magnitude: u64 = wide as u64;
        assert(magnitude as nat == (-(n as int)) as nat);
        let mut s = "-".to_owned();
        let digits = u64_dec_string(magnitude);
        s.append(digits.as_str());
        s
    }
}

/// The text of a boolean, as the reply prints it.
pub open spec fn bool_text(b: bool) -> Seq<char> {
    if b {
        "true"@
    } else {
        "false"@
    }
}

/// The reply's block for one needed key: its name, its average price (zero
/// where unknown), and its wiki link (a bare `#` where unknown).
pub open spec fn key_text(k: Key) -> Seq<char> {
    "\n- **"@ + k.name@ + "**\n  - avg price: "@ + dec_int(
        match k.avg24hPrice {
            Some(p) => p as int,
            None => 0,
        },
    ) + "\n    - **[Wiki Link]("@ + (match k.wikiLink {
        Some(w) => w@,
        None => "#"@,
    }) + ")**"@
}

/// The blocks of a group of keys, in order.
pub open spec fn keys_text(ks: Seq<Key>) -> Seq<char>
    decreases ks.len(),
{
    if ks.len() == 0 {
        Seq::<char>::empty()
    } else {
        keys_text(ks.drop_last()) + key_text(ks.last())
    }
}

/// The blocks of all key groups of a task, in order.
pub open spec fn wrappers_text(ws: Seq<NeededKeysWrapper>) -> Seq<char>
    decreases ws.len(),
{
    if ws.len() == 0 {
        Seq::<char>::empty()
    } else {
        wrappers_text(ws.drop_last()) + keys_text(ws.last().keys@)
    }
}

/// The needed-keys part of the reply: `None` when the task lists no key
/// group, else the key blocks in order.
pub open spec fn needed_keys_text(t: Task) -> Seq<char> {
    if t.neededKeys@.len() == 0 {
        "None"@
    } else {
        wrappers_text(t.neededKeys@)
    }
}

/// The whole reply message for a task.
pub open spec fn task_message(t: Task) -> Seq<char> {
    "**Quest:** "@ + t.name@ + "\n**Kappa Required:** `"@ + bool_text(t.kappaRequired)
        + "`\n**Needed Keys**: "@ + needed_keys_text(t) + "\n**[Wiki Link]("@ + t.wikiLink@
        + ")**"@
}

/// Append one key's block to the message being built.
fn push_key_text(out: &mut String, k: &Key)
    ensures
        final(out)@ == old(out)@ + key_text(*k),
{
    out.append("\n- **");
    out.append(k.name.as_str());
    out.append("**\n  - avg price: ");
    let price: i64 = match &k.avg24hPrice {
        Some(p) => *p,
        None => 0i64,
    };
    let price_text = i64_dec_string(price);
    out.append(price_text.as_str());
    out.append("\n    - **[Wiki Link](");
    match &k.wikiLink {
        Some(w) => out.append(w.as_str()),
        None => out.append("#"),
    }
    out.append(")**");
    proof {
        assert(out@ =~= old(out)@ + key_text(*k));
    }
}

/// Format a fetched task into the reply message sent back to the user.
pub fn format_task_response(task: &Task) -> (r: String)
    ensures
        r@ == task_message(*task),
{
    let keys_output: String = if task.neededKeys.len() == 0 {
        "None".to_owned()
    } else {
        let mut out = String::new();
        let mut i: usize = 0;
        while i < task.neededKeys.len()
            invariant
                i <= task.neededKeys@.len(),
                out@ == wrappers_text(task.neededKeys@.take(i as int)),
            decreases task.neededKeys@.len() - i,
        {
            let w = &task.neededKeys[i];
            let mut j: usize = 0;
            while j < w.keys.len()
                invariant
                    i < task.neededKeys@.len(),
                    w == &task.neededKeys@[i as int],
                    j <= w.keys@.len(),
                    out@ == wrappers_text(task.neededKeys@.take(i as int)) + keys_text(
                        w.keys@.take(j as int),
                    ),
                decreases w.keys@.len() - j,
            {
                push_key_text(&mut out, &w.keys[j]);
                proof {
                    assert(w.keys@.take(j + 1).drop_last() =~= w.keys@.take(j as int));
                    assert(out@ =~= wrappers_text(task.neededKeys@.take(i as int)) + keys_text(
                        w.keys@.take(j + 1),
                    ));
                }
                j += 1;
            }
            proof {
                assert(w.keys@.take(j as int) =~= w.keys@);
                assert(task.neededKeys@.take(i + 1).drop_last() =~= task.neededKeys@.take(i as int));
                assert(out@ =~= wrappers_text(task.neededKeys@.take(i + 1)));
            }
            i += 1;
        }
        proof {
            assert(task.neededKeys@.take(i as int) =~= task.neededKeys@);
        }
        out
    };
    let mut r = "**Quest:** ".to_owned();
    r.append(task.name.as_str());
    r.append("\n**Kappa Required:** `");
    if task.kappaRequired {
        r.append("true");
    } else {
        r.append("false");
    }
    r.append("`\n**Needed Keys**: ");
    r.append(keys_output.as_str());
    r.append("\n**[Wiki Link](");
    r.append(task.wikiLink.as_str());
    r.append(")**");
    proof {
        assert(r@ =~= task_message(*task));
    }
    r
}

} // verus!
