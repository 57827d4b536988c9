//! The quest-lookup side feature: the data a quest query works on, the
//! matching of quest names against a query, and the formatting of a fetched
//! task into the reply message. Loading the quest file and fetching task
//! details over the network live outside the library; they hand these plain
//! values in and take the finished message back.

pub mod lookup;
pub mod response;
pub mod types;
