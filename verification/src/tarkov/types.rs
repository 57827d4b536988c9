//! Plain data for the quest-lookup feature, as the quest file and the task
//! service hand it over.

use vstd::prelude::*;

verus! {

/// One quest as the quest file lists it.
#[derive(Debug)]
pub struct Quest {
    pub id: String,
    pub name: String,
}

/// The task service's reply envelope.
#[derive(Debug)]
pub struct TaskResponse {
    pub data: TaskData,
}

/// The payload of a task reply.
#[derive(Debug)]
pub struct TaskData {
    pub task: Task,
}

/// One task, as fetched from the task service.
#[allow(non_snake_case)]
#[derive(Debug)]
pub struct Task {
    pub name: String,
    pub kappaRequired: bool,
    pub wikiLink: String,
    pub neededKeys: Vec<NeededKeysWrapper>,
}

/// A group of keys a task needs.
#[derive(Debug)]
pub struct NeededKeysWrapper {
    pub keys: Vec<Key>,
}

/// One needed key, with its average price and wiki page where known.
#[allow(non_snake_case)]
#[derive(Debug)]
pub struct Key {
    pub name: String,
    pub avg24hPrice: Option<i64>,
    pub wikiLink: Option<String>,
}

/// One ammunition row.
#[derive(Debug)]
pub struct Ammo {
    pub caliber: String,
    pub damage: u64,
    pub armor_damage: u64,
    pub penetration_power: u64,
    pub recoil: u64,
}

} // verus!
