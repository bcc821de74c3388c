//! Options of a collection's creation.
use vstd::prelude::*;

pub use crate::common::ConsistencyLevel;

verus! {

/// Shard count used where a caller names none.
pub const DEFAULT_SHARD_NUM: i32 = 2;

/// How a collection is created: its number of shards and its consistency level.
#[derive(Debug)]
pub struct CreateCollectionOptions {
    shard_num: i32,
    consistency_level: ConsistencyLevel,
}

impl CreateCollectionOptions {
    pub closed spec fn spec_shard_num(&self) -> i32 {
        self.shard_num
    }

    pub closed spec fn spec_consistency_level(&self) -> ConsistencyLevel {
        self.consistency_level
    }

    pub fn new(shard_num: i32, level: ConsistencyLevel) -> (r: CreateCollectionOptions)
        ensures
            r.spec_shard_num() == shard_num,
            r.spec_consistency_level() == level,
    {
        let mut options = CreateCollectionOptions::default();
        options.shard_num = shard_num;
        options.consistency_level = level;
        options
    }

    pub fn shard_num(&self) -> (r: i32)
        ensures
            r == self.spec_shard_num(),
    {
        self.shard_num
    }

    pub fn consistency_level(&self) -> (r: &ConsistencyLevel)
        ensures
            *r == self.spec_consistency_level(),
    {
        &self.consistency_level
    }
}

impl Default for CreateCollectionOptions {
    /// Two shards at session consistency.
    fn default() -> (r: CreateCollectionOptions)
        ensures
            r.spec_shard_num() == DEFAULT_SHARD_NUM,
            r.spec_consistency_level() == ConsistencyLevel::Session,
    {
        CreateCollectionOptions {
            shard_num: DEFAULT_SHARD_NUM,
            consistency_level: ConsistencyLevel::Session,
        }
    }
}

} // verus!
