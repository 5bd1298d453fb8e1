//! The summary records that a report yields.
use vstd::prelude::*;

use crate::utils::{human_bytes, human_bytes_text};

verus! {

/// Heap usage of one run, in bytes and blocks.
#[derive(Debug, Clone, Copy, PartialEq, Eq, Default)]
pub struct HeapSummary {
    pub allocated_total: i64,
    pub frees: i64,
    pub allocations: i64,
    pub allocated_at_exit: i64,
    pub blocks_at_exit: i64,
}

/// Heap usage with the byte counts written for people to read.
#[derive(Debug, PartialEq, Eq, Default)]
pub struct HeapSummaryHuman {
    pub allocated_total: String,
    pub frees: i64,
    pub allocations: i64,
    pub allocated_at_exit: String,
    pub blocks_at_exit: i64,
}

/// Leaked memory of one run by kind of leak, in bytes and blocks.
#[derive(Debug, Clone, Copy, PartialEq, Eq, Default)]
pub struct LeakSummary {
    pub definitely_lost: i64,
    pub indirectly_lost: i64,
    pub possibly_lost: i64,
    pub still_reachable: i64,
    pub supressed: i64,
    pub definitely_lost_blocks: i64,
    pub indrectly_lost_blocks: i64,
    pub possibly_lost_blocks: i64,
    pub still_reachable_blocks: i64,
    pub supressed_blocks: i64,
}

/// Leaked memory with the byte counts written for people to read.
#[derive(Debug, PartialEq, Eq, Default)]
pub struct LeakSummaryHuman {
    pub definitely_lost: String,
    pub indirectly_lost: String,
    pub possibly_lost: String,
    pub still_reachable: String,
    pub supressed: String,
    pub definitely_lost_blocks: i64,
    pub indrectly_lost_blocks: i64,
    pub possibly_lost_blocks: i64,
    pub still_reachable_blocks: i64,
    pub supressed_blocks: i64,
}

/// Cache miss rates of one run as the report writes them, a percentage each;
/// `None` where the report's line gave no text for the rate.
#[derive(Debug, PartialEq, Eq, Default)]
pub struct CacheMissText {
    pub i1_miss: Option<String>,
    pub l2i_miss: Option<String>,
    pub d1_miss: Option<String>,
    pub l2d_miss: Option<String>,
    pub l2_miss: Option<String>,
}

impl HeapSummary {
    /// The same summary with each byte count rendered by `human_bytes`; the
    /// counts of blocks, allocations and frees stay as they are.
    pub fn to_human(&self) -> (r: HeapSummaryHuman)
        ensures
            r.allocated_total@ == human_bytes_text(self.allocated_total),
            r.allocated_at_exit@ == human_bytes_text(self.allocated_at_exit),
            r.frees == self.frees,
            r.allocations == self.allocations,
            r.blocks_at_exit == self.blocks_at_exit,
    {
        HeapSummaryHuman {
            allocated_total: human_bytes(self.allocated_total),
            frees: self.frees,
            allocations: self.allocations,
            allocated_at_exit: human_bytes(self.allocated_at_exit),
            blocks_at_exit: self.blocks_at_exit,
        }
    }
}

impl LeakSummary {
    /// The same summary with each byte count rendered by `human_bytes`; the
    /// counts of blocks stay as they are.
    pub fn to_human(&self) -> (r: LeakSummaryHuman)
        ensures
            r.definitely_lost@ == human_bytes_text(self.definitely_lost),
            r.indirectly_lost@ == human_bytes_text(self.indirectly_lost),
            r.possibly_lost@ == human_bytes_text(self.possibly_lost),
            r.still_reachable@ == human_bytes_text(self.still_reachable),
            r.supressed@ == human_bytes_text(self.supressed),
            r.definitely_lost_blocks == self.definitely_lost_blocks,
            r.indrectly_lost_blocks == self.indrectly_lost_blocks,
            r.possibly_lost_blocks == self.possibly_lost_blocks,
            r.still_reachable_blocks == self.still_reachable_blocks,
            r.supressed_blocks == self.supressed_blocks,
    {
        LeakSummaryHuman {
            definitely_lost: human_bytes(self.definitely_lost),
            indirectly_lost: human_bytes(self.indirectly_lost),
            possibly_lost: human_bytes(self.possibly_lost),
            still_reachable: human_bytes(self.still_reachable),
            supressed: human_bytes(self.supressed),
            definitely_lost_blocks: self.definitely_lost_blocks,
            indrectly_lost_blocks: self.indrectly_lost_blocks,
            possibly_lost_blocks: self.possibly_lost_blocks,
            still_reachable_blocks: self.still_reachable_blocks,
            supressed_blocks: self.supressed_blocks,
        }
    }
}

} // verus!
