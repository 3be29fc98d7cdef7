//! Partition tables.

use vstd::prelude::*;

verus! {

/// How a disk is partitioned.
#[derive(Debug, Clone, Copy, PartialEq, Eq, Structural)]
pub enum PartitionStyle {
    /// GUID partition table.
    GPT,
    /// Master boot record.
    MBR,
    /// Not known.
    Unknown,
}

impl PartitionStyle {
    /// The name of the style.
    pub open spec fn name(self) -> Seq<char> {
        match self {
            PartitionStyle::GPT => "GPT"@,
            PartitionStyle::MBR => "MBR"@,
            PartitionStyle::Unknown => "Unknown"@,
        }
    }

    /// The name of the style, as a string.
    pub fn to_string(&self) -> (r: String)
        ensures
            r@ == self.name(),
    {
        match self {
            PartitionStyle::GPT => "GPT".to_string(),
            PartitionStyle::MBR => "MBR".to_string(),
            PartitionStyle::Unknown => "Unknown".to_string(),
        }
    }
}

} // verus!
