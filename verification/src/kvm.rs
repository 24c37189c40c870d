//! Lookups over register tables a hypervisor interface hands out: the
//! tables arrive as plain entry lists, and the matching rules live here.

use crate::CpuidResult;
use vstd::prelude::*;

verus! {

/// One identification-leaf entry of a hypervisor's table: which leaf and
/// sub-leaf it answers, and the quad it reports. An entry whose sub-leaf
/// index is not significant answers sub-leaf zero whatever its index says.
#[derive(Debug, Clone, Copy)]
pub struct CpuidEntry {
    pub function: u32,
    pub index: u32,
    pub significant_index: bool,
    pub result: CpuidResult,
}

/// Whether one table entry answers the queried leaf and sub-leaf.
pub open spec fn spec_entry_matches(entry: CpuidEntry, leaf: u32, sub_leaf: u32) -> bool {
    entry.function == leaf && ((sub_leaf == 0 && !entry.significant_index) || sub_leaf
        == entry.index)
}

/// Find the quad the table reports for a leaf and sub-leaf: the first
/// entry that answers it, or `None` when no entry does.
pub fn lookup_cpuid(entries: &Vec<CpuidEntry>, leaf: u32, sub_leaf: u32) -> (r: Option<
    CpuidResult,
>)
    ensures
        match r {
            Some(q) => exists|i: int|
                0 <= i < entries@.len() && spec_entry_matches(#[trigger] entries@[i], leaf, sub_leaf)
                    && q == entries@[i].result && forall|j: int|
                    0 <= j < i ==> !spec_entry_matches(#[trigger] entries@[j], leaf, sub_leaf),
            None => forall|i: int|
                0 <= i < entries@.len() ==> !spec_entry_matches(
                    #[trigger] entries@[i],
                    leaf,
                    sub_leaf,
                ),
        },
{
    let mut i: usize = 0;
    while i < entries.len()
        invariant
            i <= entries@.len(),
            forall|j: int| 0 <= j < i ==> !spec_entry_matches(#[trigger] entries@[j], leaf, sub_leaf),
        decreases entries@.len() - i,
    {
        let entry = &entries[i];
        if entry.function == leaf {
            if (sub_leaf == 0 && !entry.significant_index) || sub_leaf == entry.index {
                return Some(entry.result);
            }
        }
        i = i + 1;
    }
    None
}

/// One model-specific-register entry of a hypervisor's table: an address
/// and the value read there.
#[derive(Debug, Clone, Copy)]
pub struct MsrEntry {
    pub index: u32,
    pub data: u64,
}

/// Find the value the table reports for a register address: the first
/// entry with that address, or `None` when no entry carries it.
pub fn lookup_msr(entries: &Vec<MsrEntry>, address: u32) -> (r: Option<u64>)
    ensures
        match r {
            Some(v) => exists|i: int|
                0 <= i < entries@.len() && (#[trigger] entries@[i]).index == address && v
                    == entries@[i].data && forall|j: int|
                    0 <= j < i ==> (#[trigger] entries@[j]).index != address,
            None => forall|i: int| 0 <= i < entries@.len() ==> (#[trigger] entries@[i]).index
                != address,
        },
{
    let mut i: usize = 0;
    while i < entries.len()
        invariant
            i <= entries@.len(),
            forall|j: int| 0 <= j < i ==> (#[trigger] entries@[j]).index != address,
        decreases entries@.len() - i,
    {
        let entry = &entries[i];
        if entry.index == address {
            return Some(entry.data);
        }
        i = i + 1;
    }
    None
}

} // verus!
