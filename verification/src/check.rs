//! Descriptions of feature-bit checks: where a named feature's bits live
//! in the identification registers, and captured values for those places.

use std::collections::HashMap;
use vstd::prelude::*;

verus! {

/// One of the four registers a leaf query fills.
#[derive(Debug, Hash, Eq, PartialEq)]
pub enum CpuidRegister {
    EAX,
    EBX,
    ECX,
    EDX,
}

/// Where a named feature's bits live: leaf, sub-leaf and register.
#[derive(Debug)]
pub struct CheckFeatureBitDescription {
    pub name: String,
    pub locations: Vec<(u32, u32, CpuidRegister)>,
}

/// Captured register values for a named feature's locations.
#[derive(Debug)]
pub struct CheckFeatureBitValues {
    pub name: String,
    pub values: HashMap<(u32, u32, CpuidRegister), u32>,
}

/// The kinds of check a schema can describe.
#[derive(Debug)]
pub enum CheckType {
    FeatureBits(CheckFeatureBitDescription),
}

/// The kinds of captured check values.
#[derive(Debug)]
pub enum CheckValues {
    FeatureBits(CheckFeatureBitValues),
}

} // verus!
