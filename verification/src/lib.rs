//! Decoding of CPU identification registers into named, typed facts.
//!
//! A schema describes how each identification leaf and model-specific
//! register is laid out; the library decodes raw register values against
//! that schema, collects the results as hierarchically named facts, and
//! compares fact collections taken at different times.

use vstd::prelude::*;

pub mod bitfield;
pub mod check;
pub mod facts;
pub mod kvm;
pub mod layout;
pub mod msr;
pub mod schema;
pub mod text;

verus! {

/// The four 32-bit values returned by one identification-leaf query.
#[derive(Clone, Copy, Debug, PartialEq, Eq, Structural)]
pub struct CpuidResult {
    pub eax: u32,
    pub ebx: u32,
    pub ecx: u32,
    pub edx: u32,
}

/// A leaf is treated as absent when its low registers echo back as
/// (near-)zero: `eax` and `ebx` clear and bits 8..16 of `ecx` clear.
pub open spec fn spec_is_empty_leaf(result: CpuidResult) -> bool {
    result.eax == 0 && result.ebx == 0 && result.ecx & 0x0000FF00 == 0
}

/// Decide whether a queried quad denotes an unsupported leaf.
pub fn is_empty_leaf(result: &CpuidResult) -> (r: bool)
    ensures
        r == spec_is_empty_leaf(*result),
{
    result.eax == 0 && result.ebx == 0 && result.ecx & 0x0000FF00 == 0
}

/// A source of raw identification-register quads. Implemented outside the
/// library by whatever backend answers the queries; an absent leaf comes
/// back as `None`.
pub trait CpuidDB {
    fn get_cpuid(&self, leaf: u32, sub_leaf: u32) -> Option<CpuidResult>;
}

/// Why a register query could not be made.
#[derive(Debug, Clone)]
pub enum CpuidError {
    NoCPUID,
    LeafOutOfRange(u32, CpuidFunction),
}

/// The name of a leaf range, as its text.
pub open spec fn spec_function_name(func: CpuidFunction) -> Seq<char> {
    match func {
        CpuidFunction::Basic => "Basic"@,
        CpuidFunction::Hypervisor => "Hypervisor"@,
        CpuidFunction::Extended => "Extended"@,
    }
}

impl CpuidError {
    /// The error's one-line text.
    pub open spec fn spec_message(self) -> Seq<char> {
        match self {
            CpuidError::NoCPUID => "No CPUID Present on hardware"@,
            CpuidError::LeafOutOfRange(leaf, func) => "Leaf 0x"@ + crate::text::spec_hex_str(
                leaf as nat,
            ) + " not present in function "@ + spec_function_name(func),
        }
    }

    /// Describe the error in one line.
    pub fn message(&self) -> (r: String)
        ensures
            r@ == self.spec_message(),
    {
        match self {
            CpuidError::NoCPUID => String::from_str("No CPUID Present on hardware"),
            CpuidError::LeafOutOfRange(leaf, func) => {
                let mut out = String::from_str("Leaf 0x");
                let digits = crate::text::hex_str(*leaf as u128);
                out.append(digits.as_str());
                out.append(" not present in function ");
                match func {
                    CpuidFunction::Basic => out.append("Basic"),
                    CpuidFunction::Hypervisor => out.append("Hypervisor"),
                    CpuidFunction::Extended => out.append("Extended"),
                }
                out
            },
        }
    }
}

/// The three address ranges an identification leaf can fall in.
#[derive(Debug, Clone)]
pub enum CpuidFunction {
    Basic,
    Hypervisor,
    Extended,
}

impl CpuidFunction {
    /// The first leaf index of the range.
    pub open spec fn spec_start_eax(self) -> u32 {
        match self {
            CpuidFunction::Basic => 0,
            CpuidFunction::Hypervisor => 0x40000000,
            CpuidFunction::Extended => 0x80000000,
        }
    }

    /// Whether a leaf index falls inside the range.
    pub open spec fn spec_is_valid_leaf(self, leaf: u32) -> bool {
        match self {
            CpuidFunction::Basic => leaf < 0x40000000,
            CpuidFunction::Hypervisor => 0x40000000 <= leaf && leaf < 0x50000000,
            CpuidFunction::Extended => leaf >= 0x80000000,
        }
    }

    pub fn start_eax(&self) -> (r: u32)
        ensures
            r == self.spec_start_eax(),
    {
        match self {
            CpuidFunction::Basic => 0,
            CpuidFunction::Hypervisor => 0x40000000,
            CpuidFunction::Extended => 0x80000000,
        }
    }

    pub fn is_valid_leaf(&self, leaf: u32) -> (r: bool)
        ensures
            r == self.spec_is_valid_leaf(leaf),
    {
        match self {
            CpuidFunction::Basic => leaf < 0x40000000,
            CpuidFunction::Hypervisor => 0x40000000 <= leaf && leaf < 0x50000000,
            CpuidFunction::Extended => leaf >= 0x80000000,
        }
    }
}

/// Whether the model leaf reports a hypervisor: its feature flag is bit 31
/// of `ecx`.
pub fn hypervisor_present(model_leaf: &CpuidResult) -> (r: bool)
    ensures
        r == (model_leaf.ecx & 0x80000000u32 != 0),
{
    model_leaf.ecx & 0x80000000u32 != 0
}

/// The leaf ranges a probed machine reports as answerable: the highest
/// basic, hypervisor and extended leaves. Built from the probe results;
/// the queries themselves happen outside the library.
pub struct RunningCpuidDB {
    pub basic_max: u32,
    pub hypervisor_max: Option<u32>,
    pub extended_max: u32,
}

impl RunningCpuidDB {
    pub fn new(basic_max: u32, hypervisor_max: Option<u32>, extended_max: u32) -> (r: Self)
        ensures
            r.basic_max == basic_max,
            r.hypervisor_max == hypervisor_max,
            r.extended_max == extended_max,
    {
        Self { basic_max, hypervisor_max, extended_max }
    }

    /// Whether a leaf falls inside one of the reported ranges: at or below
    /// the range's highest answerable leaf.
    pub open spec fn spec_supports(self, leaf: u32) -> bool {
        if leaf <= 0x3FFFFFFF {
            leaf <= self.basic_max
        } else if 0x40000000 <= leaf && leaf <= 0x4FFFFFFF {
            match self.hypervisor_max {
                Some(max) => leaf - 0x40000000 <= max,
                None => false,
            }
        } else if 0x80000000 <= leaf && leaf <= 0x8FFFFFFF {
            leaf - 0x80000000 <= self.extended_max
        } else {
            false
        }
    }

    /// Decide whether a leaf should be queried at all.
    pub fn supports_leaf(&self, leaf: u32) -> (r: bool)
        ensures
            r == self.spec_supports(leaf),
    {
        if leaf <= 0x3FFFFFFF {
            leaf <= self.basic_max
        } else if leaf <= 0x4FFFFFFF {
            match self.hypervisor_max {
                Some(max) => leaf - 0x40000000 <= max,
                None => false,
            }
        } else if 0x80000000 <= leaf && leaf <= 0x8FFFFFFF {
            leaf - 0x80000000 <= self.extended_max
        } else {
            false
        }
    }
}

/// The address of one leaf query.
#[derive(Debug, Hash, Clone)]
pub struct LeafAddr {
    pub leaf: u32,
    pub sub_leaf: u32,
}

/// Walks every answerable leaf and sub-leaf of one range in order. The
/// iteration is driven from outside: [`CpuidIterator::current_query`] says
/// which address to query next, and [`CpuidIterator::feed`] takes the
/// queried quad and decides whether it is emitted, skipped, or ends the
/// current leaf.
#[derive(Debug, Clone)]
pub struct CpuidIterator {
    pub leaf: u32,
    pub sub_leaf: u32,
    pub last: u32,
    pub last_sub_leaf: Option<CpuidResult>,
}

impl CpuidIterator {
    /// Start at the first leaf of the range; `last` is the highest
    /// answerable leaf the range's first quad reported.
    pub fn new(last: u32, func: CpuidFunction) -> (r: Result<CpuidIterator, CpuidError>)
        ensures
            match r {
                Ok(it) => it == (CpuidIterator {
                    leaf: func.spec_start_eax(),
                    sub_leaf: 0,
                    last,
                    last_sub_leaf: None::<CpuidResult>,
                }),
                Err(e) => e matches CpuidError::LeafOutOfRange(l, f) && l
                    == func.spec_start_eax() && f == func && !func.spec_is_valid_leaf(
                    func.spec_start_eax(),
                ),
            },
    {
        let start = func.start_eax();
        CpuidIterator::at_leaf(start, last, func)
    }

    /// Start at a chosen leaf.
    pub fn at_leaf(leaf: u32, last: u32, func: CpuidFunction) -> (r: Result<
        CpuidIterator,
        CpuidError,
    >)
        ensures
            match r {
                Ok(it) => func.spec_is_valid_leaf(leaf) && it == (CpuidIterator {
                    leaf,
                    sub_leaf: 0,
                    last,
                    last_sub_leaf: None::<CpuidResult>,
                }),
                Err(e) => e matches CpuidError::LeafOutOfRange(l, f) && l == leaf && f
                    == func && !func.spec_is_valid_leaf(leaf),
            },
    {
        CpuidIterator::at_sub_leaf(leaf, 0, last, func)
    }

    /// Start at a chosen leaf and sub-leaf. Rejects a leaf that lies
    /// outside the chosen range.
    pub fn at_sub_leaf(leaf: u32, sub_leaf: u32, last: u32, func: CpuidFunction) -> (r: Result<
        CpuidIterator,
        CpuidError,
    >)
        ensures
            match r {
                Ok(it) => func.spec_is_valid_leaf(leaf) && it == (CpuidIterator {
                    leaf,
                    sub_leaf,
                    last,
                    last_sub_leaf: None::<CpuidResult>,
                }),
                Err(e) => e matches CpuidError::LeafOutOfRange(l, f) && l == leaf && f
                    == func && !func.spec_is_valid_leaf(leaf),
            },
    {
        if func.is_valid_leaf(leaf) {
            Ok(CpuidIterator { leaf, sub_leaf, last, last_sub_leaf: None })
        } else {
            Err(CpuidError::LeafOutOfRange(leaf, func))
        }
    }

    /// The address to query next, or `None` when the walk is done.
    pub fn current_query(&self) -> (r: Option<LeafAddr>)
        ensures
            match r {
                Some(addr) => self.leaf <= self.last && addr.leaf == self.leaf && addr.sub_leaf
                    == self.sub_leaf,
                None => self.leaf > self.last,
            },
    {
        if self.leaf <= self.last {
            Some(LeafAddr { leaf: self.leaf, sub_leaf: self.sub_leaf })
        } else {
            None
        }
    }

    /// Take the quad that answering the current query produced. An empty
    /// quad moves to the next leaf without emitting; a quad equal to the
    /// previous sub-leaf's ends the leaf (the hardware repeats the last
    /// sub-leaf past the end); anything else is emitted and the walk moves
    /// to the next sub-leaf.
    pub fn feed(&mut self, current: CpuidResult) -> (r: Option<(LeafAddr, CpuidResult)>)
        requires
            old(self).leaf <= old(self).last,
            old(self).last < u32::MAX,
            old(self).sub_leaf < u32::MAX,
        ensures
            final(self).last == old(self).last,
            if spec_is_empty_leaf(current) {
                r == None::<(LeafAddr, CpuidResult)> && final(self).leaf == old(self).leaf + 1
                    && final(self).sub_leaf == 0 && final(self).last_sub_leaf == old(
                    self,
                ).last_sub_leaf
            } else if old(self).last_sub_leaf == Some(current) {
                r == None::<(LeafAddr, CpuidResult)> && final(self).leaf == old(self).leaf + 1
                    && final(self).sub_leaf == 0 && final(self).last_sub_leaf == None::<
                    CpuidResult,
                >
            } else {
                r == Some(
                    (
                        LeafAddr { leaf: old(self).leaf, sub_leaf: old(self).sub_leaf },
                        current,
                    ),
                ) && final(self).leaf == old(self).leaf && final(self).sub_leaf == old(
                    self,
                ).sub_leaf + 1 && final(self).last_sub_leaf == Some(current)
            },
    {
        if is_empty_leaf(&current) {
            self.leaf = self.leaf + 1;
            self.sub_leaf = 0;
            None
        } else {
            let prev = self.last_sub_leaf.take();
            if prev == Some(current) {
                self.leaf = self.leaf + 1;
                self.sub_leaf = 0;
                None
            } else {
                let sub_leaf = self.sub_leaf;
                self.sub_leaf = self.sub_leaf + 1;
                self.last_sub_leaf = Some(current);
                Some((LeafAddr { leaf: self.leaf, sub_leaf }, current))
            }
        }
    }
}

} // verus!
