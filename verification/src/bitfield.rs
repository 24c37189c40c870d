//! Bit-field descriptions for identification registers, and their decoding.

use crate::facts::GenericFact;
use crate::text::{hex_str, pad_left, spec_hex_str, spec_pad_left};
use vstd::prelude::*;
use vstd::std_specs::convert::FromSpec;

verus! {

/// Raw register value wide enough for every supported register.
pub type Register = u128;

/// How many bits a [`Register`] holds.
pub const REGISTER_BITS: u8 = 128;

/// What a [`Flag`] decodes to: the flag bit, when it lies inside the register.
pub open spec fn spec_flag_value(bit: u8, reg_val: Register) -> Option<bool> {
    if bit < REGISTER_BITS {
        Some((reg_val >> bit as u128) & 1 != 0)
    } else {
        None
    }
}

/// A schema entry can be bound to a raw register value and decoded.
pub trait Bindable {
    /// The value type that results from a bind.
    type Rep;

    /// What decoding yields, as a mathematical function of the entry and
    /// the register value; `None` when the entry does not fit the register.
    spec fn spec_value(&self, reg_val: Register) -> Option<Self::Rep>;

    /// The entry's declared name.
    spec fn spec_name(&self) -> Seq<char>;

    /// Extract the value from the register.
    fn value(&self, reg_val: Register) -> (r: Option<Self::Rep>)
        ensures
            r == self.spec_value(reg_val),
    ;

    /// Retrieve the name of the bindable.
    fn name(&self) -> (r: &String)
        ensures
            r@ == self.spec_name(),
    ;
}

/// Wraps a bit flag, usually representing if a feature is present or not.
#[derive(Debug, Clone)]
pub struct Flag {
    pub name: String,
    pub bit: u8,
}

impl Bindable for Flag {
    type Rep = bool;

    open spec fn spec_value(&self, reg_val: Register) -> Option<bool> {
        spec_flag_value(self.bit, reg_val)
    }

    open spec fn spec_name(&self) -> Seq<char> {
        self.name@
    }

    fn value(&self, reg_val: Register) -> (r: Option<bool>) {
        if self.bit < REGISTER_BITS {
            let mask: u128 = 1u128 << self.bit;
            let set = reg_val & mask != 0;
            proof {
                let b = self.bit;
                assert(b < 128 ==> ((reg_val & (1u128 << b as u128) != 0) == ((reg_val
                    >> b as u128) & 1 != 0))) by (bit_vector);
            }
            Some(set)
        } else {
            None
        }
    }

    fn name(&self) -> (r: &String) {
        &self.name
    }
}

/// A run of `n` one bits in the low positions, saturating once the whole
/// register is covered.
pub open spec fn spec_mask(n: nat) -> u128
    decreases n,
{
    if n == 0 {
        0u128
    } else {
        (spec_mask((n - 1) as nat) << 1) | 1
    }
}

/// Right shift that is total: registers shifted past their width are zero.
pub open spec fn spec_shr(reg_val: Register, shift: u8) -> u128 {
    if shift < REGISTER_BITS {
        reg_val >> shift as u128
    } else {
        0u128
    }
}

/// How many bits an [`Int`]'s half-open bound range covers.
pub open spec fn spec_bounds_width(bounds: core::ops::Range<u8>) -> nat {
    if bounds.start <= bounds.end {
        (bounds.end - bounds.start) as nat
    } else {
        0
    }
}

/// The selected bits of the register: shifted to the low end and masked,
/// before any narrowing.
pub open spec fn spec_int_masked(bounds: core::ops::Range<u8>, reg_val: Register) -> u128 {
    spec_shr(reg_val, bounds.start) & spec_mask(spec_bounds_width(bounds))
}

/// What an [`Int`] decodes to: the masked bits, narrowed to 32 bits;
/// `None` exactly when the masked value overflows that width.
pub open spec fn spec_int_value(bounds: core::ops::Range<u8>, reg_val: Register) -> Option<u32> {
    if spec_int_masked(bounds, reg_val) <= u32::MAX {
        Some(spec_int_masked(bounds, reg_val) as u32)
    } else {
        None
    }
}

/// Wraps an integer value from a bit field.
#[derive(Debug)]
pub struct Int {
    pub name: String,
    pub bounds: core::ops::Range<u8>,
}

impl Bindable for Int {
    type Rep = u32;

    open spec fn spec_value(&self, reg_val: Register) -> Option<u32> {
        spec_int_value(self.bounds, reg_val)
    }

    open spec fn spec_name(&self) -> Seq<char> {
        self.name@
    }

    fn value(&self, reg_val: Register) -> (r: Option<u32>) {
        let start = self.bounds.start;
        let end = self.bounds.end;
        let mut mask: u128 = 0;
        let mut i: u8 = start;
        while i < end
            invariant
                start <= i,
                i <= end || i == start,
                mask == spec_mask((i - start) as nat),
            decreases end - i,
        {
            mask = (mask << 1) | 1;
            i = i + 1;
        }
        let shifted: u128 = if start < REGISTER_BITS {
            reg_val >> start
        } else {
            0
        };
        let masked: u128 = shifted & mask;
        if masked <= u32::MAX as u128 {
            Some(#[verifier::truncate] (masked as u32))
        } else {
            None
        }
    }

    fn name(&self) -> (r: &String) {
        &self.name
    }
}

/// Nibble holding the model number.
pub const MODEL_START_BIT: u8 = 4;

/// Nibble holding the extended model number.
pub const EXTENDED_MODEL_START_BIT: u8 = 16;

/// Nibble holding the family identifier.
pub const FAMILY_START_BIT: u8 = 8;

/// Byte holding the extended family identifier.
pub const EXTENDED_FAMILY_START_BIT: u8 = 20;

/// What an [`X86Model`] decodes to, on the low 32 bits of the register:
/// the model nibble, extended by the extended-model nibble for the two
/// family identifiers that split the model number.
pub open spec fn spec_x86_model_value(reg_val: Register) -> u32 {
    let reg32 = reg_val as u32;
    let model = (reg32 >> MODEL_START_BIT) & 0xF;
    let family_id = (reg32 >> FAMILY_START_BIT) & 0xF;
    if family_id == 6 || family_id == 0xF {
        (((reg32 >> EXTENDED_MODEL_START_BIT) & 0xF) << 4) | model
    } else {
        model
    }
}

/// What an [`X86Family`] decodes to, on the low 32 bits of the register:
/// the family nibble, plus the extended-family byte when the nibble is
/// saturated.
pub open spec fn spec_x86_family_value(reg_val: Register) -> u32 {
    let reg32 = reg_val as u32;
    let family = (reg32 >> FAMILY_START_BIT) & 0xF;
    if family == 0xF {
        (((reg32 >> EXTENDED_FAMILY_START_BIT) & 0xFF) + family) as u32
    } else {
        family
    }
}

/// Wraps an x86 model-number representation.
/// These can have a number of weird conditions and are always going to be
/// part of a bit field.
#[derive(Debug, Clone)]
pub struct X86Model {
    pub name: String,
}

impl Bindable for X86Model {
    type Rep = u32;

    open spec fn spec_value(&self, reg_val: Register) -> Option<u32> {
        Some(spec_x86_model_value(reg_val))
    }

    open spec fn spec_name(&self) -> Seq<char> {
        self.name@
    }

    fn value(&self, reg_val: Register) -> (r: Option<u32>) {
        let reg32 = #[verifier::truncate] (reg_val as u32);
        let nibble_mask: u32 = 0xF;
        let model = (reg32 >> MODEL_START_BIT as u32) & nibble_mask;
        let family_id = (reg32 >> FAMILY_START_BIT as u32) & nibble_mask;
        match family_id {
            6 | 0xF => {
                let extended_model = (reg32 >> EXTENDED_MODEL_START_BIT as u32) & nibble_mask;
                proof {
                    assert(((reg32 >> 16) & 0xF) << 4 <= 0xF0) by (bit_vector);
                }
                Some((extended_model << 4) | model)
            },
            _ => Some(model),
        }
    }

    fn name(&self) -> (r: &String) {
        &self.name
    }
}

/// Wraps an x86 family-number representation.
#[derive(Debug, Clone)]
pub struct X86Family {
    pub name: String,
}

impl Bindable for X86Family {
    type Rep = u32;

    open spec fn spec_value(&self, reg_val: Register) -> Option<u32> {
        Some(spec_x86_family_value(reg_val))
    }

    open spec fn spec_name(&self) -> Seq<char> {
        self.name@
    }

    fn value(&self, reg_val: Register) -> (r: Option<u32>) {
        let reg32 = #[verifier::truncate] (reg_val as u32);
        let family_mask: u32 = 0xF;
        let ext_family_mask: u32 = 0xFF;
        let family = (reg32 >> FAMILY_START_BIT as u32) & family_mask;
        let extended_family = (reg32 >> EXTENDED_FAMILY_START_BIT as u32) & ext_family_mask;
        proof {
            assert((reg32 >> 8) & 0xF <= 0xF && (reg32 >> 20) & 0xFF <= 0xFF) by (bit_vector);
        }
        match family {
            0xF => Some(extended_family + family),
            _ => Some(family),
        }
    }

    fn name(&self) -> (r: &String) {
        &self.name
    }
}

/// Ephemeral pairing of one raw register value with one schema entry.
/// Not stored; constructed on demand for a single decode.
pub struct Bound<'a, T: Bindable> {
    pub reg_val: Register,
    pub bits: &'a T,
}

impl<'a, T: Bindable> Bound<'a, T> {
    /// Bind a schema entry to a raw register value.
    pub fn new(reg_val: Register, bits: &'a T) -> (r: Self)
        ensures
            r.reg_val == reg_val,
            r.bits == bits,
    {
        Self { reg_val, bits }
    }

    /// The bound entry's declared name.
    pub fn name(&self) -> (r: &String)
        ensures
            r@ == self.bits.spec_name(),
    {
        self.bits.name()
    }
}

/// One decodable quantity within a register, as the schema declares it.
#[derive(Debug)]
pub enum Field {
    Int(Int),
    Flag(Flag),
    X86Model(X86Model),
    X86Family(X86Family),
}

impl Field {
    /// The declared name of the field, whatever its variant.
    pub open spec fn spec_name(self) -> Seq<char> {
        match self {
            Field::Int(bits) => bits.name@,
            Field::Flag(bits) => bits.name@,
            Field::X86Model(bits) => bits.name@,
            Field::X86Family(bits) => bits.name@,
        }
    }
}

/// A [`Field`] bound to a raw register value: uniform decode and
/// fact emission over the four variants.
pub enum BoundField<'a> {
    Int(Bound<'a, Int>),
    Flag(Bound<'a, Flag>),
    X86Model(Bound<'a, X86Model>),
    X86Family(Bound<'a, X86Family>),
}

/// The binding that pairing `reg_val` with `field` produces.
pub open spec fn spec_bind<'a>(reg_val: Register, field: &'a Field) -> BoundField<'a> {
    match field {
        Field::Int(bits) => BoundField::Int(Bound { reg_val, bits }),
        Field::Flag(bits) => BoundField::Flag(Bound { reg_val, bits }),
        Field::X86Model(bits) => BoundField::X86Model(Bound { reg_val, bits }),
        Field::X86Family(bits) => BoundField::X86Family(Bound { reg_val, bits }),
    }
}

impl<'a> BoundField<'a> {
    /// The register value this binding decodes.
    pub open spec fn spec_reg(self) -> Register {
        match self {
            BoundField::Int(b) => b.reg_val,
            BoundField::Flag(b) => b.reg_val,
            BoundField::X86Model(b) => b.reg_val,
            BoundField::X86Family(b) => b.reg_val,
        }
    }

    /// The bound field's declared name.
    pub open spec fn spec_name(self) -> Seq<char> {
        match self {
            BoundField::Int(b) => b.bits.name@,
            BoundField::Flag(b) => b.bits.name@,
            BoundField::X86Model(b) => b.bits.name@,
            BoundField::X86Family(b) => b.bits.name@,
        }
    }

    /// The value the emitted fact carries: the decoded value, or the
    /// variant's zero value where decoding fails, widened into `T`.
    pub open spec fn spec_fact_value<T: From<u32> + From<bool>>(self) -> T {
        match self {
            BoundField::Int(b) => <T as FromSpec<u32>>::from_spec(
                match spec_int_value(b.bits.bounds, b.reg_val) {
                    Some(v) => v,
                    None => 0u32,
                },
            ),
            BoundField::Flag(b) => <T as FromSpec<bool>>::from_spec(
                match spec_flag_value(b.bits.bit, b.reg_val) {
                    Some(v) => v,
                    None => false,
                },
            ),
            BoundField::X86Model(b) => <T as FromSpec<u32>>::from_spec(
                spec_x86_model_value(b.reg_val),
            ),
            BoundField::X86Family(b) => <T as FromSpec<u32>>::from_spec(
                spec_x86_family_value(b.reg_val),
            ),
        }
    }

    /// Pair a raw register value with a schema field, dispatching on the
    /// field's variant.
    pub fn from_register_and_field(reg_val: Register, field: &'a Field) -> (r: Self)
        ensures
            r == spec_bind(reg_val, field),
    {
        match field {
            Field::Int(bits) => Self::Int(Bound { reg_val, bits }),
            Field::Flag(bits) => Self::Flag(Bound { reg_val, bits }),
            Field::X86Model(bits) => Self::X86Model(Bound { reg_val, bits }),
            Field::X86Family(bits) => Self::X86Family(Bound { reg_val, bits }),
        }
    }

    /// Emit the bound field as a named fact, decoding best-effort: a field
    /// that does not fit its register yields the variant's zero value.
    pub fn collect_fact<T: From<u32> + From<bool>>(&self) -> (r: GenericFact<T>)
        ensures
            r.name@ == self.spec_name(),
            <T as FromSpec<u32>>::obeys_from_spec() && <T as FromSpec<bool>>::obeys_from_spec()
                ==> r.value == self.spec_fact_value::<T>(),
    {
        match self {
            BoundField::Int(b) => {
                let v: u32 = match b.bits.value(b.reg_val) {
                    Some(v) => v,
                    None => 0,
                };
                GenericFact::new(b.bits.name().clone(), T::from(v))
            },
            BoundField::Flag(b) => {
                let v: bool = match b.bits.value(b.reg_val) {
                    Some(v) => v,
                    None => false,
                };
                GenericFact::new(b.bits.name().clone(), T::from(v))
            },
            BoundField::X86Model(b) => {
                let v: u32 = match b.bits.value(b.reg_val) {
                    Some(v) => v,
                    None => 0,
                };
                GenericFact::new(b.bits.name().clone(), T::from(v))
            },
            BoundField::X86Family(b) => {
                let v: u32 = match b.bits.value(b.reg_val) {
                    Some(v) => v,
                    None => 0,
                };
                GenericFact::new(b.bits.name().clone(), T::from(v))
            },
        }
    }
}

impl<'a> BoundField<'a> {
    /// The textual form of the bound field's value: `true`/`false` for a
    /// flag, lowercase hexadecimal for the integer variants, decoding
    /// best-effort to the variant's zero value.
    pub open spec fn spec_value_text(self) -> Seq<char> {
        match self {
            BoundField::Flag(b) => if spec_flag_value(b.bits.bit, b.reg_val) == Some(true) {
                "true"@
            } else {
                "false"@
            },
            BoundField::Int(b) => spec_hex_str(
                match spec_int_value(b.bits.bounds, b.reg_val) {
                    Some(v) => v as nat,
                    None => 0,
                },
            ),
            BoundField::X86Model(b) => spec_hex_str(spec_x86_model_value(b.reg_val) as nat),
            BoundField::X86Family(b) => spec_hex_str(spec_x86_family_value(b.reg_val) as nat),
        }
    }

    /// The bound field's one-line rendering: its name, then its value
    /// right-justified in a ten-character column.
    pub open spec fn spec_render(self) -> Seq<char> {
        self.spec_name() + " = "@ + spec_pad_left(self.spec_value_text(), 10)
    }

    /// Render the bound field as `<name> = <value>`.
    pub fn render(&self) -> (r: String)
        ensures
            r@ == self.spec_render(),
    {
        let value_text: String = match self {
            BoundField::Flag(b) => {
                let set = match b.bits.value(b.reg_val) {
                    Some(true) => true,
                    _ => false,
                };
                if set {
                    String::from_str("true")
                } else {
                    String::from_str("false")
                }
            },
            BoundField::Int(b) => {
                let v: u32 = match b.bits.value(b.reg_val) {
                    Some(v) => v,
                    None => 0,
                };
                hex_str(v as u128)
            },
            BoundField::X86Model(b) => {
                let v: u32 = match b.bits.value(b.reg_val) {
                    Some(v) => v,
                    None => 0,
                };
                hex_str(v as u128)
            },
            BoundField::X86Family(b) => {
                let v: u32 = match b.bits.value(b.reg_val) {
                    Some(v) => v,
                    None => 0,
                };
                hex_str(v as u128)
            },
        };
        let mut out = match self {
            BoundField::Flag(b) => String::from_str(b.bits.name().as_str()),
            BoundField::Int(b) => String::from_str(b.bits.name().as_str()),
            BoundField::X86Model(b) => String::from_str(b.bits.name().as_str()),
            BoundField::X86Family(b) => String::from_str(b.bits.name().as_str()),
        };
        out.append(" = ");
        let padded = pad_left(value_text.as_str(), 10);
        out.append(padded.as_str());
        out
    }
}

/// A binding that can emit itself as one fact with a widened value type.
pub trait Facter<T: From<u32> + From<bool>> {
    fn collect_fact(&self) -> GenericFact<T>;
}

impl<'a, T: From<u32> + From<bool>> Facter<T> for BoundField<'a> {
    fn collect_fact(&self) -> GenericFact<T> {
        BoundField::collect_fact(self)
    }
}

} // verus!
