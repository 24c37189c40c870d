//! Model-specific registers: schema entries, bound values, their facts
//! and their rendering. Reading the registers themselves is a privileged
//! operation done outside the library.

use crate::bitfield::{Field, Register};
use crate::facts::GenericFact;
use crate::layout::{append_fields_render, collect_slot_facts, spec_field_fact, spec_fields_render};
use crate::text::{hex_str, spec_hex_str};
use vstd::prelude::*;
use vstd::std_specs::convert::FromSpec;

verus! {

/// Why a model-specific register could not be served: the backing device
/// or register is absent (expected, skip-and-continue), or reading it
/// failed unexpectedly.
#[derive(Debug)]
pub enum Error {
    NotAvailible(String),
    IOError(String),
}

impl Error {
    /// The error's one-line text.
    pub open spec fn spec_message(self) -> Seq<char> {
        match self {
            Error::NotAvailible(name) => "MSR Feature not availible file: "@ + name@,
            Error::IOError(e) => "IOError: "@ + e@,
        }
    }

    /// Describe the error in one line.
    pub fn message(&self) -> (r: String)
        ensures
            r@ == self.spec_message(),
    {
        match self {
            Error::NotAvailible(name) => {
                let mut out = String::from_str("MSR Feature not availible file: ");
                out.append(name.as_str());
                out
            },
            Error::IOError(e) => {
                let mut out = String::from_str("IOError: ");
                out.append(e.as_str());
                out
            },
        }
    }
}

/// Wraps a general description of a model-specific register: its name,
/// its address, and the fields packed into its 64 bits.
#[derive(Debug)]
pub struct MSRDesc {
    pub name: String,
    pub address: u32,
    pub fields: Vec<Field>,
}

impl MSRDesc {
    /// The description's one-line rendering: its name and its address.
    pub open spec fn spec_render(self) -> Seq<char> {
        self.name@ + ": "@ + "0x"@ + spec_hex_str(self.address as nat)
    }

    /// Render the description as `<name>: <address>`.
    pub fn render(&self) -> (r: String)
        ensures
            r@ == self.spec_render(),
    {
        let mut out = String::from_str(self.name.as_str());
        out.append(": ");
        out.append("0x");
        let digits = hex_str(self.address as u128);
        out.append(digits.as_str());
        out
    }
}

/// One register value resolved against its description.
pub struct MSRValue<'a> {
    pub desc: &'a MSRDesc,
    pub value: u64,
}

impl<'a> MSRValue<'a> {
    /// Emit one fact per configured field, each name prefixed with the
    /// register's declared name.
    pub fn collect_facts<T: From<u32> + From<bool>>(&self) -> (r: Vec<GenericFact<T>>)
        ensures
            r@.len() == self.desc.fields@.len(),
            <T as FromSpec<u32>>::obeys_from_spec() && <T as FromSpec<bool>>::obeys_from_spec()
                ==> forall|i: int|
                0 <= i < self.desc.fields@.len() ==> spec_field_fact(
                    #[trigger] r@[i],
                    self.desc.name@ + "/"@,
                    self.value as Register,
                    self.desc.fields@[i],
                ),
    {
        let mut r: Vec<GenericFact<T>> = Vec::new();
        collect_slot_facts(&mut r, self.desc.name.as_str(), self.value as Register,
            &self.desc.fields);
        proof {
            if <T as FromSpec<u32>>::obeys_from_spec() && <T as FromSpec<
                bool,
            >>::obeys_from_spec() {
                assert forall|i: int| 0 <= i < self.desc.fields@.len() implies spec_field_fact(
                    #[trigger] r@[i],
                    self.desc.name@ + "/"@,
                    self.value as Register,
                    self.desc.fields@[i],
                ) by {
                    assert(spec_field_fact(
                        r@[0 + i],
                        self.desc.name@ + "/"@,
                        self.value as Register,
                        self.desc.fields@[i],
                    ));
                }
            }
        }
        r
    }

    /// The bound value's rendering: the description, the raw value, then
    /// each field on its own line.
    pub open spec fn spec_render(self) -> Seq<char> {
        self.desc.spec_render() + " = "@ + "0x"@ + spec_hex_str(self.value as nat) + "\n"@
            + spec_fields_render(self.value as Register, self.desc.fields@)
    }

    /// Render the value and its decoded fields.
    pub fn render(&self) -> (r: String)
        ensures
            r@ == self.spec_render(),
    {
        let mut out = self.desc.render();
        out.append(" = ");
        out.append("0x");
        let digits = hex_str(self.value as u128);
        out.append(digits.as_str());
        out.append("\n");
        append_fields_render(&mut out, self.value as Register, &self.desc.fields);
        proof {
            assert(out@ =~= self.spec_render());
        }
        out
    }
}

impl<'a, T: From<u32> + From<bool>> crate::facts::Facter<GenericFact<T>> for MSRValue<'a> {
    fn collect_facts(&self) -> Vec<GenericFact<T>> {
        MSRValue::collect_facts(self)
    }
}

/// A source of model-specific register values. Implemented outside the
/// library by whatever backend can read them; a backend with nothing to
/// offer reports itself empty and serves no values.
pub trait MsrStore {
    /// Whether this store can serve no registers at all. A store counts
    /// as non-empty unless it says otherwise.
    open spec fn spec_is_empty(&self) -> bool {
        false
    }

    fn is_empty(&self) -> (r: bool)
        ensures
            r == self.spec_is_empty(),
    ;

    fn get_value<'a>(&self, desc: &'a MSRDesc) -> (r: Result<MSRValue<'a>, Error>)
        ensures
            match r {
                Ok(v) => v.desc == desc,
                Err(_) => true,
            },
    ;
}

/// The store used where no register access path exists: always empty,
/// serves nothing.
pub struct EmptyMSR {}

impl MsrStore for EmptyMSR {
    open spec fn spec_is_empty(&self) -> bool {
        true
    }

    fn is_empty(&self) -> (r: bool) {
        true
    }

    fn get_value<'a>(&self, desc: &'a MSRDesc) -> (r: Result<MSRValue<'a>, Error>)
        ensures
            r matches Err(e) && e matches Error::NotAvailible(name) && name@ == Seq::<
                char,
            >::empty(),
    {
        Err(Error::NotAvailible(String::new()))
    }
}

} // verus!
