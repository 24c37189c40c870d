//! Schema-driven handling of the register-group layouts: vendor-string
//! leaves, plain-string leaves, and multi-register bit-field leaves.

use crate::bitfield::{spec_bind, BoundField, Field, Register};
use crate::facts::GenericFact;
use crate::text::{
    dec_str, hex_str, pad_left, spec_dec_str, spec_hex_str, spec_lossy_text, spec_pad_left,
    utf8_lossy,
};
use crate::{is_empty_leaf, spec_is_empty_leaf, CpuidDB, CpuidResult};
use vstd::prelude::*;
use vstd::std_specs::convert::FromSpec;

verus! {

/// The little-endian bytes of one 32-bit register.
pub open spec fn spec_u32_le_bytes(v: u32) -> Seq<u8> {
    seq![
        (v & 0xFF) as u8,
        ((v >> 8) & 0xFF) as u8,
        ((v >> 16) & 0xFF) as u8,
        ((v >> 24) & 0xFF) as u8,
    ]
}

/// Append the little-endian bytes of one register.
fn push_le_bytes(out: &mut Vec<u8>, v: u32)
    ensures
        final(out)@ == old(out)@ + spec_u32_le_bytes(v),
{
    proof {
        assert(v & 0xFF <= 0xFF && (v >> 8) & 0xFF <= 0xFF && (v >> 16) & 0xFF <= 0xFF && (v
            >> 24) & 0xFF <= 0xFF) by (bit_vector);
    }
    out.push((v & 0xFF) as u8);
    out.push(((v >> 8) & 0xFF) as u8);
    out.push(((v >> 16) & 0xFF) as u8);
    out.push(((v >> 24) & 0xFF) as u8);
    proof {
        assert(out@ =~= old(out)@ + spec_u32_le_bytes(v));
    }
}

/// The bytes a vendor-string (start) leaf packs its text into: registers
/// ebx, edx, ecx, in that exact order.
pub open spec fn spec_start_text_bytes(q: CpuidResult) -> Seq<u8> {
    spec_u32_le_bytes(q.ebx) + spec_u32_le_bytes(q.edx) + spec_u32_le_bytes(q.ecx)
}

/// The bytes a string leaf packs its text into: all four registers in
/// natural order.
pub open spec fn spec_string_text_bytes(q: CpuidResult) -> Seq<u8> {
    spec_u32_le_bytes(q.eax) + spec_u32_le_bytes(q.ebx) + spec_u32_le_bytes(q.ecx)
        + spec_u32_le_bytes(q.edx)
}

/// Which quads one source response contributes: none when the source
/// reported the leaf absent; none when an emptiness-checked leaf echoed
/// back (near-)zero registers; the quad itself otherwise.
pub open spec fn spec_resolve_quads(always_present: bool, q: Option<CpuidResult>) -> Seq<
    CpuidResult,
> {
    match q {
        Some(quad) => if always_present || !spec_is_empty_leaf(quad) {
            seq![quad]
        } else {
            Seq::empty()
        },
        None => Seq::empty(),
    }
}

/// Decide which quads a source response contributes.
pub fn resolve_sub_leaves(always_present: bool, q: Option<CpuidResult>) -> (r: Vec<CpuidResult>)
    ensures
        r@ == spec_resolve_quads(always_present, q),
{
    match q {
        Some(quad) => {
            if always_present || !is_empty_leaf(&quad) {
                let mut v: Vec<CpuidResult> = Vec::new();
                v.push(quad);
                proof {
                    assert(v@ =~= seq![quad]);
                }
                v
            } else {
                Vec::new()
            }
        },
        None => Vec::new(),
    }
}

/// Whether the fact-value type's conversions from the three carried kinds
/// of register data follow their specifications.
pub open spec fn spec_obeys_fact_conversions<
    T: From<u32> + From<bool> + From<String>,
>() -> bool {
    <T as FromSpec<u32>>::obeys_from_spec() && <T as FromSpec<bool>>::obeys_from_spec() && <T as FromSpec<String>>::obeys_from_spec()
}

/// What one emitted bit-field fact must look like: the given name prefix
/// followed by the field's own name, and the field's decoded (or zero)
/// value widened into `T`.
pub open spec fn spec_field_fact<T: From<u32> + From<bool>>(
    f: GenericFact<T>,
    prefix: Seq<char>,
    reg: Register,
    field: Field,
) -> bool {
    f.name@ == prefix + field.spec_name() && f.value == spec_bind(reg, &field).spec_fact_value::<
        T,
    >()
}

/// The two facts a start leaf emits: the reported highest leaf, and the
/// vendor text.
pub open spec fn spec_start_facts<T: From<u32> + From<String>>(
    q: CpuidResult,
    r: Seq<GenericFact<T>>,
) -> bool {
    r.len() == 2 && r[0].name@ == "max_leaves"@ && r[0].value == <T as FromSpec<u32>>::from_spec(
        q.eax,
    ) && r[1].name@ == "type"@ && (exists|s: String|
        s@ == spec_lossy_text(spec_start_text_bytes(q)) && r[1].value == <T as FromSpec<
            String,
        >>::from_spec(s))
}

/// The one fact a string leaf emits: its decoded text.
pub open spec fn spec_string_facts<T: From<String>>(
    q: CpuidResult,
    r: Seq<GenericFact<T>>,
) -> bool {
    r.len() == 1 && r[0].name@ == "value"@ && (exists|s: String|
        s@ == spec_lossy_text(spec_string_text_bytes(q)) && r[0].value == <T as FromSpec<
            String,
        >>::from_spec(s))
}

/// The first leaf found requires special processing: it reports the vendor
/// text and the highest answerable leaf.
#[derive(Debug)]
pub struct StartLeaf {}

impl StartLeaf {
    /// The vendor text packed into the quad.
    pub fn get_text(&self, leaf: &CpuidResult) -> (r: String)
        ensures
            r@ == spec_lossy_text(spec_start_text_bytes(*leaf)),
    {
        let mut bytes: Vec<u8> = Vec::new();
        push_le_bytes(&mut bytes, leaf.ebx);
        push_le_bytes(&mut bytes, leaf.edx);
        push_le_bytes(&mut bytes, leaf.ecx);
        proof {
            assert(bytes@ =~= spec_start_text_bytes(*leaf));
        }
        utf8_lossy(&bytes)
    }

    /// Query sub-leaf 0 once; a start leaf is never considered empty.
    pub fn scan_sub_leaves<C: CpuidDB>(&self, leaf: u32, cpuid: &C) -> (r: Vec<CpuidResult>)
        ensures
            r@.len() <= 1,
            exists|q: Option<CpuidResult>| r@ == spec_resolve_quads(true, q),
    {
        resolve_sub_leaves(true, cpuid.get_cpuid(leaf, 0))
    }

    /// The start leaf's one-line rendering.
    pub open spec fn spec_render(q: CpuidResult) -> Seq<char> {
        "'"@ + spec_lossy_text(spec_start_text_bytes(q)) + "' max leaf:"@ + spec_dec_str(
            q.eax as nat,
        )
    }

    /// Render the vendor text alongside the reported highest leaf.
    pub fn display_leaf(&self, leaf: &Vec<CpuidResult>) -> (r: String)
        requires
            leaf@.len() >= 1,
        ensures
            r@ == Self::spec_render(leaf@[0]),
    {
        let q: CpuidResult = leaf[0];
        let mut out = String::from_str("'");
        let text = self.get_text(&q);
        out.append(text.as_str());
        out.append("' max leaf:");
        let max = dec_str(q.eax as u64);
        out.append(max.as_str());
        out
    }

    /// Emit the highest-leaf count and the vendor text as facts.
    pub fn get_facts<T: From<u32> + From<String>>(&self, leaves: &Vec<CpuidResult>) -> (r: Vec<
        GenericFact<T>,
    >)
        requires
            leaves@.len() >= 1,
        ensures
            <T as FromSpec<u32>>::obeys_from_spec() && <T as FromSpec<String>>::obeys_from_spec()
                ==> spec_start_facts(leaves@[0], r@),
    {
        let q: CpuidResult = leaves[0];
        let text = self.get_text(&q);
        let ghost text_snapshot = text;
        let mut r: Vec<GenericFact<T>> = Vec::new();
        r.push(GenericFact::new(String::from_str("max_leaves"), T::from(q.eax)));
        r.push(GenericFact::new(String::from_str("type"), T::from(text)));
        proof {
            if <T as FromSpec<u32>>::obeys_from_spec() && <T as FromSpec<
                String,
            >>::obeys_from_spec() {
                assert(r@[1].value == <T as FromSpec<String>>::from_spec(text_snapshot));
            }
        }
        r
    }
}

/// A leaf that contains a string encoded in the four 32-bit registers.
#[derive(Debug)]
pub struct StringLeaf {}

impl StringLeaf {
    /// The text packed into the quad.
    pub fn get_text(&self, leaf: &CpuidResult) -> (r: String)
        ensures
            r@ == spec_lossy_text(spec_string_text_bytes(*leaf)),
    {
        let mut bytes: Vec<u8> = Vec::new();
        push_le_bytes(&mut bytes, leaf.eax);
        push_le_bytes(&mut bytes, leaf.ebx);
        push_le_bytes(&mut bytes, leaf.ecx);
        push_le_bytes(&mut bytes, leaf.edx);
        proof {
            assert(bytes@ =~= spec_string_text_bytes(*leaf));
        }
        utf8_lossy(&bytes)
    }

    /// Query sub-leaf 0 once; the leaf is absent when the quad echoes back
    /// (near-)zero registers.
    pub fn scan_sub_leaves<C: CpuidDB>(&self, leaf: u32, cpuid: &C) -> (r: Vec<CpuidResult>)
        ensures
            r@.len() <= 1,
            forall|i: int| 0 <= i < r@.len() ==> !spec_is_empty_leaf(#[trigger] r@[i]),
            exists|q: Option<CpuidResult>| r@ == spec_resolve_quads(false, q),
    {
        resolve_sub_leaves(false, cpuid.get_cpuid(leaf, 0))
    }

    /// The string leaf's one-line rendering: its text, quoted.
    pub open spec fn spec_render(q: CpuidResult) -> Seq<char> {
        "'"@ + spec_lossy_text(spec_string_text_bytes(q)) + "'"@
    }

    /// Render the decoded text.
    pub fn display_leaf(&self, leaf: &Vec<CpuidResult>) -> (r: String)
        requires
            leaf@.len() >= 1,
        ensures
            r@ == Self::spec_render(leaf@[0]),
    {
        let q: CpuidResult = leaf[0];
        let mut out = String::from_str("'");
        let text = self.get_text(&q);
        out.append(text.as_str());
        out.append("'");
        out
    }

    /// Emit the decoded text as one fact.
    pub fn get_facts<T: From<String>>(&self, leaves: &Vec<CpuidResult>) -> (r: Vec<
        GenericFact<T>,
    >)
        requires
            leaves@.len() >= 1,
        ensures
            <T as FromSpec<String>>::obeys_from_spec() ==> spec_string_facts(leaves@[0], r@),
    {
        let q: CpuidResult = leaves[0];
        let text = self.get_text(&q);
        let ghost text_snapshot = text;
        let mut r: Vec<GenericFact<T>> = Vec::new();
        r.push(GenericFact::new(String::from_str("value"), T::from(text)));
        proof {
            if <T as FromSpec<String>>::obeys_from_spec() {
                assert(r@[0].value == <T as FromSpec<String>>::from_spec(text_snapshot));
            }
        }
        r
    }
}

/// Decode every field of one register slot into a fact, each name
/// prefixed with the slot's name.
pub(crate) fn collect_slot_facts<T: From<u32> + From<bool>>(
    out: &mut Vec<GenericFact<T>>,
    slot: &str,
    reg: Register,
    fields: &Vec<Field>,
)
    ensures
        final(out)@.len() == old(out)@.len() + fields@.len(),
        forall|j: int| 0 <= j < old(out)@.len() ==> final(out)@[j] == old(out)@[j],
        <T as FromSpec<u32>>::obeys_from_spec() && <T as FromSpec<bool>>::obeys_from_spec()
            ==> forall|j: int|
            0 <= j < fields@.len() ==> spec_field_fact(
                #[trigger] final(out)@[old(out)@.len() + j],
                slot@ + "/"@,
                reg,
                fields@[j],
            ),
{
    let base = out.len();
    let mut i: usize = 0;
    while i < fields.len()
        invariant
            out@.len() == base + i,
            base == old(out)@.len(),
            i <= fields@.len(),
            forall|j: int| 0 <= j < base ==> out@[j] == old(out)@[j],
            <T as FromSpec<u32>>::obeys_from_spec() && <T as FromSpec<bool>>::obeys_from_spec()
                ==> forall|j: int|
                0 <= j < i ==> spec_field_fact(
                    #[trigger] out@[base + j],
                    slot@ + "/"@,
                    reg,
                    fields@[j],
                ),
        decreases fields@.len() - i,
    {
        let bf = BoundField::from_register_and_field(reg, &fields[i]);
        let mut fact = bf.collect_fact::<T>();
        fact.add_path(slot);
        out.push(fact);
        i = i + 1;
    }
}

/// All the bit-field facts one quad yields: each register slot's fields
/// in schema order, slots in register order.
pub open spec fn spec_bitfield_facts<T: From<u32> + From<bool>>(
    leaf: BitFieldLeaf,
    q: CpuidResult,
    r: Seq<GenericFact<T>>,
) -> bool {
    let na = leaf.eax@.len() as int;
    let nb = leaf.ebx@.len() as int;
    let nc = leaf.ecx@.len() as int;
    let nd = leaf.edx@.len() as int;
    r.len() == na + nb + nc + nd && (forall|i: int|
        0 <= i < na ==> spec_field_fact(
            #[trigger] r[i],
            "eax"@ + "/"@,
            q.eax as Register,
            leaf.eax@[i],
        )) && (forall|i: int|
        0 <= i < nb ==> spec_field_fact(
            #[trigger] r[na + i],
            "ebx"@ + "/"@,
            q.ebx as Register,
            leaf.ebx@[i],
        )) && (forall|i: int|
        0 <= i < nc ==> spec_field_fact(
            #[trigger] r[na + nb + i],
            "ecx"@ + "/"@,
            q.ecx as Register,
            leaf.ecx@[i],
        )) && (forall|i: int|
        0 <= i < nd ==> spec_field_fact(
            #[trigger] r[na + nb + nc + i],
            "edx"@ + "/"@,
            q.edx as Register,
            leaf.edx@[i],
        ))
}

/// A leaf that contains a mix of integers and bit-sized flags, with an
/// ordered field list for each of the four registers.
#[derive(Debug)]
pub struct BitFieldLeaf {
    pub eax: Vec<Field>,
    pub ebx: Vec<Field>,
    pub ecx: Vec<Field>,
    pub edx: Vec<Field>,
}

/// The rendering of every field of one register, one indented line each.
pub open spec fn spec_fields_render(reg: Register, fields: Seq<Field>) -> Seq<char>
    decreases fields.len(),
{
    if fields.len() == 0 {
        Seq::empty()
    } else {
        spec_fields_render(reg, fields.drop_last()) + "  "@ + spec_bind(
            reg,
            &fields.last(),
        ).spec_render() + "\n"@
    }
}

/// One register's rendering: its name, its raw value in prefixed
/// hexadecimal, then each of its fields.
pub open spec fn spec_single_reg_render(name: Seq<char>, reg: Register, fields: Seq<Field>) -> Seq<
    char,
> {
    " "@ + name + ": "@ + spec_pad_left("0x"@ + spec_hex_str(reg as nat), 8) + "\n"@
        + spec_fields_render(reg, fields)
}

/// Append each field's rendering to the text, one indented line per field.
pub fn append_fields_render(out: &mut String, reg: Register, fields: &Vec<Field>)
    ensures
        final(out)@ == old(out)@ + spec_fields_render(reg, fields@),
{
    let ghost base = out@;
    let mut i: usize = 0;
    while i < fields.len()
        invariant
            i <= fields@.len(),
            out@ == base + spec_fields_render(reg, fields@.take(i as int)),
        decreases fields@.len() - i,
    {
        let bf = BoundField::from_register_and_field(reg, &fields[i]);
        let line = bf.render();
        out.append("  ");
        out.append(line.as_str());
        out.append("\n");
        proof {
            let next = fields@.take(i + 1);
            assert(next.drop_last() =~= fields@.take(i as int));
            assert(next.last() == fields@[i as int]);
            assert(base + spec_fields_render(reg, fields@.take(i as int)) + "  "@
                + spec_bind(reg, &fields@[i as int]).spec_render() + "\n"@ =~= base
                + spec_fields_render(reg, next));
        }
        i = i + 1;
    }
    proof {
        assert(fields@.take(fields@.len() as int) =~= fields@);
        assert(base + spec_fields_render(reg, Seq::<Field>::empty()) =~= base);
    }
}

impl BitFieldLeaf {
    /// Render one register and its fields.
    pub fn single_reg(name: &str, reg: Register, fields: &Vec<Field>) -> (r: String)
        ensures
            r@ == spec_single_reg_render(name@, reg, fields@),
    {
        let mut out = String::from_str(" ");
        out.append(name);
        out.append(": ");
        let mut raw = String::from_str("0x");
        let digits = hex_str(reg);
        raw.append(digits.as_str());
        let padded = pad_left(raw.as_str(), 8);
        out.append(padded.as_str());
        out.append("\n");
        append_fields_render(&mut out, reg, fields);
        proof {
            assert(out@ =~= spec_single_reg_render(name@, reg, fields@));
        }
        out
    }

    /// Query sub-leaf 0 once; the leaf is absent when the quad echoes back
    /// (near-)zero registers.
    pub fn scan_sub_leaves<C: CpuidDB>(&self, leaf: u32, cpuid: &C) -> (r: Vec<CpuidResult>)
        ensures
            r@.len() <= 1,
            forall|i: int| 0 <= i < r@.len() ==> !spec_is_empty_leaf(#[trigger] r@[i]),
            exists|q: Option<CpuidResult>| r@ == spec_resolve_quads(false, q),
    {
        resolve_sub_leaves(false, cpuid.get_cpuid(leaf, 0))
    }

    /// The bit-field leaf's rendering: each register on its own lines.
    pub open spec fn spec_render(self, q: CpuidResult) -> Seq<char> {
        "\n"@ + spec_single_reg_render("eax"@, q.eax as Register, self.eax@)
            + spec_single_reg_render("ebx"@, q.ebx as Register, self.ebx@)
            + spec_single_reg_render("ecx"@, q.ecx as Register, self.ecx@)
            + spec_single_reg_render("edx"@, q.edx as Register, self.edx@)
    }

    /// Render all four registers and their fields.
    pub fn display_leaf(&self, leaf: &Vec<CpuidResult>) -> (r: String)
        requires
            leaf@.len() >= 1,
        ensures
            r@ == self.spec_render(leaf@[0]),
    {
        let q: CpuidResult = leaf[0];
        let mut out = String::from_str("\n");
        let ra = Self::single_reg("eax", q.eax as Register, &self.eax);
        out.append(ra.as_str());
        let rb = Self::single_reg("ebx", q.ebx as Register, &self.ebx);
        out.append(rb.as_str());
        let rc = Self::single_reg("ecx", q.ecx as Register, &self.ecx);
        out.append(rc.as_str());
        let rd = Self::single_reg("edx", q.edx as Register, &self.edx);
        out.append(rd.as_str());
        out
    }

    /// Emit one fact per configured field, each path-prefixed with its
    /// register slot's name.
    pub fn get_facts<T: From<u32> + From<bool>>(&self, leaves: &Vec<CpuidResult>) -> (r: Vec<
        GenericFact<T>,
    >)
        requires
            leaves@.len() >= 1,
        ensures
            <T as FromSpec<u32>>::obeys_from_spec() && <T as FromSpec<bool>>::obeys_from_spec()
                ==> spec_bitfield_facts(*self, leaves@[0], r@),
    {
        let q: CpuidResult = leaves[0];
        let mut r: Vec<GenericFact<T>> = Vec::new();
        collect_slot_facts(&mut r, "eax", q.eax as Register, &self.eax);
        let ghost s1 = r@;
        collect_slot_facts(&mut r, "ebx", q.ebx as Register, &self.ebx);
        let ghost s2 = r@;
        collect_slot_facts(&mut r, "ecx", q.ecx as Register, &self.ecx);
        let ghost s3 = r@;
        collect_slot_facts(&mut r, "edx", q.edx as Register, &self.edx);
        proof {
            if <T as FromSpec<u32>>::obeys_from_spec() && <T as FromSpec<
                bool,
            >>::obeys_from_spec() {
                let na = self.eax@.len() as int;
                let nb = self.ebx@.len() as int;
                let nc = self.ecx@.len() as int;
                let nd = self.edx@.len() as int;
                assert forall|i: int| 0 <= i < na implies spec_field_fact(
                    #[trigger] r@[i],
                    "eax"@ + "/"@,
                    q.eax as Register,
                    self.eax@[i],
                ) by {
                    assert(spec_field_fact(
                        s1[0 + i],
                        "eax"@ + "/"@,
                        q.eax as Register,
                        self.eax@[i],
                    ));
                    assert(r@[i] == s3[i] && s3[i] == s2[i] && s2[i] == s1[i]);
                }
                assert forall|i: int| 0 <= i < nb implies spec_field_fact(
                    #[trigger] r@[na + i],
                    "ebx"@ + "/"@,
                    q.ebx as Register,
                    self.ebx@[i],
                ) by {
                    assert(spec_field_fact(
                        s2[s1.len() + i],
                        "ebx"@ + "/"@,
                        q.ebx as Register,
                        self.ebx@[i],
                    ));
                    assert(s1.len() == na);
                    assert(r@[na + i] == s3[na + i] && s3[na + i] == s2[na + i]);
                }
                assert forall|i: int| 0 <= i < nc implies spec_field_fact(
                    #[trigger] r@[na + nb + i],
                    "ecx"@ + "/"@,
                    q.ecx as Register,
                    self.ecx@[i],
                ) by {
                    assert(spec_field_fact(
                        s3[s2.len() + i],
                        "ecx"@ + "/"@,
                        q.ecx as Register,
                        self.ecx@[i],
                    ));
                    assert(s2.len() == na + nb);
                    assert(r@[na + nb + i] == s3[na + nb + i]);
                }
                assert forall|i: int| 0 <= i < nd implies spec_field_fact(
                    #[trigger] r@[na + nb + nc + i],
                    "edx"@ + "/"@,
                    q.edx as Register,
                    self.edx@[i],
                ) by {
                    assert(spec_field_fact(
                        r@[s3.len() + i],
                        "edx"@ + "/"@,
                        q.edx as Register,
                        self.edx@[i],
                    ));
                    assert(s3.len() == na + nb + nc);
                }
            }
        }
        r
    }
}

/// The closed set of register-group layouts, dispatched exhaustively.
#[derive(Debug)]
pub enum LeafType {
    Start(StartLeaf),
    String(StringLeaf),
    BitField(BitFieldLeaf),
}

/// All the facts one leaf layout emits for one quad.
pub open spec fn spec_leaf_facts<T: From<u32> + From<bool> + From<String>>(
    lt: LeafType,
    q: CpuidResult,
    r: Seq<GenericFact<T>>,
) -> bool {
    match lt {
        LeafType::Start(_) => spec_start_facts(q, r),
        LeafType::String(_) => spec_string_facts(q, r),
        LeafType::BitField(b) => spec_bitfield_facts(b, q, r),
    }
}

/// The rendering one leaf layout gives one quad.
pub open spec fn spec_leaf_render(lt: LeafType, q: CpuidResult) -> Seq<char> {
    match lt {
        LeafType::Start(_) => StartLeaf::spec_render(q),
        LeafType::String(_) => StringLeaf::spec_render(q),
        LeafType::BitField(b) => b.spec_render(q),
    }
}

impl LeafType {
    /// A start leaf is kept even when its quad looks empty.
    pub open spec fn spec_always_present(self) -> bool {
        self matches LeafType::Start(_)
    }

    /// Determine how many sub-queries exist and whether the leaf is
    /// present at all.
    pub fn scan_sub_leaves<C: CpuidDB>(&self, leaf: u32, cpuid: &C) -> (r: Vec<CpuidResult>)
        ensures
            r@.len() <= 1,
            !self.spec_always_present() ==> forall|i: int|
                0 <= i < r@.len() ==> !spec_is_empty_leaf(#[trigger] r@[i]),
            exists|q: Option<CpuidResult>| r@ == spec_resolve_quads(self.spec_always_present(), q),
    {
        match self {
            LeafType::Start(l) => {
                let r = l.scan_sub_leaves(leaf, cpuid);
                proof {
                    let q = choose|q: Option<CpuidResult>| r@ == spec_resolve_quads(true, q);
                    assert(r@ == spec_resolve_quads(self.spec_always_present(), q));
                }
                r
            },
            LeafType::String(l) => {
                let r = l.scan_sub_leaves(leaf, cpuid);
                proof {
                    let q = choose|q: Option<CpuidResult>| r@ == spec_resolve_quads(false, q);
                    assert(r@ == spec_resolve_quads(self.spec_always_present(), q));
                }
                r
            },
            LeafType::BitField(l) => {
                let r = l.scan_sub_leaves(leaf, cpuid);
                proof {
                    let q = choose|q: Option<CpuidResult>| r@ == spec_resolve_quads(false, q);
                    assert(r@ == spec_resolve_quads(self.spec_always_present(), q));
                }
                r
            },
        }
    }

    /// Render the quad as the layout prescribes.
    pub fn display_leaf(&self, leaf: &Vec<CpuidResult>) -> (r: String)
        requires
            leaf@.len() >= 1,
        ensures
            r@ == spec_leaf_render(*self, leaf@[0]),
    {
        match self {
            LeafType::Start(l) => l.display_leaf(leaf),
            LeafType::String(l) => l.display_leaf(leaf),
            LeafType::BitField(l) => l.display_leaf(leaf),
        }
    }

    /// Emit the layout's facts for the quad.
    pub fn get_facts<T: From<u32> + From<bool> + From<String>>(
        &self,
        leaves: &Vec<CpuidResult>,
    ) -> (r: Vec<GenericFact<T>>)
        requires
            leaves@.len() >= 1,
        ensures
            spec_obeys_fact_conversions::<T>() ==> spec_leaf_facts(*self, leaves@[0], r@),
    {
        match self {
            LeafType::Start(l) => l.get_facts(leaves),
            LeafType::String(l) => l.get_facts(leaves),
            LeafType::BitField(l) => l.get_facts(leaves),
        }
    }
}

/// One schema entry: a named leaf and its layout, keyed externally by
/// leaf index.
#[derive(Debug)]
pub struct LeafDesc {
    pub name: String,
    pub data_type: LeafType,
}

impl LeafDesc {
    pub fn new(name: String, data_type: LeafType) -> (r: LeafDesc)
        ensures
            r.name == name,
            r.data_type == data_type,
    {
        LeafDesc { name, data_type }
    }

    pub fn name(&self) -> (r: &String)
        ensures
            *r == self.name,
    {
        &self.name
    }

    pub fn data_type(&self) -> (r: &LeafType)
        ensures
            *r == self.data_type,
    {
        &self.data_type
    }

    /// Determine how many sub-queries exist and whether the leaf is
    /// present at all.
    pub fn scan_sub_leaves<C: CpuidDB>(&self, leaf: u32, cpuid: &C) -> (r: Vec<CpuidResult>)
        ensures
            r@.len() <= 1,
            !self.data_type.spec_always_present() ==> forall|i: int|
                0 <= i < r@.len() ==> !spec_is_empty_leaf(#[trigger] r@[i]),
            exists|q: Option<CpuidResult>| r@ == spec_resolve_quads(
                self.data_type.spec_always_present(),
                q,
            ),
    {
        self.data_type.scan_sub_leaves(leaf, cpuid)
    }

    /// Render the leaf's name, then its quad.
    pub fn display_leaf(&self, leaf: &Vec<CpuidResult>) -> (r: String)
        requires
            leaf@.len() >= 1,
        ensures
            r@ == self.name@ + ": "@ + spec_leaf_render(self.data_type, leaf@[0]),
    {
        let mut out = String::from_str(self.name.as_str());
        out.append(": ");
        let body = self.data_type.display_leaf(leaf);
        out.append(body.as_str());
        out
    }

    /// Emit the layout's facts for the quad, unprefixed.
    pub fn get_facts<T: From<u32> + From<bool> + From<String>>(
        &self,
        leaves: &Vec<CpuidResult>,
    ) -> (r: Vec<GenericFact<T>>)
        requires
            leaves@.len() >= 1,
        ensures
            spec_obeys_fact_conversions::<T>() ==> spec_leaf_facts(self.data_type, leaves@[0], r@),
    {
        self.data_type.get_facts(leaves)
    }

    /// Query the source for this leaf: `None` when scanning found no data,
    /// the resolved quads otherwise. A bound leaf is never constructed
    /// with an absent quad substituted by zero.
    pub fn bind_leaf<C: CpuidDB>(&self, leaf: u32, cpuid: &C) -> (r: Option<BoundLeaf>)
        ensures
            match r {
                Some(b) => *b.desc == *self && b.sub_leaves@.len() == 1
                    && (!self.data_type.spec_always_present() ==> !spec_is_empty_leaf(
                    b.sub_leaves@[0],
                )),
                None => true,
            },
    {
        let sub_leaves = self.scan_sub_leaves(leaf, cpuid);
        if sub_leaves.len() != 0 {
            Some(BoundLeaf { desc: self, sub_leaves })
        } else {
            None
        }
    }
}

/// Names in `outer` are those of `inner`, each carrying one more leading
/// path segment; values are unchanged.
pub open spec fn spec_prefixed<T>(
    prefix: Seq<char>,
    inner: Seq<GenericFact<T>>,
    outer: Seq<GenericFact<T>>,
) -> bool {
    outer.len() == inner.len() && forall|i: int|
        0 <= i < inner.len() ==> (#[trigger] outer[i]).name@ == prefix + inner[i].name@
            && outer[i].value == inner[i].value
}

/// The result of successfully querying a register source for one leaf:
/// the schema entry and the resolved quads.
pub struct BoundLeaf<'a> {
    pub desc: &'a LeafDesc,
    pub sub_leaves: Vec<CpuidResult>,
}

impl<'a> BoundLeaf<'a> {
    /// The leaf's facts, each name prefixed with the leaf's declared name.
    pub fn get_facts<T: From<u32> + From<bool> + From<String>>(&self) -> (r: Vec<GenericFact<T>>)
        ensures
            self.sub_leaves@.len() == 0 ==> r@.len() == 0,
            self.sub_leaves@.len() >= 1 && spec_obeys_fact_conversions::<T>() ==> exists|
                inner: Seq<GenericFact<T>>,
            |
                spec_leaf_facts(self.desc.data_type, self.sub_leaves@[0], inner) && spec_prefixed(
                    self.desc.name@ + "/"@,
                    inner,
                    r@,
                ),
    {
        if self.sub_leaves.len() == 0 {
            return Vec::new();
        }
        let mut facts = self.desc.get_facts::<T>(&self.sub_leaves);
        let ghost inner = facts@;
        let mut i: usize = 0;
        while i < facts.len()
            invariant
                i <= facts@.len(),
                facts@.len() == inner.len(),
                forall|j: int| i <= j < inner.len() ==> facts@[j] == inner[j],
                forall|j: int|
                    0 <= j < i ==> (#[trigger] facts@[j]).name@ == self.desc.name@ + "/"@
                        + inner[j].name@ && facts@[j].value == inner[j].value,
            decreases facts@.len() - i,
        {
            let f = &mut facts[i];
            f.add_path(self.desc.name.as_str());
            i = i + 1;
        }
        facts
    }

    /// Render the bound leaf as its schema entry prescribes.
    pub fn render(&self) -> (r: String)
        requires
            self.sub_leaves@.len() >= 1,
        ensures
            r@ == self.desc.name@ + ": "@ + spec_leaf_render(
                self.desc.data_type,
                self.sub_leaves@[0],
            ),
    {
        self.desc.display_leaf(&self.sub_leaves)
    }
}

impl<'a, T: From<u32> + From<bool> + From<String>> crate::facts::Facter<GenericFact<T>> for BoundLeaf<'a> {
    fn collect_facts(&self) -> Vec<GenericFact<T>> {
        self.get_facts()
    }
}

/// Fact name construction: a field inside register slot `edx` of a named
/// bit-field leaf, once the leaf's facts are prefixed with the leaf's name
/// and then with the `cpuid` category, carries the slash-joined path of
/// category, leaf name, slot name and field name.
pub proof fn lemma_fact_name_construction<T: From<u32> + From<bool> + From<String>>(
    desc: LeafDesc,
    b: BitFieldLeaf,
    q: CpuidResult,
    inner: Seq<GenericFact<T>>,
    outer: Seq<GenericFact<T>>,
    top: Seq<GenericFact<T>>,
    k: int,
)
    requires
        desc.data_type == LeafType::BitField(b),
        spec_leaf_facts(desc.data_type, q, inner),
        spec_prefixed(desc.name@ + "/"@, inner, outer),
        spec_prefixed("cpuid"@ + "/"@, outer, top),
        0 <= k < b.edx@.len(),
    ensures
        top[b.eax@.len() + b.ebx@.len() + b.ecx@.len() + k].name@ == "cpuid"@ + "/"@ + desc.name@
            + "/"@ + "edx"@ + "/"@ + b.edx@[k].spec_name(),
{
    let idx = b.eax@.len() + b.ebx@.len() + b.ecx@.len() + k;
    assert(spec_field_fact(inner[idx], "edx"@ + "/"@, q.edx as Register, b.edx@[k]));
    assert(top[idx].name@ == ("cpuid"@ + "/"@) + (((desc.name@ + "/"@)) + (("edx"@ + "/"@)
        + b.edx@[k].spec_name())));
    assert(top[idx].name@ =~= "cpuid"@ + "/"@ + desc.name@ + "/"@ + "edx"@ + "/"@
        + b.edx@[k].spec_name());
}

} // verus!
