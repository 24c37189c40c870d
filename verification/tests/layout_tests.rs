use cpuinfo::bitfield::{Field, Flag, Int};
use cpuinfo::facts::{FactValue, GenericFact};
use cpuinfo::layout::{BitFieldLeaf, BoundLeaf, LeafDesc, LeafType, StartLeaf, StringLeaf};
use cpuinfo::{is_empty_leaf, CpuidDB, CpuidResult};

fn genuine_intel_quad() -> CpuidResult {
    // ebx, edx, ecx pack "Genu", "ineI", "ntel" as little-endian bytes.
    CpuidResult { eax: 0x16, ebx: 0x756e6547, ecx: 0x6c65746e, edx: 0x49656e69 }
}

#[test]
fn empty_leaf_heuristic() {
    let empty = CpuidResult { eax: 0, ebx: 0, ecx: 0x00000000, edx: 0x12345678 };
    assert!(is_empty_leaf(&empty));
    let not_empty = CpuidResult { eax: 0, ebx: 0, ecx: 0x00000100, edx: 0 };
    assert!(!is_empty_leaf(&not_empty));
    let low_ecx_only = CpuidResult { eax: 0, ebx: 0, ecx: 0x000000FF, edx: 0 };
    assert!(is_empty_leaf(&low_ecx_only));
}

#[test]
fn start_leaf_decodes_vendor_text() {
    let leaf = StartLeaf {};
    let quad = genuine_intel_quad();
    assert_eq!(leaf.get_text(&quad), "GenuineIntel");
    assert_eq!(leaf.display_leaf(&vec![quad]), "'GenuineIntel' max leaf:22");
}

#[test]
fn string_leaf_decodes_all_four_registers() {
    let leaf = StringLeaf {};
    // eax, ebx, ecx, edx pack "Intel(R) Core(TM" as little-endian bytes.
    let quad = CpuidResult { eax: 0x65746e49, ebx: 0x2952286c, ecx: 0x726f4320, edx: 0x4d542865 };
    assert_eq!(leaf.get_text(&quad), "Intel(R) Core(TM");
    assert_eq!(leaf.display_leaf(&vec![quad]), "'Intel(R) Core(TM'");
}

#[test]
fn start_leaf_emits_max_leaves_and_type() {
    let leaf = StartLeaf {};
    let quad = genuine_intel_quad();
    let facts: Vec<GenericFact<FactValue>> = leaf.get_facts(&vec![quad]);
    assert_eq!(facts.len(), 2);
    assert_eq!(facts[0].name, "max_leaves");
    assert_eq!(facts[0].value, FactValue::Num(0x16));
    assert_eq!(facts[1].name, "type");
    assert_eq!(facts[1].value, FactValue::Text("GenuineIntel".to_string()));
}

fn features_desc() -> LeafDesc {
    LeafDesc::new(
        "features".to_string(),
        LeafType::BitField(BitFieldLeaf {
            eax: vec![Field::Int(Int { name: "stepping".to_string(), bounds: 0..4 })],
            ebx: vec![],
            ecx: vec![],
            edx: vec![Field::Flag(Flag { name: "sse2".to_string(), bit: 26 })],
        }),
    )
}

#[test]
fn bitfield_leaf_prefixes_register_slot() {
    let desc = features_desc();
    let quad = CpuidResult { eax: 0x0AF50341, ebx: 0, ecx: 0, edx: 1 << 26 };
    let facts: Vec<GenericFact<FactValue>> = desc.get_facts(&vec![quad]);
    assert_eq!(facts.len(), 2);
    assert_eq!(facts[0].name, "eax/stepping");
    assert_eq!(facts[0].value, FactValue::Num(1));
    assert_eq!(facts[1].name, "edx/sse2");
    assert_eq!(facts[1].value, FactValue::Bool(true));
}

#[test]
fn bound_leaf_prefixes_leaf_name() {
    let desc = features_desc();
    let quad = CpuidResult { eax: 0, ebx: 0, ecx: 0, edx: 1 << 26 };
    let bound = BoundLeaf { desc: &desc, sub_leaves: vec![quad] };
    let facts: Vec<GenericFact<FactValue>> = bound.get_facts();
    assert_eq!(facts[1].name, "features/edx/sse2");
    assert_eq!(facts[1].value, FactValue::Bool(true));
}

struct OneLeafSource {
    quad: CpuidResult,
}

impl CpuidDB for OneLeafSource {
    fn get_cpuid(&self, leaf: u32, _sub_leaf: u32) -> Option<CpuidResult> {
        if leaf == 1 {
            Some(self.quad)
        } else {
            None
        }
    }
}

#[test]
fn bind_leaf_skips_absent_and_empty_leaves() {
    let desc = features_desc();
    let source = OneLeafSource { quad: CpuidResult { eax: 1, ebx: 0, ecx: 0, edx: 0 } };
    assert!(desc.bind_leaf(1, &source).is_some());
    assert!(desc.bind_leaf(2, &source).is_none());
    let empty_source = OneLeafSource { quad: CpuidResult { eax: 0, ebx: 0, ecx: 0, edx: 5 } };
    assert!(desc.bind_leaf(1, &empty_source).is_none());
}

#[test]
fn bitfield_leaf_renders_registers_and_fields() {
    let desc = features_desc();
    let quad = CpuidResult { eax: 0x0AF50341, ebx: 0, ecx: 0, edx: 1 << 26 };
    let bound = desc.bind_leaf(1, &OneLeafSource { quad }).unwrap();
    let text = bound.render();
    assert!(text.starts_with("features: \n"));
    assert!(text.contains(" eax: 0xaf50341\n"));
    assert!(text.contains("  stepping =          1\n"));
    assert!(text.contains(" edx: 0x4000000\n"));
    assert!(text.contains("  sse2 =       true\n"));
}
