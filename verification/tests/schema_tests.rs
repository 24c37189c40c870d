use cpuinfo::bitfield::{Field, Flag, Int};
use cpuinfo::facts::{FactValue, GenericFact};
use cpuinfo::layout::{BitFieldLeaf, LeafDesc, LeafType, StartLeaf};
use cpuinfo::msr::{EmptyMSR, Error, MSRDesc, MSRValue, MsrStore};
use cpuinfo::schema::{collect_facts, collect_msr_facts, Definition};
use cpuinfo::{CpuidDB, CpuidResult};

fn features_desc() -> LeafDesc {
    LeafDesc::new(
        "features".to_string(),
        LeafType::BitField(BitFieldLeaf {
            eax: vec![],
            ebx: vec![],
            ecx: vec![],
            edx: vec![Field::Flag(Flag { name: "sse2".to_string(), bit: 26 })],
        }),
    )
}

fn small_definition() -> Definition {
    Definition {
        cpuids: vec![
            (0, LeafDesc::new("vendor".to_string(), LeafType::Start(StartLeaf {}))),
            (1, features_desc()),
        ],
        msrs: vec![MSRDesc {
            name: "platform_info".to_string(),
            address: 0xCE,
            fields: vec![Field::Int(Int { name: "ratio".to_string(), bounds: 8..16 })],
        }],
    }
}

struct TableSource {}

impl CpuidDB for TableSource {
    fn get_cpuid(&self, leaf: u32, _sub_leaf: u32) -> Option<CpuidResult> {
        match leaf {
            0 => Some(CpuidResult { eax: 0x16, ebx: 0x756e6547, ecx: 0x6c65746e, edx: 0x49656e69 }),
            1 => Some(CpuidResult { eax: 0x0AF50341, ebx: 0, ecx: 0, edx: 1 << 26 }),
            _ => None,
        }
    }
}

struct OneMsrStore {}

impl MsrStore for OneMsrStore {
    fn is_empty(&self) -> bool {
        false
    }

    fn get_value<'a>(&self, desc: &'a MSRDesc) -> Result<MSRValue<'a>, Error> {
        if desc.address == 0xCE {
            Ok(MSRValue { desc, value: 0x2800 })
        } else {
            Err(Error::NotAvailible("test store".to_string()))
        }
    }
}

#[test]
fn fact_name_is_category_leaf_slot_field() {
    let def = small_definition();
    let facts: Vec<GenericFact<FactValue>> = collect_facts(&def, &TableSource {}, &EmptyMSR {});
    let names: Vec<&str> = facts.iter().map(|f| f.get_name()).collect();
    assert!(names.contains(&"cpuid/features/edx/sse2"));
    assert!(names.contains(&"cpuid/vendor/max_leaves"));
    assert!(names.contains(&"cpuid/vendor/type"));
}

#[test]
fn absent_msr_store_still_yields_cpuid_facts() {
    let def = small_definition();
    let facts: Vec<GenericFact<FactValue>> = collect_facts(&def, &TableSource {}, &EmptyMSR {});
    assert!(!facts.is_empty());
    assert!(facts.iter().all(|f| f.get_name().starts_with("cpuid/")));
    assert!(!facts.iter().any(|f| f.get_name().starts_with("msr/")));
}

#[test]
fn present_msr_store_adds_msr_facts() {
    let def = small_definition();
    let facts: Vec<GenericFact<FactValue>> = collect_facts(&def, &TableSource {}, &OneMsrStore {});
    let names: Vec<&str> = facts.iter().map(|f| f.get_name()).collect();
    assert!(names.contains(&"msr/platform_info/ratio"));
    let ratio = facts.iter().find(|f| f.get_name() == "msr/platform_info/ratio").unwrap();
    assert_eq!(ratio.value, FactValue::Num(0x28));
}

#[test]
fn unreadable_msr_is_skipped_and_others_continue() {
    let mut msrs = small_definition().msrs;
    msrs.insert(
        0,
        MSRDesc { name: "missing".to_string(), address: 0x10, fields: vec![] },
    );
    let facts: Vec<GenericFact<FactValue>> = collect_msr_facts(&msrs, &OneMsrStore {});
    assert_eq!(facts.len(), 1);
    assert_eq!(facts[0].get_name(), "msr/platform_info/ratio");
}

#[test]
fn union_merges_by_leaf_index_preferring_the_added_schema() {
    let mut base = small_definition();
    // The second schema overrides leaf 1 and adds leaf 2.
    let b = Definition {
        cpuids: vec![
            (
                1,
                LeafDesc::new(
                    "better_features".to_string(),
                    LeafType::String(cpuinfo::layout::StringLeaf {}),
                ),
            ),
            (2, LeafDesc::new("extra".to_string(), LeafType::Start(StartLeaf {}))),
        ],
        msrs: vec![MSRDesc { name: "extra_msr".to_string(), address: 0x1B, fields: vec![] }],
    };
    base.union(b);
    let keys: Vec<u32> = base.cpuids.iter().map(|e| e.0).collect();
    assert_eq!(keys, vec![0, 1, 2]);
    assert_eq!(base.cpuids[1].1.name().as_str(), "better_features");
    assert_eq!(base.msrs.len(), 2);
    assert_eq!(base.msrs[1].name, "extra_msr");
}

#[test]
fn empty_store_serves_nothing() {
    let store = EmptyMSR {};
    assert!(store.is_empty());
    let desc = MSRDesc { name: "anything".to_string(), address: 0xCE, fields: vec![] };
    assert!(matches!(store.get_value(&desc), Err(Error::NotAvailible(_))));
}

#[test]
fn error_messages_name_their_cause() {
    let absent = Error::NotAvailible("/dev/cpu/0/msr".to_string());
    assert_eq!(absent.message(), "MSR Feature not availible file: /dev/cpu/0/msr");
    let io = Error::IOError("read failed".to_string());
    assert_eq!(io.message(), "IOError: read failed");
    let out_of_range = cpuinfo::CpuidError::LeafOutOfRange(0x40000000, cpuinfo::CpuidFunction::Basic);
    assert_eq!(out_of_range.message(), "Leaf 0x40000000 not present in function Basic");
    assert_eq!(cpuinfo::CpuidError::NoCPUID.message(), "No CPUID Present on hardware");
}

#[test]
fn msr_value_renders_description_and_fields() {
    let desc = MSRDesc {
        name: "platform_info".to_string(),
        address: 0xCE,
        fields: vec![Field::Int(Int { name: "ratio".to_string(), bounds: 8..16 })],
    };
    assert_eq!(desc.render(), "platform_info: 0xce");
    let value = MSRValue { desc: &desc, value: 0x2800 };
    assert_eq!(value.render(), "platform_info: 0xce = 0x2800\n  ratio =         28\n");
}
