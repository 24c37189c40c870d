use cpuinfo::facts::{diff, FactSet, FactValue, GenericFact};
use std::collections::HashSet;

type FactTest = GenericFact<u16>;

fn make_set_a() -> Vec<GenericFact<u16>> {
    vec![
        GenericFact::new("test/a".to_string(), 0),
        GenericFact::new("test/b".to_string(), 1),
        GenericFact::new("test/c".to_string(), 3),
        GenericFact::new("test/d".to_string(), 3),
        GenericFact::new("test/e".to_string(), 3),
    ]
}

fn make_set_b() -> Vec<GenericFact<u16>> {
    vec![
        GenericFact::new("test/c".to_string(), 3),
        GenericFact::new("test/d".to_string(), 3),
        GenericFact::new("test/e".to_string(), 2),
        GenericFact::new("test/f".to_string(), 4),
        GenericFact::new("test/g".to_string(), 4),
    ]
}

#[test]
fn test_added() {
    let a: FactSet<u16> = FactSet::from_facts(make_set_a());
    let b: FactSet<u16> = FactSet::from_facts(make_set_b());
    let result: HashSet<&FactTest> = a.added_facts(&b).into_iter().collect();
    let f = GenericFact::new("test/f".to_string(), 4u16);
    let g = GenericFact::new("test/g".to_string(), 4u16);
    assert_eq!(result, HashSet::from([&f, &g]));
}

#[test]
fn test_removed() {
    let a: FactSet<u16> = FactSet::from_facts(make_set_a());
    let b: FactSet<u16> = FactSet::from_facts(make_set_b());
    let result: HashSet<&FactTest> = a.removed_facts(&b).into_iter().collect();
    let fa = GenericFact::new("test/a".to_string(), 0u16);
    let fb = GenericFact::new("test/b".to_string(), 1u16);
    assert_eq!(result, HashSet::from([&fa, &fb]));
}

#[test]
fn test_changed() {
    let a: FactSet<u16> = FactSet::from_facts(make_set_a());
    let b: FactSet<u16> = FactSet::from_facts(make_set_b());
    let result: HashSet<(&FactTest, &FactTest)> = a.changed_facts(&b).into_iter().collect();
    let before = GenericFact::new("test/e".to_string(), 3u16);
    let after = GenericFact::new("test/e".to_string(), 2u16);
    assert_eq!(result, HashSet::from([(&before, &after)]));
}

#[test]
fn diff_of_identical_collections_is_empty() {
    let a: FactSet<u16> = FactSet::from_facts(make_set_a());
    let b: FactSet<u16> = FactSet::from_facts(make_set_a());
    let report = diff(&a, &b);
    assert!(report.is_empty());
    assert!(report.added.is_empty());
    assert!(report.removed.is_empty());
    assert!(report.changed.is_empty());
}

#[test]
fn diff_of_reordered_collections_is_empty() {
    let a: FactSet<u16> = FactSet::from_facts(make_set_a());
    let reordered = vec![
        GenericFact::new("test/e".to_string(), 3),
        GenericFact::new("test/c".to_string(), 3),
        GenericFact::new("test/a".to_string(), 0),
        GenericFact::new("test/d".to_string(), 3),
        GenericFact::new("test/b".to_string(), 1),
    ];
    let b: FactSet<u16> = FactSet::from_facts(reordered);
    assert!(diff(&a, &b).is_empty());
}

#[test]
fn diff_reports_all_three_kinds() {
    let a: FactSet<u16> = FactSet::from_facts(make_set_a());
    let b: FactSet<u16> = FactSet::from_facts(make_set_b());
    let report = diff(&a, &b);
    assert!(!report.is_empty());
    assert_eq!(report.added.len(), 2);
    assert_eq!(report.removed.len(), 2);
    assert_eq!(report.changed.len(), 1);
    assert_eq!(report.changed[0].0.value, 3);
    assert_eq!(report.changed[0].1.value, 2);
}

#[test]
fn later_duplicate_name_overrides_earlier_fact() {
    let facts = vec![
        GenericFact::new("dup".to_string(), 1u16),
        GenericFact::new("other".to_string(), 7u16),
        GenericFact::new("dup".to_string(), 2u16),
    ];
    let set = FactSet::from_facts(facts);
    assert_eq!(set.facts.len(), 2);
    let found = set.get_by_name(&"dup".to_string()).unwrap();
    assert_eq!(found.value, 2);
    assert!(set.contains_name(&"other".to_string()));
    assert!(!set.contains_name(&"absent".to_string()));
}

#[test]
fn add_path_prefixes_one_segment() {
    let mut fact = GenericFact::new("sse2".to_string(), FactValue::Bool(true));
    fact.add_path("edx");
    fact.add_path("features");
    fact.add_path("cpuid");
    assert_eq!(fact.get_name(), "cpuid/features/edx/sse2");
    assert_eq!(fact.value, FactValue::Bool(true));
}

#[test]
fn fact_value_converts_from_plain_values() {
    let b = GenericFact::new("flag".to_string(), true);
    let converted: GenericFact<FactValue> = GenericFact::from(b);
    assert_eq!(converted.value, FactValue::Bool(true));
    let n = GenericFact::new("num".to_string(), 7u32);
    let converted: GenericFact<FactValue> = GenericFact::from(n);
    assert_eq!(converted.value, FactValue::Num(7));
    let s = GenericFact::new("text".to_string(), "abc".to_string());
    let converted: GenericFact<FactValue> = GenericFact::from(s);
    assert_eq!(converted.value, FactValue::Text("abc".to_string()));
}
