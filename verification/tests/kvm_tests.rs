use cpuinfo::kvm::{lookup_cpuid, lookup_msr, CpuidEntry, MsrEntry};
use cpuinfo::CpuidResult;

fn quad(eax: u32) -> CpuidResult {
    CpuidResult { eax, ebx: 0, ecx: 0, edx: 0 }
}

#[test]
fn cpuid_lookup_honours_the_significant_index_flag() {
    let entries = vec![
        CpuidEntry { function: 1, index: 7, significant_index: false, result: quad(10) },
        CpuidEntry { function: 2, index: 1, significant_index: true, result: quad(20) },
    ];
    // An insignificant index answers sub-leaf zero whatever it says.
    assert_eq!(lookup_cpuid(&entries, 1, 0), Some(quad(10)));
    assert_eq!(lookup_cpuid(&entries, 1, 7), Some(quad(10)));
    assert_eq!(lookup_cpuid(&entries, 1, 1), None);
    // A significant index answers exactly its own sub-leaf.
    assert_eq!(lookup_cpuid(&entries, 2, 0), None);
    assert_eq!(lookup_cpuid(&entries, 2, 1), Some(quad(20)));
    assert_eq!(lookup_cpuid(&entries, 3, 0), None);
}

#[test]
fn cpuid_lookup_takes_the_first_matching_entry() {
    let entries = vec![
        CpuidEntry { function: 1, index: 0, significant_index: true, result: quad(1) },
        CpuidEntry { function: 1, index: 0, significant_index: true, result: quad(2) },
    ];
    assert_eq!(lookup_cpuid(&entries, 1, 0), Some(quad(1)));
}

#[test]
fn msr_lookup_finds_an_address_or_nothing() {
    let entries = vec![
        MsrEntry { index: 0xCE, data: 0x2800 },
        MsrEntry { index: 0x1B, data: 7 },
        MsrEntry { index: 0xCE, data: 9 },
    ];
    assert_eq!(lookup_msr(&entries, 0xCE), Some(0x2800));
    assert_eq!(lookup_msr(&entries, 0x1B), Some(7));
    assert_eq!(lookup_msr(&entries, 0x10), None);
}
