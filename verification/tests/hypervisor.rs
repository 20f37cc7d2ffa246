use klyhostservice::hypervisor::{domain_query_after, hypervisor_query_after, DomainQuery, HypervisorQuery};
use klyhostservice::hypervisor::{
    describe_domain, domain_overview, hypervisor_info, memory_tune, numa_tune,
    split_hypervisor_version, DomainInfo, HypervisorVersion, MemoryParameters, NumaParameters,
};

#[test]
fn version_splits_into_major_minor_release() {
    let v = split_hypervisor_version(4_002_001);
    assert_eq!(v, HypervisorVersion { major: 4, minor: 2, release: 1 });
}

#[test]
fn version_of_qemu_style_number() {
    let v = split_hypervisor_version(8_002_000);
    assert_eq!((v.major, v.minor, v.release), (8, 2, 0));
}

#[test]
fn version_zero() {
    let v = split_hypervisor_version(0);
    assert_eq!((v.major, v.minor, v.release), (0, 0, 0));
}

#[test]
fn version_largest_number() {
    let v = split_hypervisor_version(u32::MAX);
    assert_eq!((v.major, v.minor, v.release), (4294, 967, 295));
}

#[test]
fn version_recombines() {
    for n in [0u32, 1, 999, 1000, 999_999, 1_000_000, 123_456_789, u32::MAX] {
        let v = split_hypervisor_version(n);
        let back = v.major as u64 * 1_000_000 + v.minor as u64 * 1000 + v.release as u64;
        assert_eq!(back, n as u64);
        assert!(v.minor < 1000 && v.release < 1000);
    }
}

#[test]
fn hypervisor_info_needs_type_and_version() {
    let info = hypervisor_info(Some("QEMU".to_string()), Some(6_002_000)).unwrap();
    assert_eq!(info.hv_type, "QEMU");
    assert_eq!(info.version, HypervisorVersion { major: 6, minor: 2, release: 0 });
    assert!(hypervisor_info(None, Some(6_002_000)).is_none());
    assert!(hypervisor_info(Some("QEMU".to_string()), None).is_none());
    assert!(hypervisor_info(None, None).is_none());
}

#[test]
fn domain_defaults_when_queries_fail() {
    let r = describe_domain(None, None, None, None, None, None);
    assert_eq!(r.id, 0);
    assert_eq!(r.name, "no-name");
    assert!(!r.active);
    assert!(r.info.is_none());
    assert!(r.memory_tune.is_none());
    assert!(r.numa.is_none());
}

#[test]
fn domain_report_keeps_known_values() {
    let info = DomainInfo { state: 1, max_mem: 2048, memory: 1024, nr_virt_cpu: 2, cpu_time: 77 };
    let mem = MemoryParameters {
        hard_limit: Some(4096),
        soft_limit: None,
        min_guarantee: Some(10),
        swap_hard_limit: None,
    };
    let numa = NumaParameters { node_set: Some("0-1".to_string()), mode: None };
    let r = describe_domain(Some(7), Some("vm1".to_string()), Some(true), Some(info), Some(mem), Some(numa));
    assert_eq!(r.id, 7);
    assert_eq!(r.name, "vm1");
    assert!(r.active);
    assert_eq!(r.info, Some(info));
    let t = r.memory_tune.unwrap();
    assert_eq!((t.hard_limit, t.soft_limit, t.min_guarantee, t.swap_hard_limit), (4096, 0, 10, 0));
    let n = r.numa.unwrap();
    assert_eq!(n.node_set, "0-1");
    assert_eq!(n.mode, 0);
}

#[test]
fn memory_tune_reads_unset_as_zero() {
    let t = memory_tune(MemoryParameters {
        hard_limit: None,
        soft_limit: Some(5),
        min_guarantee: None,
        swap_hard_limit: Some(9),
    });
    assert_eq!((t.hard_limit, t.soft_limit, t.min_guarantee, t.swap_hard_limit), (0, 5, 0, 9));
}

#[test]
fn numa_tune_reads_unset_as_empty() {
    let t = numa_tune(NumaParameters { node_set: None, mode: Some(2) });
    assert_eq!(t.node_set, "");
    assert_eq!(t.mode, 2);
}

#[test]
fn overview_needs_both_counts() {
    assert!(domain_overview(None, Some(1), None).is_none());
    assert!(domain_overview(Some(1), None, None).is_none());
    let o = domain_overview(Some(2), Some(3), None).unwrap();
    assert_eq!((o.active_count, o.inactive_count), (2, 3));
    assert!(o.domains.is_empty());
    let d = describe_domain(Some(1), Some("a".to_string()), Some(true), None, None, None);
    let o = domain_overview(Some(1), Some(0), Some(vec![d.clone()])).unwrap();
    assert_eq!(o.domains, vec![d]);
}

#[test]
fn hypervisor_queries_stop_at_first_failure() {
    assert_eq!(hypervisor_query_after(HypervisorQuery::Type, true), HypervisorQuery::Version);
    assert_eq!(hypervisor_query_after(HypervisorQuery::Type, false), HypervisorQuery::Report);
    assert_eq!(hypervisor_query_after(HypervisorQuery::Version, true), HypervisorQuery::Report);
    assert_eq!(hypervisor_query_after(HypervisorQuery::Version, false), HypervisorQuery::Report);
}

#[test]
fn domain_queries_in_order() {
    assert_eq!(domain_query_after(DomainQuery::CountActive, true), DomainQuery::CountInactive);
    assert_eq!(domain_query_after(DomainQuery::CountActive, false), DomainQuery::Report);
    assert_eq!(domain_query_after(DomainQuery::CountInactive, true), DomainQuery::ListAll);
    assert_eq!(domain_query_after(DomainQuery::CountInactive, false), DomainQuery::Report);
    assert_eq!(domain_query_after(DomainQuery::ListAll, true), DomainQuery::Report);
    assert_eq!(domain_query_after(DomainQuery::ListAll, false), DomainQuery::Report);
}
