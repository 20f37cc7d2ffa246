use vstd::prelude::*;

verus! {

/// Hypervisor versions are reported as one number:
/// `major * 1_000_000 + minor * 1_000 + release`.
pub open spec fn version_number(major: int, minor: int, release: int) -> int {
    major * 1_000_000 + minor * 1000 + release
}

/// A hypervisor version split into its three parts.
#[derive(Debug, Clone, Copy, PartialEq, Eq)]
pub struct HypervisorVersion {
    pub major: u32,
    pub minor: u32,
    pub release: u32,
}

/// Splits the number that libvirt reports as the hypervisor version into
/// major, minor and release.
pub fn split_hypervisor_version(version: u32) -> (v: HypervisorVersion)
    ensures
        v.major == version / 1_000_000,
        v.minor == (version % 1_000_000) / 1000,
        v.release == version % 1000,
        v.minor < 1000,
        v.release < 1000,
        version_number(v.major as int, v.minor as int, v.release as int) == version,
{
    let major = version / 1_000_000;
    let rest = version % 1_000_000;
    let minor = rest / 1000;
    let release = rest % 1000;
    proof {
        let x = version as int;
        assert(x == 1_000_000 * (x / 1_000_000) + x % 1_000_000) by (nonlinear_arith);
        let r = x % 1_000_000;
        assert(r == 1000 * (r / 1000) + r % 1000) by (nonlinear_arith);
        assert(0 <= r < 1_000_000);
        assert(r / 1000 < 1000) by (nonlinear_arith)
            requires
                0 <= r < 1_000_000,
        ;
        assert(x % 1000 == r % 1000) by {
            vstd::arithmetic::div_mod::lemma_mod_mod(x, 1000, 1000);
        }
    }
    HypervisorVersion { major, minor, release }
}

/// The hypervisor's type together with its version.
#[derive(Debug, Clone, PartialEq, Eq)]
pub struct HypervisorInfo {
    pub hv_type: String,
    pub version: HypervisorVersion,
}

/// The queries about the hypervisor, in the order they are made.
#[derive(Debug, Clone, Copy, PartialEq, Eq)]
pub enum HypervisorQuery {
    /// Ask for the hypervisor's type.
    Type,
    /// Ask for the hypervisor's version.
    Version,
    /// Ask nothing more; report.
    Report,
}

/// The query that follows `query`, which succeeded or failed: the version
/// is asked for only once the type is known, and a failure ends the asking.
pub fn hypervisor_query_after(query: HypervisorQuery, succeeded: bool) -> (next: HypervisorQuery)
    ensures
        next == (match query {
            HypervisorQuery::Type => if succeeded { HypervisorQuery::Version } else { HypervisorQuery::Report },
            _ => HypervisorQuery::Report,
        }),
{
    match query {
        HypervisorQuery::Type => if succeeded {
            HypervisorQuery::Version
        } else {
            HypervisorQuery::Report
        },
        _ => HypervisorQuery::Report,
    }
}

/// The queries about the domains, in the order they are made.
#[derive(Debug, Clone, Copy, PartialEq, Eq)]
pub enum DomainQuery {
    /// Count the active domains.
    CountActive,
    /// Count the inactive domains.
    CountInactive,
    /// List all domains, active and inactive, in one call.
    ListAll,
    /// Ask nothing more; report.
    Report,
}

/// The query that follows `query`, which succeeded or failed: the inactive
/// domains are counted only once the active ones are, the domains are listed
/// only once both counts are known, and a failed count ends the asking.
pub fn domain_query_after(query: DomainQuery, succeeded: bool) -> (next: DomainQuery)
    ensures
        next == (match query {
            DomainQuery::CountActive => if succeeded { DomainQuery::CountInactive } else { DomainQuery::Report },
            DomainQuery::CountInactive => if succeeded { DomainQuery::ListAll } else { DomainQuery::Report },
            _ => DomainQuery::Report,
        }),
{
    match query {
        DomainQuery::CountActive => if succeeded {
            DomainQuery::CountInactive
        } else {
            DomainQuery::Report
        },
        DomainQuery::CountInactive => if succeeded {
            DomainQuery::ListAll
        } else {
            DomainQuery::Report
        },
        _ => DomainQuery::Report,
    }
}

/// The hypervisor information from the connection's answers to "what type"
/// and "what version" (`None` where the query failed; the version is only
/// asked for when the type was known). There is information exactly when
/// both answers are there.
pub fn hypervisor_info(hv_type: Option<String>, hv_version: Option<u32>) -> (r: Option<HypervisorInfo>)
    ensures
        r is Some <==> (hv_type is Some && hv_version is Some),
        r matches Some(info) ==> {
            &&& info.hv_type@ == hv_type->0@
            &&& version_number(info.version.major as int, info.version.minor as int, info.version.release as int)
                == hv_version->0
            &&& info.version.minor < 1000
            &&& info.version.release < 1000
        },
{
    match hv_type {
        Some(t) => match hv_version {
            Some(v) => Some(HypervisorInfo { hv_type: t, version: split_hypervisor_version(v) }),
            None => None,
        },
        None => None,
    }
}

/// The basic state of a domain as libvirt reports it.
#[derive(Debug, Clone, Copy, PartialEq, Eq)]
pub struct DomainInfo {
    /// The running state, one of libvirt's domain states.
    pub state: u32,
    /// The maximum memory in KiB allowed.
    pub max_mem: u64,
    /// The memory in KiB used by the domain.
    pub memory: u64,
    /// The number of virtual CPUs of the domain.
    pub nr_virt_cpu: u32,
    /// The CPU time used, in nanoseconds.
    pub cpu_time: u64,
}

/// The memory tuning of a domain as libvirt reports it; a limit may be unset.
#[derive(Debug, Clone, Copy, PartialEq, Eq)]
pub struct MemoryParameters {
    pub hard_limit: Option<u64>,
    pub soft_limit: Option<u64>,
    pub min_guarantee: Option<u64>,
    pub swap_hard_limit: Option<u64>,
}

/// The NUMA tuning of a domain as libvirt reports it.
#[derive(Debug, Clone, PartialEq, Eq)]
pub struct NumaParameters {
    pub node_set: Option<String>,
    pub mode: Option<i32>,
}

/// The memory tuning of a domain as the service reports it: an unset limit
/// reads 0.
#[derive(Debug, Clone, Copy, PartialEq, Eq)]
pub struct MemoryTune {
    pub hard_limit: u64,
    pub soft_limit: u64,
    pub min_guarantee: u64,
    pub swap_hard_limit: u64,
}

/// The NUMA tuning of a domain as the service reports it: an unset node
/// set reads as the empty text, an unset mode as 0.
#[derive(Debug, Clone, PartialEq, Eq)]
pub struct NumaTune {
    pub node_set: String,
    pub mode: i32,
}

/// What the service reports of one domain.
#[derive(Debug, Clone, PartialEq, Eq)]
pub struct DomainReport {
    pub id: u32,
    pub name: String,
    pub active: bool,
    pub info: Option<DomainInfo>,
    pub memory_tune: Option<MemoryTune>,
    pub numa: Option<NumaTune>,
}

/// The name reported for a domain whose name cannot be read.
pub open spec fn no_name_text() -> Seq<char> {
    "no-name"@
}

/// `value`, or `default` where it is unset.
pub open spec fn or_default<T>(value: Option<T>, default: T) -> T {
    match value {
        Some(v) => v,
        None => default,
    }
}

fn limit_or_zero(limit: Option<u64>) -> (r: u64)
    ensures
        r == or_default(limit, 0u64),
{
    match limit {
        Some(v) => v,
        None => 0,
    }
}

/// The memory tuning with unset limits read as 0.
pub fn memory_tune(params: MemoryParameters) -> (t: MemoryTune)
    ensures
        t.hard_limit == or_default(params.hard_limit, 0u64),
        t.soft_limit == or_default(params.soft_limit, 0u64),
        t.min_guarantee == or_default(params.min_guarantee, 0u64),
        t.swap_hard_limit == or_default(params.swap_hard_limit, 0u64),
{
    MemoryTune {
        hard_limit: limit_or_zero(params.hard_limit),
        soft_limit: limit_or_zero(params.soft_limit),
        min_guarantee: limit_or_zero(params.min_guarantee),
        swap_hard_limit: limit_or_zero(params.swap_hard_limit),
    }
}

/// The NUMA tuning with an unset node set read as "" and an unset mode as 0.
pub fn numa_tune(params: NumaParameters) -> (t: NumaTune)
    ensures
        t.node_set@ == (match params.node_set {
            Some(s) => s@,
            None => Seq::<char>::empty(),
        }),
        t.mode == or_default(params.mode, 0i32),
{
    let node_set = match params.node_set {
        Some(s) => s,
        None => String::new(),
    };
    let mode = match params.mode {
        Some(m) => m,
        None => 0,
    };
    NumaTune { node_set, mode }
}

/// The report of one domain from what libvirt answered about it (`None`
/// where a query failed): an unknown id reads 0, an unknown name "no-name",
/// an unknown activity `false`; the info, memory and NUMA parts are there
/// exactly where their queries succeeded.
pub fn describe_domain(
    id: Option<u32>,
    name: Option<String>,
    active: Option<bool>,
    info: Option<DomainInfo>,
    memory: Option<MemoryParameters>,
    numa: Option<NumaParameters>,
) -> (r: DomainReport)
    ensures
        r.id == or_default(id, 0u32),
        r.name@ == (match name {
            Some(n) => n@,
            None => no_name_text(),
        }),
        r.active == or_default(active, false),
        r.info == info,
        r.memory_tune is Some <==> memory is Some,
        memory matches Some(m) ==> r.memory_tune == Some(
            MemoryTune {
                hard_limit: or_default(m.hard_limit, 0u64),
                soft_limit: or_default(m.soft_limit, 0u64),
                min_guarantee: or_default(m.min_guarantee, 0u64),
                swap_hard_limit: or_default(m.swap_hard_limit, 0u64),
            },
        ),
        r.numa is Some <==> numa is Some,
        numa matches Some(p) ==> {
            &&& r.numa->0.node_set@ == (match p.node_set {
                Some(s) => s@,
                None => Seq::<char>::empty(),
            })
            &&& r.numa->0.mode == or_default(p.mode, 0i32)
        },
{
    proof {
        reveal_strlit("no-name");
    }
    let id = match id {
        Some(v) => v,
        None => 0,
    };
    let name = match name {
        Some(n) => n,
        None => "no-name".to_owned(),
    };
    let active = match active {
        Some(a) => a,
        None => false,
    };
    let memory_tune = match memory {
        Some(m) => Some(memory_tune(m)),
        None => None,
    };
    let numa = match numa {
        Some(p) => Some(numa_tune(p)),
        None => None,
    };
    DomainReport { id, name, active, info, memory_tune, numa }
}

/// What the service reports of all domains.
#[derive(Debug, Clone, PartialEq, Eq)]
pub struct DomainOverview {
    pub active_count: u32,
    pub inactive_count: u32,
    pub domains: Vec<DomainReport>,
}

/// The overview from the counts of active and of inactive domains and the
/// reports of the listed domains (`None` where a query failed). There is an
/// overview exactly when both counts are known; a failed listing leaves it
/// without domains.
pub fn domain_overview(
    active_count: Option<u32>,
    inactive_count: Option<u32>,
    domains: Option<Vec<DomainReport>>,
) -> (r: Option<DomainOverview>)
    ensures
        r is Some <==> (active_count is Some && inactive_count is Some),
        r matches Some(o) ==> {
            &&& o.active_count == active_count->0
            &&& o.inactive_count == inactive_count->0
            &&& o.domains@ == (match domains {
                Some(d) => d@,
                None => Seq::<DomainReport>::empty(),
            })
        },
{
    match (active_count, inactive_count) {
        (Some(a), Some(i)) => {
            let listed = match domains {
                Some(d) => d,
                None => Vec::new(),
            };
            Some(DomainOverview { active_count: a, inactive_count: i, domains: listed })
        },
        _ => None,
    }
}

} // verus!
