//! Capabilities that eBPF loading and process-metadata retrieval need.
use vstd::prelude::*;
use vstd::string::*;
use crate::error::InterposerError;

verus! {

/// Status of all capabilities required for eBPF and process metadata
#[derive(Debug, Clone)]
pub struct CapabilityStatus {
    // eBPF operation capabilities
    pub has_bpf: bool,
    pub has_sys_admin: bool,
    pub has_net_admin: bool,
    // Process metadata capabilities
    pub has_sys_ptrace: bool,
    pub has_dac_read_search: bool,
}

/// capctl's number of CAP_DAC_READ_SEARCH.
pub const CAP_DAC_READ_SEARCH: u8 = 2;
/// capctl's number of CAP_NET_ADMIN.
pub const CAP_NET_ADMIN: u8 = 12;
/// capctl's number of CAP_SYS_PTRACE.
pub const CAP_SYS_PTRACE: u8 = 19;
/// capctl's number of CAP_SYS_ADMIN.
pub const CAP_SYS_ADMIN: u8 = 21;
/// capctl's number of CAP_BPF.
pub const CAP_BPF: u8 = 39;

/// `capctl::caps::CapState::get_current`, then the numbers of the capabilities in the effective
/// set (`CapSet::iter`, each `Cap` as its `u8` discriminant); an error is rendered as its text.
/// What comes back depends on how the process was started, so nothing is claimed of it.
#[verifier::external_body]
fn current_effective_caps() -> (r: std::result::Result<Vec<u8>, String>) {
    match capctl::caps::CapState::get_current() {
        Ok(state) => Ok(state.effective.iter().map(|c| c as u8).collect()),
        Err(e) => Err(format!("{}", e)),
    }
}

/// The status that an effective capability set, given by the capabilities' numbers, reports.
pub open spec fn status_of(effective: Seq<u8>) -> CapabilityStatus {
    CapabilityStatus {
        has_bpf: effective.contains(CAP_BPF),
        has_sys_admin: effective.contains(CAP_SYS_ADMIN),
        has_net_admin: effective.contains(CAP_NET_ADMIN),
        has_sys_ptrace: effective.contains(CAP_SYS_PTRACE),
        has_dac_read_search: effective.contains(CAP_DAC_READ_SEARCH),
    }
}

fn contains_cap(effective: &Vec<u8>, cap: u8) -> (r: bool)
    ensures
        r == effective@.contains(cap),
{
    let mut i: usize = 0;
    while i < effective.len()
        invariant
            i <= effective@.len(),
            forall|j: int| 0 <= j < i ==> effective@[j] != cap,
        decreases effective@.len() - i,
    {
        if effective[i] == cap {
            return true;
        }
        i = i + 1;
    }
    false
}

/// The status of the capabilities in an effective set, given by their numbers: each of the
/// five is reported as present or missing.
pub fn status_from_effective(effective: &Vec<u8>) -> (r: CapabilityStatus)
    ensures
        r == status_of(effective@),
{
    evaluate_capabilities(
        contains_cap(effective, CAP_BPF),
        contains_cap(effective, CAP_SYS_ADMIN),
        contains_cap(effective, CAP_NET_ADMIN),
        contains_cap(effective, CAP_SYS_PTRACE),
        contains_cap(effective, CAP_DAC_READ_SEARCH),
    )
}

/// The outcome of the capability check for what reading the process's capabilities gave: the
/// status of the effective set, or, when they could not be read, an error with the reason.
pub open spec fn capability_check_outcome(
    read: std::result::Result<Seq<u8>, Seq<char>>,
    r: std::result::Result<CapabilityStatus, InterposerError>,
) -> bool {
    match read {
        Ok(v) => r == Ok::<CapabilityStatus, InterposerError>(status_of(v)),
        Err(m) => r matches Err(InterposerError::Ebpf(t)) && t@ == "Failed to get current capabilities: "@ + m,
    }
}

/// What reading the capabilities gave, by its text.
pub open spec fn read_view(read: std::result::Result<Vec<u8>, String>) -> std::result::Result<Seq<u8>, Seq<char>> {
    match read {
        Ok(v) => Ok(v@),
        Err(m) => Err(m@),
    }
}

/// The outcome of the capability check for what reading the process's capabilities gave
/// (see `capability_check_outcome`): a readable state always gives `Ok`, missing capabilities
/// included.
pub fn capability_status_from(read: std::result::Result<Vec<u8>, String>) -> (r: std::result::Result<CapabilityStatus, InterposerError>)
    ensures
        capability_check_outcome(read_view(read), r),
{
    match read {
        Ok(v) => Ok(status_from_effective(&v)),
        Err(msg) => {
            let mut m = String::from_str("Failed to get current capabilities: ");
            m.append(msg.as_str());
            Err(InterposerError::Ebpf(m))
        },
    }
}

pub open spec fn missing_bpf_message() -> Seq<char> {
    "Missing required eBPF capability: CAP_BPF or CAP_SYS_ADMIN. Run with: sudo setcap 'cap_bpf,cap_sys_admin,cap_net_admin,cap_sys_ptrace,cap_dac_read_search=+ep' /path/to/mefirst"@
}

pub open spec fn missing_net_admin_message() -> Seq<char> {
    "Missing required capability: CAP_NET_ADMIN (required for attaching cgroup socket programs). Run with: sudo setcap 'cap_bpf,cap_sys_admin,cap_net_admin,cap_sys_ptrace,cap_dac_read_search=+ep' /path/to/mefirst"@
}

/// The status of the five effective capabilities: each is reported as it is; none is
/// required for the check itself to succeed.
pub fn evaluate_capabilities(
    has_bpf: bool,
    has_sys_admin: bool,
    has_net_admin: bool,
    has_sys_ptrace: bool,
    has_dac_read_search: bool,
) -> (r: CapabilityStatus)
    ensures
        r == (CapabilityStatus { has_bpf, has_sys_admin, has_net_admin, has_sys_ptrace, has_dac_read_search }),
{
    CapabilityStatus { has_bpf, has_sys_admin, has_net_admin, has_sys_ptrace, has_dac_read_search }
}

/// Why the redirection cannot be set up with the capabilities `s` reports, if it cannot:
/// CAP_BPF or CAP_SYS_ADMIN is needed to load programs, and CAP_NET_ADMIN to attach them; the
/// two process-metadata capabilities are never required.
pub open spec fn ebpf_requirement(s: CapabilityStatus) -> Option<Seq<char>> {
    if !s.has_bpf && !s.has_sys_admin {
        Some(missing_bpf_message())
    } else if !s.has_net_admin {
        Some(missing_net_admin_message())
    } else {
        None
    }
}

impl CapabilityStatus {
    /// The error for setting up the eBPF redirection with these capabilities, if they do not
    /// suffice (see `ebpf_requirement`).
    pub fn ebpf_requirement_error(&self) -> (r: Option<InterposerError>)
        ensures
            match (r, ebpf_requirement(*self)) {
                (None, None) => true,
                (Some(InterposerError::EbpfNotSupported(m)), Some(t)) => m@ == t,
                _ => false,
            },
    {
        if !self.has_bpf && !self.has_sys_admin {
            return Some(
                InterposerError::EbpfNotSupported(
                    String::from_str(
                        "Missing required eBPF capability: CAP_BPF or CAP_SYS_ADMIN. Run with: sudo setcap 'cap_bpf,cap_sys_admin,cap_net_admin,cap_sys_ptrace,cap_dac_read_search=+ep' /path/to/mefirst",
                    ),
                ),
            );
        }
        if !self.has_net_admin {
            return Some(
                InterposerError::EbpfNotSupported(
                    String::from_str(
                        "Missing required capability: CAP_NET_ADMIN (required for attaching cgroup socket programs). Run with: sudo setcap 'cap_bpf,cap_sys_admin,cap_net_admin,cap_sys_ptrace,cap_dac_read_search=+ep' /path/to/mefirst",
                    ),
                ),
            );
        }
        None
    }
}

/// Check all capabilities that eBPF and process metadata use. Missing capabilities are
/// reported in the status, never as an error; the check fails only when the process's
/// capabilities cannot be read. Which capabilities the process has depends on how it was
/// started; whatever the read gave, the outcome is the one `capability_check_outcome` names.
pub fn check_all_capabilities() -> (r: std::result::Result<CapabilityStatus, InterposerError>)
    ensures
        exists|read: std::result::Result<Seq<u8>, Seq<char>>| #[trigger] capability_check_outcome(read, r),
        r matches Err(e) ==> e matches InterposerError::Ebpf(m) && "Failed to get current capabilities: "@.is_prefix_of(
            m@,
        ),
{
    let read = current_effective_caps();
    let r = capability_status_from(read);
    proof {
        assert(capability_check_outcome(read_view(read), r));
        if r is Err {
            let m = r->Err_0->Ebpf_0;
            let p = "Failed to get current capabilities: "@;
            assert(m@.subrange(0, p.len() as int) =~= p);
        }
    }
    r
}


/// The eBPF redirection can be set up exactly when the effective set holds CAP_BPF or
/// CAP_SYS_ADMIN (either one loads programs) and CAP_NET_ADMIN (which attaches them); the
/// other two capabilities play no part.
pub proof fn lemma_ebpf_needs_load_and_attach(effective: Seq<u8>)
    ensures
        ebpf_requirement(status_of(effective)) is None <==> ((effective.contains(CAP_BPF)
            || effective.contains(CAP_SYS_ADMIN)) && effective.contains(CAP_NET_ADMIN)),
        !(effective.contains(CAP_BPF) || effective.contains(CAP_SYS_ADMIN)) ==> ebpf_requirement(
            status_of(effective),
        ) == Some(missing_bpf_message()),
{
}

} // verus!
