use mefirst::capability::{
    capability_status_from, check_all_capabilities, evaluate_capabilities, status_from_effective, CapabilityStatus,
};
use mefirst::error::InterposerError;

#[test]
fn test_capability_status_structure() {
    // Test that we can construct a CapabilityStatus manually
    let status = CapabilityStatus {
        has_bpf: true,
        has_sys_admin: true,
        has_net_admin: true,
        has_sys_ptrace: false,
        has_dac_read_search: false,
    };

    assert_eq!(status.has_bpf, true);
    assert_eq!(status.has_sys_admin, true);
    assert_eq!(status.has_net_admin, true);
    assert_eq!(status.has_sys_ptrace, false);
    assert_eq!(status.has_dac_read_search, false);
}

#[test]
fn test_capability_check_returns_status() {
    // This test verifies that capability checking returns a valid status
    // The actual capabilities depend on the test environment
    let result = check_all_capabilities();

    let status = result.unwrap();
    // Verify the structure is valid (booleans can be true or false)
    assert!(status.has_bpf == true || status.has_bpf == false);
    assert!(status.has_sys_admin == true || status.has_sys_admin == false);
    assert!(status.has_net_admin == true || status.has_net_admin == false);
    assert!(status.has_sys_ptrace == true || status.has_sys_ptrace == false);
    assert!(status.has_dac_read_search == true || status.has_dac_read_search == false);
}

#[test]
fn test_capability_check_on_linux() {
    // On Linux, we should be able to check capabilities
    // The actual values depend on how the test is run
    let status = check_all_capabilities().unwrap();

    // Either way, the check should complete without panicking
    println!(
        "Capability status: has_sys_ptrace={}, has_dac_read_search={}",
        status.has_sys_ptrace, status.has_dac_read_search
    );
}

#[test]
fn test_evaluate_capabilities_reports_as_is() {
    let status = evaluate_capabilities(false, true, true, false, false);
    assert!(!status.has_bpf);
    assert!(status.has_sys_admin);
    assert!(status.has_net_admin);
    assert!(!status.has_sys_ptrace);
    assert!(!status.has_dac_read_search);
    let none = evaluate_capabilities(false, false, false, false, false);
    assert!(!none.has_bpf && !none.has_sys_admin && !none.has_net_admin);
}

#[test]
fn test_requirement_missing_bpf_and_sys_admin() {
    match evaluate_capabilities(false, false, true, true, true).ebpf_requirement_error() {
        Some(InterposerError::EbpfNotSupported(m)) => {
            assert!(m.starts_with("Missing required eBPF capability: CAP_BPF or CAP_SYS_ADMIN"))
        }
        _ => panic!("expected EbpfNotSupported"),
    }
}

#[test]
fn test_requirement_missing_net_admin() {
    match evaluate_capabilities(true, false, false, true, true).ebpf_requirement_error() {
        Some(InterposerError::EbpfNotSupported(m)) => {
            assert!(m.starts_with("Missing required capability: CAP_NET_ADMIN"))
        }
        _ => panic!("expected EbpfNotSupported"),
    }
}

#[test]
fn test_requirement_metadata_capabilities_optional() {
    assert!(evaluate_capabilities(false, true, true, false, false).ebpf_requirement_error().is_none());
    assert!(evaluate_capabilities(true, false, true, false, false).ebpf_requirement_error().is_none());
}

#[test]
fn test_status_from_effective_set() {
    // Numbers as capctl gives them: DAC_READ_SEARCH=2, NET_ADMIN=12, SYS_PTRACE=19, SYS_ADMIN=21, BPF=39
    let s = status_from_effective(&vec![39, 12]);
    assert!(s.has_bpf && !s.has_sys_admin && s.has_net_admin && !s.has_sys_ptrace && !s.has_dac_read_search);
    let s = status_from_effective(&vec![0, 1, 2, 19, 21]);
    assert!(!s.has_bpf && s.has_sys_admin && !s.has_net_admin && s.has_sys_ptrace && s.has_dac_read_search);
    let s = status_from_effective(&vec![]);
    assert!(!s.has_bpf && !s.has_sys_admin && !s.has_net_admin && !s.has_sys_ptrace && !s.has_dac_read_search);
}

#[test]
fn test_capability_status_from_read() {
    // A readable state gives a status, whatever is missing
    let s = capability_status_from(Ok(vec![])).unwrap();
    assert!(!s.has_bpf && !s.has_net_admin);
    match capability_status_from(Err("Operation not permitted".to_string())) {
        Err(InterposerError::Ebpf(m)) => assert_eq!(m, "Failed to get current capabilities: Operation not permitted"),
        _ => panic!("expected an eBPF error"),
    }
}
