use mefirst::process::retriever::{
    cmdline_text, executable_or_unknown, inode_in_tcp_table, is_socket_link_for, pid_from_dir_name,
    process_info_from_proc, socket_inode_from_link, tcp_local_address, tcp_table_path, uid_from_status,
    username_or_uid, PeerAddr, ProcessMetadataRetriever,
};
use mefirst::process::ProcessInfo;

const TCP_TABLE: &str = "  sl  local_address rem_address   st tx_queue rx_queue tr tm->when retrnsmt   uid  timeout inode\n   0: 0100007F:1F90 00000000:0000 0A 00000000:00000000 00:00000000 00000000     0        0 11111 1 0000000000000000 100 0 0 10 0\n   1: 0100007F:D431 0100007F:1F90 01 00000000:00000000 00:00000000 00000000  1000        0 12345 1 0000000000000000 20 4 30 10 -1\n";

#[test]
fn test_socket_inode_from_link() {
    assert_eq!(socket_inode_from_link("socket:[12345]"), Some(12345));
    assert_eq!(socket_inode_from_link("socket:[0]"), Some(0));
    assert_eq!(socket_inode_from_link("pipe:[12345]"), None);
    assert_eq!(socket_inode_from_link("socket:[]"), None);
    assert_eq!(socket_inode_from_link("socket:[12a]"), None);
    assert_eq!(socket_inode_from_link("socket:[12345"), None);
    assert_eq!(socket_inode_from_link("/dev/null"), None);
}

#[test]
fn test_socket_link_round_trip() {
    for inode in [0u64, 7, 12345, u64::MAX] {
        let link = format!("socket:[{}]", inode);
        assert!(is_socket_link_for(&link, inode));
        assert_eq!(socket_inode_from_link(&link), Some(inode));
    }
    assert!(!is_socket_link_for("socket:[42]", 43));
    assert!(!is_socket_link_for("socket:[042]", 42));
}

#[test]
fn test_pid_from_dir_name() {
    assert_eq!(pid_from_dir_name("1"), Some(1));
    assert_eq!(pid_from_dir_name("4242"), Some(4242));
    assert_eq!(pid_from_dir_name("self"), None);
    assert_eq!(pid_from_dir_name("cpuinfo"), None);
    assert_eq!(pid_from_dir_name("99999999999"), None);
}

#[test]
fn test_uid_from_status() {
    let status = "Name:\tbash\nUmask:\t0022\nState:\tS (sleeping)\nUid:\t1000\t1000\t1000\t1000\nGid:\t1000\t1000\t1000\t1000\n";
    assert_eq!(uid_from_status(status), Some(1000));
    assert_eq!(uid_from_status("Name:\tinit\nUid:\t0\t0\t0\t0\n"), Some(0));
    assert_eq!(uid_from_status("Name:\tbash\n"), None);
    // The first Uid line with a value decides, even when the value does not parse.
    assert_eq!(uid_from_status("Uid:\tx\nUid:\t5\n"), None);
    // A Uid line without a value is passed over.
    assert_eq!(uid_from_status("Uid:\nUid:\t5\n"), Some(5));
}

#[test]
fn test_tcp_local_address_v4() {
    let peer = PeerAddr::V4 { octets: [127, 0, 0, 1], port: 8080 };
    assert_eq!(tcp_local_address(&peer), "0100007F:1F90");
    assert_eq!(tcp_table_path(&peer), "/proc/net/tcp");
    let peer = PeerAddr::V4 { octets: [10, 1, 2, 254], port: 54321 };
    assert_eq!(tcp_local_address(&peer), "FE02010A:D431");
}

#[test]
fn test_tcp_local_address_v6() {
    let peer = PeerAddr::V6 { segments: [0, 0, 0, 0, 0, 0, 0, 1], port: 8080 };
    assert_eq!(tcp_local_address(&peer), "00000000000000000000000001000000:1F90");
    assert_eq!(tcp_table_path(&peer), "/proc/net/tcp6");
    let peer = PeerAddr::V6 { segments: [0x2001, 0x0db8, 0, 0, 0, 0, 0x1234, 0x5678], port: 1 };
    assert_eq!(tcp_local_address(&peer), "B80D0120000000000000000078563412:0001");
}

#[test]
fn test_inode_in_tcp_table() {
    assert_eq!(inode_in_tcp_table(TCP_TABLE, "0100007F:D431"), Some(12345));
    assert_eq!(inode_in_tcp_table(TCP_TABLE, "0100007F:1F90"), Some(11111));
    assert_eq!(inode_in_tcp_table(TCP_TABLE, "0200007F:1F90"), None);
    // The header line is never read as a connection.
    assert_eq!(inode_in_tcp_table(TCP_TABLE, "local_address"), None);
    assert_eq!(inode_in_tcp_table("", "0100007F:D431"), None);
}

#[test]
fn test_resolved_names_and_fallbacks() {
    assert_eq!(username_or_uid(None, 99999), "99999");
    assert_eq!(username_or_uid(Some("root".to_string()), 0), "root");
    assert_eq!(executable_or_unknown(None, 42), "<unknown-42>");
    assert_eq!(executable_or_unknown(Some("/usr/bin/curl".to_string()), 42), "/usr/bin/curl");
}

#[test]
fn test_cmdline_text() {
    assert_eq!(cmdline_text(Some(b"curl\0http://example.com\0")), "curl http://example.com");
    assert_eq!(cmdline_text(Some(b"  sleep\x0010  ")), "sleep 10");
    assert_eq!(cmdline_text(Some(b"")), "");
    assert_eq!(cmdline_text(None), "");
    // Invalid UTF-8 is replaced, not dropped.
    assert_eq!(cmdline_text(Some(b"a\xffb\0c")), "a\u{FFFD}b c");
}

#[test]
fn test_process_info_from_proc() {
    let info = process_info_from_proc(
        12345,
        1000,
        Some("testuser".to_string()),
        Some("/usr/bin/curl".to_string()),
        Some(b"curl\0http://example.com\0"),
    );
    assert_eq!(info.uid, 1000);
    assert_eq!(info.username, "testuser");
    assert_eq!(info.pid, 12345);
    assert_eq!(info.executable, "/usr/bin/curl");
    assert_eq!(info.cmdline, "curl http://example.com");
}

#[test]
fn test_retriever_cache_reads_back_what_it_remembers() {
    let mut retriever = ProcessMetadataRetriever::new().unwrap();
    assert!(retriever.cached(7).is_none());
    let info = ProcessInfo::new(0, "root".to_string(), 1, "/sbin/init".to_string(), String::new());
    retriever.remember(7, info);
    let found = retriever.cached(7).unwrap();
    assert_eq!(found.pid, 1);
    assert_eq!(found.username, "root");
    assert!(retriever.cached(8).is_none());
    let other = ProcessInfo::new(1000, "u".to_string(), 2, "/bin/sh".to_string(), "sh".to_string());
    retriever.remember(7, other);
    assert_eq!(retriever.cached(7).unwrap().pid, 2);
}

#[test]
fn test_resolve_username_fallback() {
    // A UID with no user name falls back to the number
    let username = username_or_uid(None, 99999);
    assert_eq!(username, "99999");
}

#[test]
fn test_resolve_username_root() {
    // The name the user database gives for uid 0 is the one used
    let username = username_or_uid(Some("root".to_string()), 0);
    assert_eq!(username, "root");
}
