use hostwall::logging::{addr_text, choose_file_path, Log, LogEntry};
use hostwall::rules::IpAddress;

#[test]
fn six_adds_flush_the_whole_buffer_in_order() {
    // A perfectly successful file sink, modeled in memory.
    let mut log = Log::new();
    let mut file = String::new();

    for _ in 0..6 {
        let (_entry, due) = log.add(
            "IPv4",
            IpAddress::V4(0x0a00_0001),
            IpAddress::V4(0x0a00_0002),
            String::from("2024-01-01 00:00:00 UTC"),
        );
        if due {
            let records = log.pending_records();
            let n = records.len();
            for r in records {
                file.push_str(&r);
            }
            log.confirm_written(n);
        }
    }

    // The sixth add pushed the buffer past the threshold of five, so the
    // whole buffer was flushed.
    assert_eq!(log.pending_records().len(), 0);

    // Exactly six five-line records, in call order, with ids 1 through 6.
    let lines: Vec<&str> = file.split('\n').collect();
    assert_eq!(lines.len(), 31);
    assert_eq!(lines[30], "");
    for i in 0..6 {
        assert_eq!(lines[i * 5], format!("id: {}", i + 1));
        assert_eq!(lines[i * 5 + 1], "protocol: IPv4");
        assert_eq!(lines[i * 5 + 2], "source: 10.0.0.1");
        assert_eq!(lines[i * 5 + 3], "destination: 10.0.0.2");
        assert_eq!(lines[i * 5 + 4], "time: 2024-01-01 00:00:00 UTC");
    }
}

#[test]
fn five_adds_do_not_ask_for_a_flush() {
    let mut log = Log::new();
    for i in 0..5 {
        let (entry, due) = log.add(
            "IPv6",
            IpAddress::V6(1),
            IpAddress::V6(2),
            String::from("t"),
        );
        assert_eq!(entry.id, i + 1);
        assert!(!due);
    }
    assert_eq!(log.pending_records().len(), 5);
}

#[test]
fn a_failed_write_keeps_unwritten_entries_for_retry() {
    let mut log = Log::new();
    for _ in 0..6 {
        let _ = log.add("IPv4", IpAddress::V4(1), IpAddress::V4(2), String::from("t"));
    }
    // Only two records reach the file before the sink fails.
    log.confirm_written(2);
    let remaining = log.pending_records();
    assert_eq!(remaining.len(), 4);
    assert!(remaining[0].starts_with("id: 3\n"));
    assert!(remaining[3].starts_with("id: 6\n"));
}

#[test]
fn record_text_is_five_newline_terminated_lines() {
    let entry = LogEntry::build(
        7,
        "IPv4",
        IpAddress::V4(0x7f00_0001),
        IpAddress::V4(0xc0a8_0101),
        String::from("now"),
    );
    assert_eq!(
        entry.record_text(),
        "id: 7\nprotocol: IPv4\nsource: 127.0.0.1\ndestination: 192.168.1.1\ntime: now\n"
    );
}

#[test]
fn file_path_carries_platform_directory_and_random_suffix() {
    let log = Log::new();
    let path = log.get_file_path();
    assert!(path.starts_with("/var/log/firewall.log-"));
    let suffix = &path["/var/log/firewall.log-".len()..];
    assert!(!suffix.is_empty());
    assert!(suffix.chars().all(|c| c.is_ascii_digit()));
}

#[test]
fn two_logs_rarely_share_a_file_path() {
    // The suffix is a fresh random draw per run; two logs created back to
    // back almost surely differ. This only checks both paths are well
    // formed and the constructor does not panic.
    let a = Log::new();
    let b = Log::new();
    assert!(a.get_file_path().starts_with("/var/log/firewall.log-"));
    assert!(b.get_file_path().starts_with("/var/log/firewall.log-"));
}

#[test]
fn choose_file_path_names_the_log_directory() {
    assert_eq!(choose_file_path(), "/var/log/");
}

#[test]
fn ids_keep_increasing_across_flushes() {
    let mut log = Log::new();
    for _ in 0..6 {
        let _ = log.add("IPv4", IpAddress::V4(1), IpAddress::V4(2), String::from("t"));
    }
    log.confirm_written(6);
    let (entry, _) = log.add("IPv4", IpAddress::V4(1), IpAddress::V4(2), String::from("t"));
    assert_eq!(entry.id, 7);
}

#[test]
fn ipv6_addresses_render_uncompressed() {
    assert_eq!(addr_text(&IpAddress::V6(1)), "0:0:0:0:0:0:0:1");
    assert_eq!(
        addr_text(&IpAddress::V6(0xfe80_0000_0000_0000_0202_b3ff_fe1e_8329)),
        "fe80:0:0:0:202:b3ff:fe1e:8329"
    );
    assert_eq!(addr_text(&IpAddress::V4(0xffff_ffff)), "255.255.255.255");
    assert_eq!(addr_text(&IpAddress::V4(0)), "0.0.0.0");
}

#[test]
fn transport_error_carries_its_message() {
    let e = hostwall::netlink::CompileError::Transport(String::from("socket closed"));
    assert_eq!(e.message(), "socket closed");
}

#[test]
fn confirming_zero_written_keeps_everything_buffered() {
    let mut log = Log::new();
    let _ = log.add("IPv4", IpAddress::V4(1), IpAddress::V4(2), String::from("t"));
    log.confirm_written(0);
    assert_eq!(log.pending_records().len(), 1);
}
