use lteman::resolv::Resolv;

fn rl(lines: &[&str]) -> Vec<String> {
    lines.iter().map(|s| s.to_string()).collect()
}

#[test]
fn mod_test_resolv() {
    let lines = rl(&["# generated", "nameserver 192.168.1.1", "search lan"]);
    let resolv = Resolv::from_lines(&lines);
    println!("{:?}", resolv);
}

#[test]
fn resolv_test_resolv() {
    let lines = rl(&["nameserver 192.168.1.1"]);
    let resolv = Resolv::from_lines(&lines);
    println!("{:?}", resolv);
}

#[test]
fn mod_test_add_resolv() {
    let lines = rl(&["# generated", "nameserver 192.168.1.1"]);
    let mut resolv = Resolv::from_lines(&lines);
    resolv.add_resolv("8.8.8.8");
    resolv.add_resolv("1.1.11.1");
    resolv.add_resolv("1.1.11.1");
    resolv.add_resolv("1.1.11.1");
    resolv.add_resolv("1.1.81.1");
    resolv.add_resolv("1.1.41.1");
    resolv.add_resolv("1.1.11.1");
    resolv.add_resolv("1.1.11.2");
    println!("{:?}", resolv);
    let updated = resolv.update_lines(lines);
    println!("{:?}", updated);
}

#[test]
fn resolv_test_add_resolv() {
    let lines = rl(&["nameserver 192.168.1.1"]);
    let mut resolv = Resolv::from_lines(&lines);
    resolv.add_resolv("8.8.8.8");
    println!("{:?}", resolv);
    let updated = resolv.update_lines(lines);
    println!("{:?}", updated);
}

#[test]
fn from_lines_collects_unique_nameservers_in_order() {
    let lines = rl(&[
        "# comment",
        "nameserver 8.8.8.8",
        "search lan",
        "nameserver 1.1.1.1",
        "nameserver 8.8.8.8",
    ]);
    let resolv = Resolv::from_lines(&lines);
    assert_eq!(resolv.nameserver, vec!["8.8.8.8".to_string(), "1.1.1.1".to_string()]);
    assert_eq!(resolv.first_record, 1);
    assert!(resolv.add_nameserver.is_empty());
}

#[test]
fn from_lines_without_records() {
    let lines = rl(&["# only comments", "search lan"]);
    let resolv = Resolv::from_lines(&lines);
    assert!(resolv.nameserver.is_empty());
    assert_eq!(resolv.first_record, 0);
}

#[test]
fn add_resolv_skips_known_and_staged_addresses() {
    let lines = rl(&["nameserver 8.8.8.8"]);
    let mut resolv = Resolv::from_lines(&lines);
    resolv.add_resolv("8.8.8.8");
    assert!(resolv.add_nameserver.is_empty());
    resolv.add_resolv("9.9.9.9");
    resolv.add_resolv("9.9.9.9");
    assert_eq!(resolv.add_nameserver, vec!["9.9.9.9".to_string()]);
}

#[test]
fn update_lines_inserts_at_first_record() {
    let lines = rl(&["# head", "nameserver 8.8.8.8", "# tail"]);
    let mut resolv = Resolv::from_lines(&lines);
    resolv.add_resolv("9.9.9.9");
    resolv.add_resolv("4.4.4.4");
    let updated = resolv.update_lines(lines);
    // Each staged nameserver is inserted at the first-record position,
    // so the staged block appears in reverse staging order.
    assert_eq!(
        updated,
        vec![
            "# head".to_string(),
            "nameserver 4.4.4.4".to_string(),
            "nameserver 9.9.9.9".to_string(),
            "nameserver 8.8.8.8".to_string(),
            "# tail".to_string(),
        ]
    );
}

#[test]
fn update_lines_appends_when_no_record_was_seen() {
    let lines = rl(&["# empty file"]);
    let mut resolv = Resolv::from_lines(&lines);
    resolv.add_resolv("9.9.9.9");
    let updated = resolv.update_lines(lines);
    assert_eq!(
        updated,
        vec!["# empty file".to_string(), "nameserver 9.9.9.9".to_string()]
    );
    assert_eq!(resolv.first_record, 1);
}
