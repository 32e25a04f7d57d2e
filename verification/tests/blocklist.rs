use dns_firewall::blocklist::{Blocklist, PortBlocklist, BLOCKLIST_CAPACITY};

#[test]
fn fresh_blocklist_blocks_nothing() {
    let blocklist = Blocklist::new();
    assert!(!blocklist.is_blocked_address(0));
    assert!(!blocklist.is_blocked_address(0x01010101));
    let blocklist_port = PortBlocklist::new();
    assert!(!blocklist_port.is_blocked_port(53));
}

#[test]
fn inserted_address_is_blocked() {
    let mut blocklist = Blocklist::new();
    assert!(blocklist.insert(0x01010101)); // 1.1.1.1
    assert!(blocklist.is_blocked_address(0x01010101));
    assert!(!blocklist.is_blocked_address(0x01010102)); // 1.1.1.2
}

#[test]
fn inserted_port_is_blocked() {
    let mut blocklist_port = PortBlocklist::new();
    assert!(blocklist_port.insert(53));
    assert!(blocklist_port.is_blocked_port(53));
    assert!(!blocklist_port.is_blocked_port(54));
}

#[test]
fn insert_is_idempotent() {
    let mut blocklist = Blocklist::new();
    assert!(blocklist.insert(7));
    assert!(blocklist.insert(7));
    assert!(blocklist.is_blocked_address(7));
    assert!(blocklist.remove(7));
    assert!(!blocklist.is_blocked_address(7));
}

#[test]
fn removed_address_is_not_blocked() {
    let mut blocklist = Blocklist::new();
    blocklist.insert(10);
    blocklist.insert(20);
    assert!(blocklist.remove(10));
    assert!(!blocklist.is_blocked_address(10));
    assert!(blocklist.is_blocked_address(20));
    assert!(!blocklist.remove(10)); // absent: nothing changes
}

#[test]
fn removed_port_is_not_blocked() {
    let mut blocklist_port = PortBlocklist::new();
    blocklist_port.insert(53);
    assert!(blocklist_port.remove(53));
    assert!(!blocklist_port.is_blocked_port(53));
}

#[test]
fn full_address_table_fails_open() {
    let mut blocklist = Blocklist::new();
    for a in 0..BLOCKLIST_CAPACITY as u32 {
        assert!(blocklist.insert(a));
    }
    // the table is full: one more address cannot enter, and its
    // lookup stays not-blocked
    let extra = BLOCKLIST_CAPACITY as u32;
    assert!(!blocklist.insert(extra));
    assert!(!blocklist.is_blocked_address(extra));
    // an address already present is still reported as held
    assert!(blocklist.insert(0));
    assert!(blocklist.is_blocked_address(0));
}

#[test]
fn full_port_table_fails_open() {
    let mut blocklist_port = PortBlocklist::new();
    for p in 0..BLOCKLIST_CAPACITY as u16 {
        assert!(blocklist_port.insert(p));
    }
    let extra = BLOCKLIST_CAPACITY as u16;
    assert!(!blocklist_port.insert(extra));
    assert!(!blocklist_port.is_blocked_port(extra));
}
