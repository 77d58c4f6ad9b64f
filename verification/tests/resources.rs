use dispatch_core::resources::ResourceTable;

#[derive(Debug, PartialEq)]
enum HostObject {
    Listener(u16),
    Stream(u64),
}

#[test]
fn test_add_get_close() {
    let mut table: ResourceTable<HostObject> = ResourceTable::new();
    let id = table.add("tcpListener", HostObject::Listener(4500));
    assert_eq!(table.get(id, "tcpListener").unwrap(), &HostObject::Listener(4500));

    // kind mismatch is a reported bad-resource condition, never a fault
    let err = table.get(id, "tcpStream").unwrap_err();
    assert_eq!(err.kind, "BadResource");

    assert!(table.close(id));
    let err = table.get(id, "tcpListener").unwrap_err();
    assert_eq!(err.kind, "BadResource");
}

#[test]
fn test_distinct_ids() {
    let mut table: ResourceTable<HostObject> = ResourceTable::new();
    let a = table.add("tcpStream", HostObject::Stream(1));
    let b = table.add("tcpStream", HostObject::Stream(2));
    assert_ne!(a, b);
    assert_eq!(table.get(a, "tcpStream").unwrap(), &HostObject::Stream(1));
    assert_eq!(table.get(b, "tcpStream").unwrap(), &HostObject::Stream(2));
}

#[test]
fn test_close_reports_whether_anything_was_removed() {
    let mut table: ResourceTable<HostObject> = ResourceTable::new();
    // close on a never-added id reports that nothing was removed
    assert!(!table.close(0));
    assert!(!table.close(1));
    assert!(!table.close(57));

    let id = table.add("tcpStream", HostObject::Stream(9));
    assert!(table.close(id));
    // double-close is reported, not fatal
    assert!(!table.close(id));
}

#[test]
fn test_closed_ids_are_never_reissued() {
    let mut table: ResourceTable<HostObject> = ResourceTable::new();
    let a = table.add("tcpStream", HostObject::Stream(1));
    assert!(table.close(a));
    let b = table.add("tcpStream", HostObject::Stream(2));
    assert_ne!(a, b);
    // the closed id stays terminally absent
    assert!(table.get(a, "tcpStream").is_err());
    assert_eq!(table.get(b, "tcpStream").unwrap(), &HostObject::Stream(2));
}
