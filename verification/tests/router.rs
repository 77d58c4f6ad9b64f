use dispatch_core::codec::{parse_min_record, Record};
use dispatch_core::errors::OpError;
use dispatch_core::router::{
    is_sync_call, minimal_request, minimal_response, DispatchFatal, DispatchManager, OpFamily,
};

#[test]
fn test_dispatch_families() {
    let mut d = DispatchManager::new();
    let control = [0u8; 12];

    // 1001 routes only within the minimal family
    let (family, token) = d.dispatch(1001, &control, 0).unwrap();
    assert_eq!(family, OpFamily::Minimal);
    d.complete(token, 12);

    // 2013 routes only within the structured family
    let (family, token) = d.dispatch(2013, &control, 0).unwrap();
    assert_eq!(family, OpFamily::Structured);
    d.complete(token, 0);

    // the published structured block runs from 2003 to 2057
    let (family, token) = d.dispatch(2003, &control, 0).unwrap();
    assert_eq!(family, OpFamily::Structured);
    d.complete(token, 0);
    let (family, token) = d.dispatch(2057, &control, 0).unwrap();
    assert_eq!(family, OpFamily::Structured);
    d.complete(token, 0);

    // ids with no registered handler hit the fatal unknown-op path
    for bad in [0u32, 999, 1000, 1500, 2000, 2002, 2058, 2999, 3000, 57] {
        assert_eq!(
            d.dispatch(bad, &control, 0).unwrap_err(),
            DispatchFatal::UnknownOp { op_id: bad }
        );
    }
}

#[test]
fn test_register_assigns_monotonic_ids() {
    let mut d = DispatchManager::new();
    // the standard table already owns read=1001 and write=1002
    let id = d.register_minimal_op("fstat").unwrap();
    assert_eq!(id, 1003);
    let id2 = d.register_minimal_op("fsync").unwrap();
    assert_eq!(id2, 1004);
    // the structured family continues right after its published block
    let id3 = d.register_json_op("status").unwrap();
    assert_eq!(id3, 2058);
    // the new ids route in the minimal family
    let (family, token) = d.dispatch(id2, &[0u8; 12], 0).unwrap();
    assert_eq!(family, OpFamily::Minimal);
    d.complete(token, 12);
}

#[test]
fn test_register_refuses_duplicates() {
    let mut d = DispatchManager::new();
    assert_eq!(d.register_minimal_op("read"), None);
    assert_eq!(d.register_json_op("exit"), None);
    // a duplicate across families is no duplicate
    assert!(d.register_json_op("read").is_some());
}

#[test]
fn test_telemetry_counts_each_side_once() {
    let mut d = DispatchManager::new();
    let m0 = d.metrics();
    assert_eq!(m0.ops_dispatched, 0);
    assert_eq!(m0.ops_completed, 0);
    assert_eq!(m0.bytes_received, 0);
    assert_eq!(m0.bytes_sent, 0);

    // a synchronous call: 12 control bytes and a 30-byte raw buffer in,
    // 12 bytes out
    let control = [0u8; 12];
    let (_, token) = d.dispatch(1001, &control, 30).unwrap();
    let m1 = d.metrics();
    assert_eq!(m1.ops_dispatched, 1);
    assert_eq!(m1.bytes_received, 42);
    assert_eq!(m1.ops_completed, 0);
    assert_eq!(m1.bytes_sent, 0);
    d.complete(token, 12);
    let m2 = d.metrics();
    assert_eq!(m2.ops_completed, 1);
    assert_eq!(m2.bytes_sent, 12);
    assert_eq!(m2.ops_dispatched, 1);
    assert_eq!(m2.bytes_received, 42);

    // an asynchronous call records through the same two transitions
    let (_, token) = d.dispatch(2013, &control, 0).unwrap();
    d.complete(token, 48);
    let m3 = d.metrics();
    assert_eq!(m3.ops_dispatched, 2);
    assert_eq!(m3.ops_completed, 2);
    assert_eq!(m3.bytes_received, 54);
    assert_eq!(m3.bytes_sent, 60);

    // the unknown-op path records nothing
    let _ = d.dispatch(3000, &control, 0);
    assert_eq!(d.metrics(), m3);
}

#[test]
fn test_is_sync_call() {
    assert!(is_sync_call(&Record {
        promise_id: 0,
        arg: 5,
        result: 0
    }));
    assert!(!is_sync_call(&Record {
        promise_id: 7,
        arg: 5,
        result: 0
    }));
}

#[test]
fn test_minimal_request_ok() {
    let control = [1, 0, 0, 0, 3, 0, 0, 0, 4, 0, 0, 0];
    let rec = minimal_request(&control).unwrap();
    assert_eq!(
        rec,
        Record {
            promise_id: 1,
            arg: 3,
            result: 4
        }
    );
}

#[test]
fn test_minimal_request_unparsable() {
    let bytes = minimal_request(&[1, 2, 3]).unwrap_err();
    let mut expected = vec![0, 0, 0, 0, 255, 255, 255, 255, 9, 0, 0, 0];
    expected.extend_from_slice(b"TypeError");
    expected.extend_from_slice(b"Unparsable control buffer");
    expected.extend_from_slice(b"  ");
    assert_eq!(bytes, expected);
    assert_eq!(bytes.len() % 4, 0);
}

#[test]
fn test_minimal_response_success() {
    let record = Record {
        promise_id: 5,
        arg: 3,
        result: 0,
    };
    let bytes = minimal_response(record, Ok(42));
    assert_eq!(
        parse_min_record(&bytes),
        Some(Record {
            promise_id: 5,
            arg: 3,
            result: 42
        })
    );
}

#[test]
fn test_minimal_response_error() {
    let record = Record {
        promise_id: 1,
        arg: 3,
        result: 0,
    };
    let err = OpError {
        kind: "BadResource".to_string(),
        message: "Error".to_string(),
    };
    let bytes = minimal_response(record, Err(err));
    let expected = vec![
        1, 0, 0, 0, 255, 255, 255, 255, 11, 0, 0, 0, 66, 97, 100, 82, 101, 115, 111, 117, 114, 99,
        101, 69, 114, 114, 111, 114,
    ];
    assert_eq!(bytes, expected);
}
