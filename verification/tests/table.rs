use chain_extension::{
    Custom, ExtensionEntry, ExtensionError, Method, MyChainExtension, ProtocolViolation, Reply,
    Shape,
};

#[test]
fn table_has_three_rows() {
    let extension = MyChainExtension::new();
    assert_eq!(
        extension.entries(),
        &vec![
            ExtensionEntry {
                method: Method::WriteToStorage,
                func_id: 1,
                input: Shape::U32,
                output: Shape::Unit,
                returns_result: false,
                handle_status: false,
            },
            ExtensionEntry {
                method: Method::CustomTypeWithResult,
                func_id: 2,
                input: Shape::Bytes,
                output: Shape::Unit,
                returns_result: true,
                handle_status: true,
            },
            ExtensionEntry {
                method: Method::ScheduleCall,
                func_id: 3,
                input: Shape::U32,
                output: Shape::Unit,
                returns_result: true,
                handle_status: true,
            },
        ]
    );
}

#[test]
fn function_ids_are_distinct_and_not_zero() {
    let extension = MyChainExtension::new();
    let entries = extension.entries();
    for (i, a) in entries.iter().enumerate() {
        assert_ne!(a.func_id, 0);
        for b in entries.iter().skip(i + 1) {
            assert_ne!(a.func_id, b.func_id);
        }
    }
}

#[test]
fn lookup_finds_each_function_by_its_id() {
    let extension = MyChainExtension::new();
    for method in [Method::WriteToStorage, Method::CustomTypeWithResult, Method::ScheduleCall] {
        let entry = extension.entry(method);
        assert_eq!(entry.method, method);
        assert_eq!(extension.lookup(entry.func_id), Some(entry));
    }
    assert_eq!(extension.lookup(1).map(|e| e.method), Some(Method::WriteToStorage));
    assert_eq!(extension.lookup(2).map(|e| e.method), Some(Method::CustomTypeWithResult));
    assert_eq!(extension.lookup(3).map(|e| e.method), Some(Method::ScheduleCall));
}

#[test]
fn lookup_finds_nothing_under_other_ids() {
    let extension = MyChainExtension::new();
    for func_id in [0u32, 4, 99, u32::MAX] {
        assert_eq!(extension.lookup(func_id), None);
    }
}

#[test]
fn shapes_know_their_size() {
    assert_eq!(Shape::Unit.encoded_len(), Some(0));
    assert_eq!(Shape::U32.encoded_len(), Some(4));
    assert_eq!(Shape::Bytes.encoded_len(), None);
}

#[test]
fn requests_carry_id_and_encoded_argument() {
    let extension = MyChainExtension::new();
    let call = extension.write_to_storage(42);
    assert_eq!((call.func_id, call.input), (1, vec![42, 0, 0, 0]));
    let custom = Custom::new(vec![1, 2, 3]).unwrap();
    let call = extension.custom_type_with_result(&custom);
    assert_eq!((call.func_id, call.input), (2, vec![12, 1, 2, 3]));
    let call = extension.schedule_call(100);
    assert_eq!((call.func_id, call.input), (3, vec![100, 0, 0, 0]));
}

#[test]
fn unhandled_status_is_delivered_as_it_came() {
    let extension = MyChainExtension::new();
    for code in [0u32, 1, 2, 77, u32::MAX] {
        assert_eq!(extension.complete(Method::WriteToStorage, code), Ok(Reply::Unhandled(code)));
    }
}

#[test]
fn handled_status_is_translated() {
    let extension = MyChainExtension::new();
    for method in [Method::CustomTypeWithResult, Method::ScheduleCall] {
        assert_eq!(extension.complete(method, 0), Ok(Reply::Handled(Ok(()))));
        assert_eq!(
            extension.complete(method, 1),
            Ok(Reply::Handled(Err(ExtensionError::CustomCallFailed)))
        );
        assert_eq!(
            extension.complete(method, 2),
            Err(ProtocolViolation::UnknownStatusCode(2))
        );
    }
}
