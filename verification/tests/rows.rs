use eventstore::backend::model::Event;
use eventstore::backend::row::{
    decode_row, decode_rows, event_params, events_of_answer, id_params, id_version_params,
    SqlValue, StoredRow,
};
use eventstore::backend::sqlite::{acquired, check_version, queried, transacted, Error};

fn row(id: &str, data: &[u8], version: u32) -> StoredRow {
    StoredRow { id: Ok(id.to_string()), data: Ok(data.to_vec()), version: Ok(version) }
}

#[test]
fn check_version_accepts_only_the_next_version() {
    assert!(check_version(0, 1).is_ok());
    assert!(check_version(41, 42).is_ok());
    assert!(check_version(u32::MAX - 1, u32::MAX).is_ok());
    assert!(matches!(check_version(0, 0), Err(Error::VersionConflict(1, 0))));
    assert!(matches!(check_version(0, 2), Err(Error::VersionConflict(1, 2))));
    assert!(matches!(check_version(5, 5), Err(Error::VersionConflict(6, 5))));
    assert!(matches!(check_version(5, 4), Err(Error::VersionConflict(6, 4))));
}

#[test]
fn check_version_at_the_largest_version_refuses_everything() {
    assert!(matches!(check_version(u32::MAX, 0), Err(Error::VersionConflict(4294967296, 0))));
    assert!(matches!(
        check_version(u32::MAX, u32::MAX),
        Err(Error::VersionConflict(4294967296, 4294967295))
    ));
}

#[test]
fn decode_row_reads_every_form_of_uuid_text() {
    let expected = 0xd37aaaf7_45a7_4823_83f1_9aae13a6dfd1u128;
    for text in [
        "d37aaaf7-45a7-4823-83f1-9aae13a6dfd1",
        "D37AAAF7-45A7-4823-83F1-9AAE13A6DFD1",
        "d37aaaf745a7482383f19aae13a6dfd1",
        "urn:uuid:d37aaaf7-45a7-4823-83f1-9aae13a6dfd1",
    ] {
        let event = decode_row(row(text, &[1, 2, 3], 9)).unwrap();
        assert_eq!(event.id, expected);
        assert_eq!(event.version, 9);
        assert_eq!(event.data, vec![1, 2, 3]);
    }
}

#[test]
fn decode_row_names_what_is_wrong_with_a_row() {
    let unreadable = StoredRow {
        id: Err(rusqlite::Error::InvalidQuery),
        data: Err(rusqlite::Error::QueryReturnedNoRows),
        version: Ok(1),
    };
    match decode_row(unreadable) {
        Err(Error::Generic(message)) => assert_eq!(message, "could not read uuid from row"),
        _ => panic!("expected the generic error"),
    }
    assert!(matches!(decode_row(row("no uuid", &[], 1)), Err(Error::IdentifierDecodeFailure)));
    assert!(matches!(decode_row(row("", &[], 1)), Err(Error::IdentifierDecodeFailure)));
    let no_payload = StoredRow {
        id: Ok("d37aaaf7-45a7-4823-83f1-9aae13a6dfd1".to_string()),
        data: Err(rusqlite::Error::InvalidQuery),
        version: Err(rusqlite::Error::QueryReturnedNoRows),
    };
    match decode_row(no_payload) {
        Err(Error::QueryFailure(cause)) => assert_eq!(cause, rusqlite::Error::InvalidQuery),
        _ => panic!("expected a query failure"),
    }
    let no_version = StoredRow {
        id: Ok("d37aaaf7-45a7-4823-83f1-9aae13a6dfd1".to_string()),
        data: Ok(vec![]),
        version: Err(rusqlite::Error::QueryReturnedNoRows),
    };
    match decode_row(no_version) {
        Err(Error::QueryFailure(cause)) => assert_eq!(cause, rusqlite::Error::QueryReturnedNoRows),
        _ => panic!("expected a query failure"),
    }
}

#[test]
fn decode_rows_keeps_the_good_rows_in_order() {
    let rows = vec![
        Ok(row("00000000-0000-0000-0000-000000000001", b"a", 1)),
        Err(rusqlite::Error::InvalidQuery),
        Ok(row("broken", b"b", 2)),
        Ok(StoredRow {
            id: Ok("00000000-0000-0000-0000-000000000001".to_string()),
            data: Ok(vec![]),
            version: Err(rusqlite::Error::InvalidQuery),
        }),
        Ok(row("00000000-0000-0000-0000-000000000002", b"c", 3)),
    ];
    let events: Vec<Event> = decode_rows(rows);
    assert_eq!(events.len(), 2);
    assert_eq!((events[0].id, events[0].version, events[0].data.clone()), (1, 1, b"a".to_vec()));
    assert_eq!((events[1].id, events[1].version, events[1].data.clone()), (2, 3, b"c".to_vec()));
    assert!(decode_rows(Vec::new()).is_empty());
}

#[test]
fn parameters_are_bound_in_the_order_identifier_version_payload() {
    let params = id_params("abc");
    assert_eq!(params.len(), 1);
    assert!(matches!(&params[0], SqlValue::Text(text) if text == "abc"));

    let params = id_version_params("abc", u32::MAX);
    assert_eq!(params.len(), 2);
    assert!(matches!(&params[0], SqlValue::Text(text) if text == "abc"));
    assert!(matches!(&params[1], SqlValue::Integer(4294967295)));

    let event = Event { id: 1, version: 12, data: vec![9, 8, 7] };
    let params = event_params("abc", &event);
    assert_eq!(params.len(), 3);
    assert!(matches!(&params[0], SqlValue::Text(text) if text == "abc"));
    assert!(matches!(&params[1], SqlValue::Integer(12)));
    assert!(matches!(&params[2], SqlValue::Blob(bytes) if bytes == &vec![9u8, 8, 7]));
}

#[test]
fn messages_begin_with_the_label_of_the_error() {
    assert_eq!(Error::IdentifierDecodeFailure.message(), "could not parse uuid");
    assert_eq!(Error::Generic("disk on fire".to_string()).message(), "plain error: disk on fire");
    assert_eq!(Error::Generic(String::new()).message(), "plain error: ");
    assert_eq!(
        Error::VersionConflict(4294967296, 7).message(),
        "version conflict: expected 4294967296, actual 7"
    );
    assert_eq!(
        Error::QueryFailure(rusqlite::Error::QueryReturnedNoRows).message(),
        format!("sqlite: {}", rusqlite::Error::QueryReturnedNoRows)
    );
    assert_eq!(
        Error::TransactionFailure(rusqlite::Error::InvalidQuery).message(),
        format!("sqlite: {}", rusqlite::Error::InvalidQuery)
    );
}

#[test]
fn outside_errors_convert_into_the_matching_variant() {
    let converted: Error = rusqlite::Error::InvalidQuery.into();
    match converted {
        Error::QueryFailure(cause) => assert_eq!(cause, rusqlite::Error::InvalidQuery),
        _ => panic!("expected a query failure"),
    }
}

#[test]
fn an_answered_query_is_never_a_failed_read() {
    let answer = Ok(vec![
        Ok(row("00000000-0000-0000-0000-00000000000a", b"kept", 4)),
        Ok(row("not a uuid at all", b"lost", 5)),
        Err(rusqlite::Error::InvalidQuery),
    ]);
    let events = events_of_answer(answer).unwrap();
    assert_eq!(events.len(), 1);
    assert_eq!((events[0].id, events[0].version, events[0].data.clone()), (10, 4, b"kept".to_vec()));
    assert!(events_of_answer(Ok(Vec::new())).unwrap().is_empty());
}

#[test]
fn a_query_that_could_not_be_started_is_a_query_failure() {
    match events_of_answer(Err(rusqlite::Error::InvalidQuery)) {
        Err(Error::QueryFailure(cause)) => assert_eq!(cause, rusqlite::Error::InvalidQuery),
        _ => panic!("expected a query failure"),
    }
}

#[test]
fn an_answer_of_sqlite_is_handed_on_and_its_failure_is_named_by_its_place() {
    assert_eq!(queried(Ok(17u32)).unwrap(), 17);
    assert_eq!(transacted(Ok(vec![1u8, 2])).unwrap(), vec![1u8, 2]);
    match queried::<u32>(Err(rusqlite::Error::QueryReturnedNoRows)) {
        Err(Error::QueryFailure(cause)) => assert_eq!(cause, rusqlite::Error::QueryReturnedNoRows),
        _ => panic!("expected a query failure"),
    }
    match transacted::<()>(Err(rusqlite::Error::InvalidQuery)) {
        Err(Error::TransactionFailure(cause)) => assert_eq!(cause, rusqlite::Error::InvalidQuery),
        _ => panic!("expected a transaction failure"),
    }
}

#[test]
fn an_answer_of_the_pool_is_handed_on() {
    assert_eq!(acquired(Ok("connection")).unwrap(), "connection");
}
