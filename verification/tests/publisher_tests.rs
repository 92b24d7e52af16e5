use serde_json::Value;
use winevt_core::enumerator::{Pull, Pulled, PublisherEnumerator};
use winevt_core::errors::WinThingError;
use winevt_core::handle::EvtHandle;
use winevt_core::publisher::PublisherMeta;
use winevt_core::tables::{
    channel_references, keywords, levels, opcodes, publisher_metadata, tasks, PROPERTY_ID_END,
};
use winevt_core::variant::{Scalar, Variant};

fn name(n: &str, raw: usize) -> Pulled {
    Pulled::Name { name: n.to_string(), opened: Ok(raw) }
}

fn broken(n: &str, code: u32) -> Pulled {
    Pulled::Name { name: n.to_string(), opened: Err(code) }
}

fn names_of(items: &[PublisherMeta]) -> Vec<(String, Option<usize>)> {
    items.iter().map(|m| (m.name.clone(), m.raw_handle())).collect()
}

#[test]
fn publisher_table_matches_the_native_identifiers() {
    let t = publisher_metadata();
    assert_eq!(t.terminator, 29);
    assert_eq!(PROPERTY_ID_END, 29);
    assert_eq!(t.entries.len(), 12);
    assert_eq!(t.entries[0].name, "EvtPublisherMetadataPublisherGuid");
    assert_eq!(t.entries[0].id, 0);
    assert_eq!(t.entries[7].name, "EvtPublisherMetadataLevels");
    assert_eq!(t.entries[7].id, 12);
    assert_eq!(t.entries[11].name, "EvtPublisherMetadataPropertyIdEND");
    assert_eq!(t.entries[11].id, 29);
    assert_eq!(PublisherMeta::property_ids(), vec![0, 1, 2, 3, 4, 5, 6, 12, 16, 21, 25]);
}

#[test]
fn sub_tables_list_their_identifiers_in_order() {
    let ids = |t: winevt_core::property::PropertyTable| -> Vec<u32> {
        t.entries.iter().map(|p| p.id).collect()
    };
    assert_eq!(ids(channel_references()), vec![7, 8, 9, 10, 11]);
    assert_eq!(ids(levels()), vec![13, 14, 15]);
    assert_eq!(ids(tasks()), vec![17, 18, 19, 20]);
    assert_eq!(ids(opcodes()), vec![22, 23, 24]);
    assert_eq!(ids(keywords()), vec![26, 27, 28]);
    assert_eq!(keywords().query_ids(), vec![26, 27, 28]);
    assert_eq!(tasks().entries[1].name, "EvtPublisherMetadataTaskEventGuid");
}

#[test]
fn publisher_record_needs_an_opened_handle() {
    let meta = PublisherMeta::new("Microsoft-Windows-Kernel".to_string(), Ok(42)).unwrap();
    assert_eq!(meta.name, "Microsoft-Windows-Kernel");
    assert_eq!(meta.name(), "Microsoft-Windows-Kernel");
    assert_eq!(meta.raw_handle(), Some(42));
    assert_eq!(
        PublisherMeta::new("nope".to_string(), Err(15002)).unwrap_err(),
        WinThingError::Native { code: 15002 }
    );
    assert_eq!(
        PublisherMeta::new("null".to_string(), Ok(0)).unwrap_err(),
        WinThingError::NullHandle
    );
}

#[test]
fn publisher_json_skips_what_cannot_be_read() {
    let meta = PublisherMeta::new("P".to_string(), Ok(1)).unwrap();
    let mut replies: Vec<Result<Variant, WinThingError>> = Vec::new();
    replies.push(Ok(Variant::Single(Scalar::Guid("{g}".to_string()))));
    replies.push(Err(WinThingError::Native { code: 2 }));
    replies.push(Ok(Variant::Single(Scalar::Text("params.dll".to_string()))));
    replies.push(Ok(Variant::Unknown { tag: 77 }));
    replies.push(Ok(Variant::Single(Scalar::Null)));
    replies.push(Ok(Variant::Single(Scalar::Unsigned { bits: 32, value: 4294967295 })));
    let value = meta.to_json_value(&replies).unwrap();
    let object = value.as_object().unwrap();
    assert_eq!(object.len(), 4);
    assert_eq!(object["EvtPublisherMetadataPublisherGuid"], Value::String("{g}".to_string()));
    assert_eq!(
        object["EvtPublisherMetadataParameterFilePath"],
        Value::String("params.dll".to_string())
    );
    assert_eq!(object["EvtPublisherMetadataHelpLink"], Value::Null);
    assert_eq!(object["EvtPublisherMetadataPublisherMessageID"], Value::from(4294967295u64));
    assert!(object.get("EvtPublisherMetadataPropertyIdEND").is_none());
}

#[test]
fn reply_in_the_terminator_slot_is_ignored() {
    let meta = PublisherMeta::new("P".to_string(), Ok(1)).unwrap();
    let mut replies: Vec<Result<Variant, WinThingError>> = Vec::new();
    for _ in 0..12 {
        replies.push(Ok(Variant::Single(Scalar::Boolean(true))));
    }
    let value = meta.to_json_value(&replies).unwrap();
    let object = value.as_object().unwrap();
    assert_eq!(object.len(), 11);
    assert!(object.get("EvtPublisherMetadataPropertyIdEND").is_none());
}

#[test]
fn closed_record_extracts_nothing() {
    let mut meta = PublisherMeta::new("P".to_string(), Ok(9)).unwrap();
    assert_eq!(meta.close(), Some(9));
    assert_eq!(meta.close(), None);
    assert_eq!(meta.raw_handle(), None);
    assert_eq!(meta.to_json_value(&Vec::new()).unwrap_err(), WinThingError::InvalidHandle);
}

#[test]
fn enumerator_needs_an_opened_enumeration() {
    let e = PublisherEnumerator::new(None, Ok(3)).unwrap();
    assert!(!e.is_finished());
    assert_eq!(e.raw_handle(), Some(3));
    assert_eq!(
        PublisherEnumerator::new(None, Err(5)).unwrap_err(),
        WinThingError::Native { code: 5 }
    );
    assert_eq!(PublisherEnumerator::new(None, Ok(0)).unwrap_err(), WinThingError::NullHandle);
    let session = EvtHandle::open(Ok(8)).unwrap();
    assert!(PublisherEnumerator::new(Some(session), Ok(4)).is_ok());
}

#[test]
fn enumerator_yields_in_native_order_and_terminates() {
    let mut e = PublisherEnumerator::new(None, Ok(3)).unwrap();
    let pulls = vec![name("a", 10), name("b", 11), name("c", 12), Pulled::End];
    let items = e.collect(&pulls);
    assert_eq!(
        names_of(&items),
        vec![
            ("a".to_string(), Some(10)),
            ("b".to_string(), Some(11)),
            ("c".to_string(), Some(12))
        ]
    );
    assert!(e.is_finished());
    assert!(matches!(e.next(&name("d", 13)), Pull::Finished));
    assert!(matches!(e.next(&Pulled::End), Pull::Finished));
    assert!(matches!(e.next(&Pulled::CursorError { code: 1 }), Pull::Finished));
    assert!(e.is_finished());
    assert!(e.collect(&vec![name("e", 14)]).is_empty());
}

#[test]
fn item_that_cannot_be_opened_is_skipped() {
    let mut e = PublisherEnumerator::new(None, Ok(3)).unwrap();
    let pulls = vec![name("a", 10), broken("b", 5), name("c", 12), name("d", 0), Pulled::End];
    let items = e.collect(&pulls);
    assert_eq!(
        names_of(&items),
        vec![("a".to_string(), Some(10)), ("c".to_string(), Some(12))]
    );
    assert!(e.is_finished());
}

#[test]
fn cursor_error_is_retried() {
    let mut e = PublisherEnumerator::new(None, Ok(3)).unwrap();
    assert!(matches!(e.next(&Pulled::CursorError { code: 13 }), Pull::Retry));
    assert!(!e.is_finished());
    assert!(matches!(e.next(&broken("x", 2)), Pull::Retry));
    assert!(!e.is_finished());
    match e.next(&name("y", 21)) {
        Pull::Yield(meta) => {
            assert_eq!(meta.name, "y");
            assert_eq!(meta.raw_handle(), Some(21));
        }
        other => panic!("expected an item, got {:?}", other),
    }
    assert!(!e.is_finished());
    assert!(matches!(e.next(&Pulled::End), Pull::Finished));
    assert!(e.is_finished());
}

#[test]
fn nothing_behind_the_end_signal_is_handed_out() {
    let mut e = PublisherEnumerator::new(None, Ok(3)).unwrap();
    let pulls = vec![name("a", 10), Pulled::End, name("ghost", 11)];
    assert_eq!(names_of(&e.collect(&pulls)), vec![("a".to_string(), Some(10))]);
}

#[test]
fn run_without_end_leaves_the_enumerator_live() {
    let mut e = PublisherEnumerator::new(None, Ok(3)).unwrap();
    assert_eq!(e.collect(&vec![name("a", 10)]).len(), 1);
    assert!(!e.is_finished());
    assert_eq!(e.collect(&Vec::new()).len(), 0);
    assert!(!e.is_finished());
}

#[test]
fn closing_an_enumerator_finishes_it() {
    let mut e = PublisherEnumerator::new(None, Ok(3)).unwrap();
    assert_eq!(e.close(), Some(3));
    assert_eq!(e.close(), None);
    assert!(e.is_finished());
    assert!(matches!(e.next(&name("a", 1)), Pull::Finished));
}
