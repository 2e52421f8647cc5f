use ledb_error::LedbError;
use ledb_error::ResultWrap;

#[test]
fn doc_error_renders_with_label() {
    let e = LedbError::DocError(String::from("x"));
    assert_eq!(e.to_text(), "Document error: x");
}

#[test]
fn doc_error_empty_message_still_renders() {
    let e = LedbError::DocError(String::new());
    assert_eq!(e.to_text(), "Document error: ");
}

#[test]
fn from_string_and_from_slice_agree() {
    let a = LedbError::from(String::from("bad document"));
    let b = LedbError::from("bad document");
    assert!(matches!(a, LedbError::DocError(ref m) if m == "bad document"));
    assert!(matches!(b, LedbError::DocError(ref m) if m == "bad document"));
    assert_eq!(a.to_text(), b.to_text());
}

#[test]
fn db_error_keeps_engine_message() {
    let orig = format!("{}", lmdb::Error::BadTxn);
    let e = LedbError::from(lmdb::Error::BadTxn);
    assert!(matches!(e, LedbError::DbError(lmdb::Error::BadTxn)));
    let s = e.to_text();
    assert_eq!(s, format!("Database error: {}", orig));
    assert!(s.contains(&orig));
}

#[test]
fn str_error_keeps_decoding_message() {
    let u = std::str::from_utf8(&[0xC3, 0x28]).unwrap_err();
    let e = LedbError::from(u);
    assert!(matches!(e, LedbError::StrError(_)));
    assert_eq!(e.to_text(), format!("String error: {}", u));
}

#[test]
fn data_error_keeps_codec_message() {
    let c = serde_cbor::from_slice::<serde_cbor::Value>(&[]).unwrap_err();
    let orig = format!("{}", c);
    let e = LedbError::from(c);
    assert!(matches!(e, LedbError::DataError(_)));
    assert_eq!(e.to_text(), format!("Data coding error: {}", orig));
}

#[test]
fn storage_error_keeps_only_the_text() {
    let orig = format!("{}", ron::Error::Eof);
    let e = LedbError::from(ron::Error::Eof);
    match &e {
        LedbError::StorageError(m) => assert_eq!(m, &orig),
        _ => panic!("expected a storage error"),
    }
    assert_eq!(e.to_text(), format!("Storage error: {}", orig));
}

#[test]
fn io_error_not_found_renders_its_own_text() {
    let io = std::io::Error::new(std::io::ErrorKind::NotFound, "document is gone");
    let orig = io.to_string();
    let e = LedbError::from(io);
    assert!(matches!(e, LedbError::IoError(_)));
    assert_eq!(e.to_text(), format!("I/O Error: {}", orig));
}

#[test]
fn poisoned_lock_becomes_sync_error() {
    let orig = format!("{}", std::sync::PoisonError::new(7u8));
    let e = LedbError::from(std::sync::PoisonError::new(7u8));
    assert!(matches!(e, LedbError::SyncError(_)));
    assert_eq!(e.to_text(), format!("Sync error: {}", orig));
}

#[test]
fn poison_conversion_ignores_the_guarded_type() {
    let a = LedbError::from(std::sync::PoisonError::new(String::from("guarded")));
    let b = LedbError::from(std::sync::PoisonError::new(vec![1u32, 2u32]));
    assert_eq!(a.to_text(), b.to_text());
}

#[test]
fn every_category_label_is_fixed() {
    let u = std::str::from_utf8(&[0xFF]).unwrap_err();
    let c = serde_cbor::from_slice::<serde_cbor::Value>(&[]).unwrap_err();
    let cases: Vec<(LedbError, &str)> = vec![
        (LedbError::DocError(String::from("m")), "Document error: "),
        (LedbError::DbError(lmdb::Error::NotFound), "Database error: "),
        (LedbError::StrError(u), "String error: "),
        (LedbError::DataError(c), "Data coding error: "),
        (LedbError::StorageError(String::from("m")), "Storage error: "),
        (
            LedbError::IoError(std::io::Error::new(std::io::ErrorKind::Other, "m")),
            "I/O Error: ",
        ),
        (LedbError::SyncError(String::from("m")), "Sync error: "),
    ];
    for (e, prefix) in cases {
        let s = e.to_text();
        assert!(s.starts_with(prefix), "{} does not start with {}", s, prefix);
        assert!(!s.is_empty());
    }
}

#[test]
fn rendering_twice_gives_the_same_string() {
    let e = LedbError::DocError(String::from("same"));
    assert_eq!(e.to_text(), e.to_text());
    let d = LedbError::DbError(lmdb::Error::MapFull);
    assert_eq!(d.to_text(), d.to_text());
}

#[test]
fn into_string_equals_the_rendering() {
    let rendered = LedbError::DocError(String::from("x")).to_text();
    let s: String = LedbError::DocError(String::from("x")).into();
    assert_eq!(s, rendered);
    let t = String::from(LedbError::SyncError(String::from("held elsewhere")));
    assert_eq!(t, "Sync error: held elsewhere");
}

#[test]
fn wrapping_a_success_changes_nothing() {
    let r: Result<i32, lmdb::Error> = Ok(5);
    let w: ledb_error::Result<i32> = r.wrap_err();
    assert!(matches!(w, Ok(5)));
}

#[test]
fn wrapping_a_failure_follows_the_mapping_table() {
    let db: Result<(), lmdb::Error> = Err(lmdb::Error::KeyExist);
    assert!(matches!(db.wrap_err(), Err(LedbError::DbError(lmdb::Error::KeyExist))));

    let u = std::str::from_utf8(&[0x80]).unwrap_err();
    let st: Result<(), std::str::Utf8Error> = Err(u);
    assert!(matches!(st.wrap_err(), Err(LedbError::StrError(_))));

    let c = serde_cbor::from_slice::<serde_cbor::Value>(&[]).unwrap_err();
    let da: Result<(), serde_cbor::Error> = Err(c);
    assert!(matches!(da.wrap_err(), Err(LedbError::DataError(_))));

    let ro: Result<(), ron::Error> = Err(ron::Error::Eof);
    assert!(matches!(ro.wrap_err(), Err(LedbError::StorageError(_))));

    let io: Result<(), std::io::Error> = Err(std::io::Error::new(
        std::io::ErrorKind::PermissionDenied,
        "locked",
    ));
    assert!(matches!(io.wrap_err(), Err(LedbError::IoError(_))));

    let po: Result<(), std::sync::PoisonError<u8>> = Err(std::sync::PoisonError::new(0u8));
    assert!(matches!(po.wrap_err(), Err(LedbError::SyncError(_))));

    let ms: Result<(), String> = Err(String::from("no such field"));
    assert!(matches!(
        ms.wrap_err(),
        Err(LedbError::DocError(ref m)) if m == "no such field"
    ));

    let sl: Result<(), &str> = Err("no such field");
    assert!(matches!(
        sl.wrap_err(),
        Err(LedbError::DocError(ref m)) if m == "no such field"
    ));
}

#[test]
fn ron_rendering_matches_the_libraries_own() {
    let cause = ron::Error::ExpectedBoolean;
    let own = format!("{}", cause);
    let e = LedbError::from(cause);
    assert_eq!(e.to_text(), format!("Storage error: {}", own));
}

#[test]
fn db_error_with_raw_code_still_renders() {
    let e = LedbError::from(lmdb::Error::Other(9999));
    let s = e.to_text();
    assert_eq!(s, format!("Database error: {}", lmdb::Error::Other(9999)));
    assert!(s.starts_with("Database error: "));
}
