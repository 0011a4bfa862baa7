use vectorscan_rs::{BlockDatabase, Database, Error, Flag, Pattern, ScanMode, StreamingDatabase};

#[test]
fn test_pattern_compilation_errors() {
    // invalid expression syntax
    let result = BlockDatabase::new(vec![Pattern::new(b"[".to_vec(), Flag::default(), None)]);
    let err = result.expect_err("Expected error but got success");
    assert!(matches!(err, Error::HyperscanCompile(..)));

    // recursion is not supported
    let result = BlockDatabase::new(vec![Pattern::new(b"(?R)".to_vec(), Flag::default(), None)]);
    let err = result.expect_err("Expected error but got success");
    assert!(matches!(err, Error::HyperscanCompile(..)));

    // empty expression
    let result = BlockDatabase::new(vec![Pattern::new(b"".to_vec(), Flag::default(), None)]);
    let err = result.expect_err("Expected error but got success");
    assert!(matches!(err, Error::HyperscanCompile(..)));

    // expression with an interior NUL byte
    let result = BlockDatabase::new(vec![Pattern::new(
        b"test\0pattern".to_vec(),
        Flag::default(),
        None,
    )]);
    let err = result.expect_err("Expected error but got success");
    assert!(matches!(err, Error::Nul(_)));
}

#[should_panic]
#[test]
fn empty_database() {
    let _db = Database::new(vec![], ScanMode::Block).unwrap();
}

#[test]
fn compile_accepts_plain_patterns() {
    let patterns = vec![
        Pattern::new(b"hello".to_vec(), Flag::default(), None),
        Pattern::new(b"w[o0]rld".to_vec(), Flag::caseless(), Some(7)),
        Pattern::new(b"hello.*world".to_vec(), Flag::default(), None),
        Pattern::new(b"a\\)b".to_vec(), Flag::default(), None),
        Pattern::new(b"(?i)test".to_vec(), Flag::default(), None),
    ];
    assert!(Database::new(patterns, ScanMode::Block).is_ok());
}

#[test]
fn compile_rejects_each_malformed_expression() {
    for bad in [
        &b""[..],
        &b"["[..],
        &b"(ab"[..],
        &b"ab)"[..],
        &b"ab\\"[..],
        &b"\\1"[..],
        &b"(?R)"[..],
        &b"(?1)"[..],
    ] {
        let result = Database::new(
            vec![Pattern::new(bad.to_vec(), Flag::default(), None)],
            ScanMode::Block,
        );
        let err = result.expect_err("a malformed expression must be rejected");
        assert!(matches!(err, Error::HyperscanCompile(..)));
    }
}

#[test]
fn compile_error_names_the_offending_pattern() {
    let patterns = vec![
        Pattern::new(b"fine".to_vec(), Flag::default(), None),
        Pattern::new(b"als[o] f(in)e".to_vec(), Flag::default(), None),
        Pattern::new(b"broken(".to_vec(), Flag::default(), None),
    ];
    match Database::new(patterns, ScanMode::Block) {
        Err(Error::HyperscanCompile(message, index)) => {
            assert_eq!(index, 2);
            assert!(!message.is_empty());
        }
        other => panic!("expected a compile error, got {:?}", other.is_ok()),
    }
}

#[test]
fn nul_error_reports_the_first_nul_position() {
    let patterns = vec![
        Pattern::new(b"ok".to_vec(), Flag::default(), None),
        Pattern::new(b"ab\0c\0".to_vec(), Flag::default(), None),
    ];
    match Database::new(patterns, ScanMode::Block) {
        Err(Error::Nul(pos)) => assert_eq!(pos, 2),
        _ => panic!("expected a NUL error"),
    }
}

#[test]
fn database_size_counts_the_artifact_bytes() {
    let db = BlockDatabase::new(vec![Pattern::new(b"hello".to_vec(), Flag::default(), None)])
        .unwrap();
    // 4 magic + 4 mode + 8 count + (8 length + 5 expression + 4 flags + 4 id)
    assert_eq!(db.size().unwrap(), 37);
}

#[test]
fn serialized_round_trip_preserves_size() {
    let patterns = vec![
        Pattern::new(b"hello".to_vec(), Flag::default(), None),
        Pattern::new(b"world".to_vec(), Flag::caseless(), Some(3)),
    ];
    let db = Database::new(patterns, ScanMode::Block).unwrap();
    let db_size = db.size().unwrap();

    let sdb = db.serialize().unwrap();
    assert_eq!(sdb.deserialized_size().unwrap(), db_size);
    assert_eq!(sdb.len(), db_size);

    let db2 = sdb.deserialize().unwrap();
    assert_eq!(db2.size().unwrap(), db_size);
}

#[test]
fn clone_database() {
    let patterns = vec![Pattern::new(b"hello".to_vec(), Flag::default(), None)];
    let db = Database::new(patterns, ScanMode::Block).unwrap();
    let _dbs: Vec<Database> = (0..100).map(|_| db.clone()).collect();
    drop(db);
}

#[test]
fn dropping_the_original_leaves_the_clone_usable() {
    let db = BlockDatabase::new(vec![Pattern::new(b"hello".to_vec(), Flag::default(), None)])
        .unwrap();
    let size = db.size().unwrap();
    let copy = db.clone();
    drop(db);
    assert_eq!(copy.size().unwrap(), size);
    let mut scanner = copy.create_scanner().unwrap();
    let scanner2 = scanner.clone();
    drop(scanner2);
    let mut collector = vectorscan_rs::MatchCollector::new();
    let outcome = scanner.scan(&Vec::new(), &mut collector).unwrap();
    assert!(matches!(outcome, vectorscan_rs::Scan::Continue));
}

#[test]
fn stream_size_is_sized_per_pattern() {
    let patterns = vec![
        Pattern::new(b"hello".to_vec(), Flag::default(), None),
        Pattern::new(b"world".to_vec(), Flag::default(), None),
        Pattern::new(b"hello.*world".to_vec(), Flag::default(), None),
    ];
    let db = StreamingDatabase::new(patterns).unwrap();
    assert!(db.size().unwrap() > 0);
    assert_eq!(db.stream_size().unwrap(), 8 + 8 * 3);
}

#[test]
fn stream_size_needs_a_streaming_database() {
    let db = Database::new(
        vec![Pattern::new(b"hello".to_vec(), Flag::default(), None)],
        ScanMode::Block,
    )
    .unwrap();
    match db.stream_size() {
        Err(Error::Hyperscan(code, raw)) => {
            assert!(matches!(code, vectorscan_rs::HyperscanErrorCode::DbModeError));
            assert_eq!(raw, -7);
        }
        _ => panic!("expected a mode error"),
    }
}

#[test]
fn pattern_keeps_what_it_was_built_from() {
    let p = Pattern::new(b"ab".to_vec(), Flag::caseless().union(Flag::som_leftmost()), Some(9));
    assert_eq!(p.expression().as_slice(), b"ab");
    assert_eq!(p.flags().bits(), 1 | 256);
    assert_eq!(p.id(), Some(9));
}
