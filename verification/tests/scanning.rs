use vectorscan_rs::{
    AsResult, BlockDatabase, Error, Flag, HyperscanErrorCode, MatchCollector, MatchEvent, Pattern,
    Scan, StreamingDatabase, callback_code, classify_code, scan_outcome,
};

fn event(id: u32, from: u64, to: u64) -> MatchEvent {
    MatchEvent { id, from, to, flags: 0 }
}

// What the engine reports for the patterns {"test", "pattern"} over the
// input "test pattern test pattern": end offsets of each occurrence, start
// offsets 0 without start-of-match tracking.
fn four_matches() -> Vec<MatchEvent> {
    vec![event(0, 0, 4), event(1, 0, 12), event(0, 0, 17), event(1, 0, 25)]
}

#[test]
fn continuing_callback_sees_every_match_in_order() {
    let db = BlockDatabase::new(vec![
        Pattern::new(b"test".to_vec(), Flag::default(), None),
        Pattern::new(b"pattern".to_vec(), Flag::default(), None),
    ])
    .unwrap();
    let mut scanner = db.create_scanner().unwrap();
    let mut collector = MatchCollector::new();
    let outcome = scanner.scan(&four_matches(), &mut collector).unwrap();
    assert!(matches!(outcome, Scan::Continue));
    assert_eq!(collector.matches().as_slice(), four_matches().as_slice());
    assert_eq!(collector.count(), 4);
}

#[test]
fn terminating_on_the_second_match_stops_after_two() {
    let db = BlockDatabase::new(vec![
        Pattern::new(b"test".to_vec(), Flag::default(), None),
        Pattern::new(b"pattern".to_vec(), Flag::default(), None),
    ])
    .unwrap();
    let mut scanner = db.create_scanner().unwrap();
    let mut collector = MatchCollector::with_limit(2);
    let outcome = scanner.scan(&four_matches(), &mut collector).unwrap();
    assert!(matches!(outcome, Scan::Terminate));
    assert_eq!(collector.count(), 2);
    assert_eq!(collector.matches().as_slice(), &four_matches()[..2]);
}

#[test]
fn stream_session_joins_chunk_reports_in_order() {
    let db = StreamingDatabase::new(vec![Pattern::new(b"hello".to_vec(), Flag::default(), None)])
        .unwrap();
    let scanner = db.create_scanner().unwrap();
    let mut stream = scanner.open_stream().unwrap();
    let mut collector = MatchCollector::new();

    // chunk "hel": nothing complete yet
    let outcome = stream.scan(&Vec::new(), &mut collector).unwrap();
    assert!(matches!(outcome, Scan::Continue));
    assert_eq!(collector.count(), 0);

    // chunk "lo hello": both occurrences complete here
    let second = vec![event(0, 0, 5), event(0, 0, 11)];
    let outcome = stream.scan(&second, &mut collector).unwrap();
    assert!(matches!(outcome, Scan::Continue));
    assert_eq!(collector.matches().as_slice(), second.as_slice());

    // nothing is pending at end of data
    let outcome = stream.close(&Vec::new(), &mut collector).unwrap();
    assert!(matches!(outcome, Scan::Continue));
    assert_eq!(collector.matches().as_slice(), second.as_slice());
}

#[test]
fn stream_session_can_terminate_early_and_still_close() {
    let db = StreamingDatabase::new(vec![Pattern::new(b"a".to_vec(), Flag::default(), None)])
        .unwrap();
    let scanner = db.create_scanner().unwrap();
    let mut stream = scanner.open_stream().unwrap();
    let mut collector = MatchCollector::with_limit(1);
    let events = vec![event(0, 0, 1), event(0, 0, 2), event(0, 0, 3)];
    let outcome = stream.scan(&events, &mut collector).unwrap();
    assert!(matches!(outcome, Scan::Terminate));
    assert_eq!(collector.count(), 1);
    let outcome = stream.close(&Vec::new(), &mut collector).unwrap();
    assert!(matches!(outcome, Scan::Continue));
    assert_eq!(collector.count(), 1);
}

#[test]
fn status_codes_classify_and_wrap() {
    assert!(matches!(classify_code(-3), HyperscanErrorCode::ScanTerminated));
    assert!(matches!(classify_code(-4), HyperscanErrorCode::CompilerError));
    assert!(matches!(classify_code(-99), HyperscanErrorCode::Unknown));

    assert!(0i32.ok().is_ok());
    match (-1i32).ok() {
        Err(Error::Hyperscan(code, raw)) => {
            assert!(matches!(code, HyperscanErrorCode::Invalid));
            assert_eq!(raw, -1);
        }
        _ => panic!("a non-zero status must wrap into an error"),
    }
}

#[test]
fn termination_status_is_an_outcome_not_an_error() {
    let r = scan_outcome(Err(Error::Hyperscan(HyperscanErrorCode::ScanTerminated, -3)));
    assert!(matches!(r, Ok(Scan::Terminate)));

    let r = scan_outcome(Ok(()));
    assert!(matches!(r, Ok(Scan::Continue)));

    let r = scan_outcome(Err(Error::Hyperscan(HyperscanErrorCode::NoMemory, -2)));
    assert!(matches!(r, Err(Error::Hyperscan(HyperscanErrorCode::NoMemory, -2))));
}

#[test]
fn callback_codes_follow_the_protocol() {
    assert_eq!(callback_code(Scan::Continue), 0);
    assert_eq!(callback_code(Scan::Terminate), 1);
}

#[test]
fn flags_compose_as_bit_sets() {
    assert_eq!(Flag::default().bits(), 0);
    assert_eq!(Flag::none().bits(), 0);
    assert_eq!(Flag::caseless().bits(), 1);
    assert_eq!(Flag::som_leftmost().bits(), 256);
    let both = Flag::caseless().union(Flag::som_leftmost());
    assert_eq!(both.bits(), 257);
    assert!(both.contains(Flag::caseless()));
    assert!(!Flag::caseless().contains(both));
    assert_eq!(Flag::from_bits(1024).bits(), 1024);
}

#[test]
fn scratch_sizes_follow_their_database() {
    let db = vectorscan_rs::Database::new(
        vec![Pattern::new(b"hello".to_vec(), Flag::default(), None)],
        vectorscan_rs::ScanMode::Block,
    )
    .unwrap();
    let scratch = vectorscan_rs::Scratch::new(&db).unwrap();
    assert_eq!(scratch.size().unwrap(), db.size().unwrap());
    let twin = scratch.clone();
    drop(scratch);
    assert_eq!(twin.size().unwrap(), db.size().unwrap());
}

#[test]
fn scanner_clones_scan_independently() {
    let db = BlockDatabase::new(vec![Pattern::new(b"hello".to_vec(), Flag::default(), None)])
        .unwrap();
    let mut scanner = db.create_scanner().unwrap();
    let mut twin = scanner.clone();
    let events = vec![event(0, 0, 5)];
    let mut a = MatchCollector::new();
    let mut b = MatchCollector::new();
    assert!(matches!(scanner.scan(&events, &mut a).unwrap(), Scan::Continue));
    drop(scanner);
    assert!(matches!(twin.scan(&events, &mut b).unwrap(), Scan::Continue));
    assert_eq!(a.matches().as_slice(), b.matches().as_slice());
}
