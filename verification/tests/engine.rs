use mdboard_tui::model::PollHashes;
use mdboard_tui::sync::SyncEngine;

fn triple(b: &str, p: &str, d: &str) -> PollHashes {
    PollHashes { board: b.to_string(), prompts: p.to_string(), documents: d.to_string() }
}

#[test]
fn first_triple_is_absorbed_silently() {
    let mut eng = SyncEngine::new();
    let plan = eng.observe_triple(triple("h1", "p1", "d1"));
    assert!(plan.is_none());
}

#[test]
fn identical_triple_demands_nothing() {
    let mut eng = SyncEngine::new();
    assert!(eng.observe_triple(triple("h1", "p1", "d1")).is_none());
    let plan = eng.observe_triple(triple("h1", "p1", "d1"));
    assert!(plan.is_none());
    let plan = eng.observe_triple(triple("h1", "p1", "d1"));
    assert!(plan.is_none());
}

#[test]
fn board_change_refetches_board_and_activity_only() {
    let mut eng = SyncEngine::new();
    assert!(eng.observe_triple(triple("h1", "p1", "d1")).is_none());
    let plan = eng.observe_triple(triple("h2", "p1", "d1")).expect("a change demands a plan");
    assert!(plan.board);
    assert!(!plan.prompts);
    assert!(!plan.documents);
    assert_eq!(plan.hashes.board, "h2");
    assert_eq!(plan.hashes.prompts, "p1");
    assert_eq!(plan.hashes.documents, "d1");
}

#[test]
fn all_three_changes_are_reported_together() {
    let mut eng = SyncEngine::new();
    assert!(eng.observe_triple(triple("a", "b", "c")).is_none());
    let plan = eng.observe_triple(triple("x", "y", "z")).expect("a change demands a plan");
    assert!(plan.board && plan.prompts && plan.documents);
}

#[test]
fn one_loss_per_drop_one_restore_per_reconnect() {
    let mut eng = SyncEngine::new();
    // First successful open: already connected, nothing announced.
    assert!(!eng.on_stream_open());
    // The stream drops: exactly one loss.
    assert!(eng.on_stream_closed());
    // A failed retry: silent.
    assert!(!eng.on_stream_closed());
    assert!(!eng.on_stream_closed());
    // The first successful reopen: exactly one restore.
    assert!(eng.on_stream_open());
    // And a second open while connected announces nothing.
    assert!(!eng.on_stream_open());
}

#[test]
fn reopen_forgets_the_last_triple() {
    let mut eng = SyncEngine::new();
    assert!(eng.observe_triple(triple("h1", "p1", "d1")).is_none());
    eng.on_stream_closed();
    eng.on_stream_open();
    // The first triple of the new stream is absorbed silently again.
    assert!(eng.observe_triple(triple("h9", "p9", "d9")).is_none());
}

#[test]
fn stream_blocks_parse_and_diff() {
    let mut eng = SyncEngine::new();
    let init = b"event: init\ndata: {\"board\":\"h1\",\"prompts\":\"p1\",\"documents\":\"d1\"}\n\n";
    let plans = eng.ingest_chunk(init);
    assert_eq!(plans.len(), 0);
    let changed =
        b"event: changed\ndata: {\"board\":\"h2\",\"prompts\":\"p1\",\"documents\":\"d1\"}\n\n";
    let plans = eng.ingest_chunk(changed);
    assert_eq!(plans.len(), 1);
    assert!(plans[0].board);
    assert!(!plans[0].prompts);
    assert!(!plans[0].documents);
    assert_eq!(plans[0].hashes.board, "h2");
}

#[test]
fn heartbeats_and_unknown_events_are_ignored() {
    let mut eng = SyncEngine::new();
    let init = b"event: init\ndata: {\"board\":\"h1\",\"prompts\":\"p1\",\"documents\":\"d1\"}\n\n";
    assert_eq!(eng.ingest_chunk(init).len(), 0);
    let noise = b": heartbeat\n\nevent: other\ndata: {\"board\":\"x\",\"prompts\":\"y\",\"documents\":\"z\"}\n\nnonsense\n\n";
    assert_eq!(eng.ingest_chunk(noise).len(), 0);
    // The ignored blocks did not disturb the remembered triple.
    let same = b"event: changed\ndata: {\"board\":\"h1\",\"prompts\":\"p1\",\"documents\":\"d1\"}\n\n";
    assert_eq!(eng.ingest_chunk(same).len(), 0);
}

#[test]
fn malformed_payloads_are_ignored() {
    let mut eng = SyncEngine::new();
    let bad = b"event: changed\ndata: {\"board\": 3}\n\nevent: changed\ndata: not json\n\n";
    assert_eq!(eng.ingest_chunk(bad).len(), 0);
}

#[test]
fn blocks_split_across_chunks_are_buffered() {
    let mut eng = SyncEngine::new();
    let whole = "event: init\ndata: {\"board\":\"h1\",\"prompts\":\"p1\",\"documents\":\"d1\"}\n\nevent: changed\ndata: {\"board\":\"h1\",\"prompts\":\"p2\",\"documents\":\"d1\"}\n\n";
    let bytes = whole.as_bytes();
    let mut all = Vec::new();
    for chunk in bytes.chunks(7) {
        let mut plans = eng.ingest_chunk(chunk);
        all.append(&mut plans);
    }
    assert_eq!(all.len(), 1);
    assert!(!all[0].board);
    assert!(all[0].prompts);
    assert!(!all[0].documents);
    assert_eq!(all[0].hashes.prompts, "p2");
}

#[test]
fn later_lines_of_a_block_win() {
    let mut eng = SyncEngine::new();
    let init = b"event: init\ndata: {\"board\":\"h1\",\"prompts\":\"p1\",\"documents\":\"d1\"}\n\n";
    assert_eq!(eng.ingest_chunk(init).len(), 0);
    // Two data lines: the second is the one that counts.
    let twice = b"event: changed\ndata: {\"board\":\"zz\",\"prompts\":\"p1\",\"documents\":\"d1\"}\ndata: {\"board\":\"h3\",\"prompts\":\"p1\",\"documents\":\"d1\"}\n\n";
    let plans = eng.ingest_chunk(twice);
    assert_eq!(plans.len(), 1);
    assert_eq!(plans[0].hashes.board, "h3");
}

#[test]
fn payload_values_are_trimmed() {
    let mut eng = SyncEngine::new();
    let init =
        b"event:  init \ndata:  {\"board\":\"h1\",\"prompts\":\"p1\",\"documents\":\"d1\"} \r\n\n";
    assert_eq!(eng.ingest_chunk(init).len(), 0);
    let changed = b"event: changed\ndata: {\"board\":\"h2\",\"prompts\":\"p1\",\"documents\":\"d1\"}\n\n";
    let plans = eng.ingest_chunk(changed);
    assert_eq!(plans.len(), 1);
    assert!(plans[0].board);
}
