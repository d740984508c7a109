use anselm_scribe::sync::{decide, SyncDecision, SyncMode, SyncReport, SyncSession, SyncStep};

fn run(mode: SyncMode, answers: &[u64]) -> (Vec<SyncStep>, Vec<SyncDecision>, SyncReport) {
    let mut session = SyncSession::new(mode, answers.len());
    let mut steps = Vec::new();
    let mut decisions = Vec::new();
    loop {
        let step = session.next_step();
        steps.push(step);
        match step {
            SyncStep::Query { index } => decisions.push(session.settle(answers[index]).unwrap()),
            SyncStep::Insert { .. } => decisions.push(session.settle(0).unwrap()),
            SyncStep::Done => break,
        }
    }
    (steps, decisions, session.report())
}

#[test]
fn check_then_insert_writes_only_what_the_sink_lacks() {
    let (steps, decisions, report) = run(SyncMode::CheckThenInsert, &[1, 0, 2, 0, 0]);
    assert_eq!(
        steps,
        vec![
            SyncStep::Query { index: 0 },
            SyncStep::Query { index: 1 },
            SyncStep::Query { index: 2 },
            SyncStep::Query { index: 3 },
            SyncStep::Query { index: 4 },
            SyncStep::Done,
        ]
    );
    assert_eq!(
        decisions,
        vec![
            SyncDecision::Skip,
            SyncDecision::Insert,
            SyncDecision::Skip,
            SyncDecision::Insert,
            SyncDecision::Insert,
        ]
    );
    assert_eq!(report, SyncReport { inserted: 3, skipped: 2 });
}

#[test]
fn bulk_insert_writes_every_record_whatever_the_sink_holds() {
    let mut session = SyncSession::new(SyncMode::BulkInsert, 5);
    let answers = [1u64, 0, 2, 0, 0];
    for (index, answer) in answers.iter().enumerate() {
        assert_eq!(session.next_step(), SyncStep::Insert { index });
        assert_eq!(session.settle(*answer), Some(SyncDecision::Insert));
    }
    assert_eq!(session.next_step(), SyncStep::Done);
    assert_eq!(session.report(), SyncReport { inserted: 5, skipped: 0 });
}

#[test]
fn tally_counts_duplicates_and_new_keys() {
    for k in 0..6usize {
        for m in 0..6usize {
            let mut answers = vec![3u64; k];
            answers.extend(vec![0u64; m]);
            let (_, _, report) = run(SyncMode::CheckThenInsert, &answers);
            assert_eq!(report, SyncReport { inserted: m, skipped: k });
            let (_, _, report) = run(SyncMode::BulkInsert, &answers);
            assert_eq!(report, SyncReport { inserted: k + m, skipped: 0 });
        }
    }
}

#[test]
fn empty_batch_is_done_at_once() {
    let mut session = SyncSession::new(SyncMode::CheckThenInsert, 0);
    assert_eq!(session.next_step(), SyncStep::Done);
    assert_eq!(session.settle(0), None);
    assert_eq!(session.report(), SyncReport { inserted: 0, skipped: 0 });
}

#[test]
fn settled_session_takes_no_more_answers() {
    let mut session = SyncSession::new(SyncMode::CheckThenInsert, 1);
    assert_eq!(session.settle(0), Some(SyncDecision::Insert));
    assert_eq!(session.settle(0), None);
    assert_eq!(session.settle(7), None);
    assert_eq!(session.report(), SyncReport { inserted: 1, skipped: 0 });
}

#[test]
fn one_record_is_decided_by_mode_and_count() {
    assert_eq!(decide(SyncMode::CheckThenInsert, 0), SyncDecision::Insert);
    assert_eq!(decide(SyncMode::CheckThenInsert, 1), SyncDecision::Skip);
    assert_eq!(decide(SyncMode::CheckThenInsert, u64::MAX), SyncDecision::Skip);
    assert_eq!(decide(SyncMode::BulkInsert, 0), SyncDecision::Insert);
    assert_eq!(decide(SyncMode::BulkInsert, 9), SyncDecision::Insert);
}
