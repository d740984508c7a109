//! Synchronising reference entities into the sink.
//!
//! A batch of engines, markets or boards is written in one of two modes.
//! In bulk mode every record is inserted, whatever the sink holds. In
//! check-then-insert mode the sink is first asked, by natural key, how many
//! copies of a record it holds, and the record is inserted only where it
//! holds none. Asking and inserting are two separate calls to the sink: a
//! second writer between them can still leave a duplicate, which is
//! tolerated and not reported.
//!
//! The session below makes the decisions; the caller talks to the sink.

use vstd::prelude::*;

verus! {

/// How a batch is written.
#[derive(Debug, Clone, Copy, PartialEq, Eq, Structural)]
pub enum SyncMode {
    /// Insert every record.
    BulkInsert,
    /// Ask for each record, and insert it where the sink has none.
    CheckThenInsert,
}

/// What becomes of one record.
#[derive(Debug, Clone, Copy, PartialEq, Eq, Structural)]
pub enum SyncDecision {
    /// Write the record.
    Insert,
    /// Leave the record out: the sink has it.
    Skip,
}

/// What the caller does next.
#[derive(Debug, Clone, Copy, PartialEq, Eq, Structural)]
pub enum SyncStep {
    /// Ask the sink how many records it holds under the natural key of the
    /// record at `index`, and settle the record with the answer.
    Query { index: usize },
    /// Settle the record at `index` without asking: it is inserted.
    Insert { index: usize },
    /// Every record is settled.
    Done,
}

/// The tally of a session.
#[derive(Debug, Clone, Copy, PartialEq, Eq, Structural)]
pub struct SyncReport {
    pub inserted: usize,
    pub skipped: usize,
}

/// The walk over one batch: how many of its `total` records are settled, and
/// how many of those were inserted.
pub struct SyncSession {
    mode: SyncMode,
    total: usize,
    settled: usize,
    inserted: usize,
}

pub struct SyncView {
    pub mode: SyncMode,
    pub total: nat,
    pub settled: nat,
    pub inserted: nat,
}

/// The decision on a record of which the sink holds `existing` copies.
pub open spec fn decision_for(mode: SyncMode, existing: u64) -> SyncDecision {
    match mode {
        SyncMode::BulkInsert => SyncDecision::Insert,
        SyncMode::CheckThenInsert => if existing == 0 {
            SyncDecision::Insert
        } else {
            SyncDecision::Skip
        },
    }
}

/// A fresh session over `total` records.
pub open spec fn sync_start(mode: SyncMode, total: nat) -> SyncView {
    SyncView { mode, total, settled: 0, inserted: 0 }
}

/// The session after the next record is settled with the answer `existing`.
/// A session whose records are all settled stays as it is.
pub open spec fn sync_step(before: SyncView, existing: u64) -> SyncView {
    if before.settled >= before.total {
        before
    } else if decision_for(before.mode, existing) == SyncDecision::Insert {
        SyncView { settled: before.settled + 1, inserted: before.inserted + 1, ..before }
    } else {
        SyncView { settled: before.settled + 1, ..before }
    }
}

/// Decides on one record of which the sink holds `existing` copies. A
/// record is skipped only where the sink has it.
pub fn decide(mode: SyncMode, existing: u64) -> (decision: SyncDecision)
    ensures
        decision == decision_for(mode, existing),
        decision == SyncDecision::Skip ==> existing > 0,
{
    match mode {
        SyncMode::BulkInsert => SyncDecision::Insert,
        SyncMode::CheckThenInsert => if existing == 0 {
            SyncDecision::Insert
        } else {
            SyncDecision::Skip
        },
    }
}

impl View for SyncSession {
    type V = SyncView;

    closed spec fn view(&self) -> SyncView {
        SyncView {
            mode: self.mode,
            total: self.total as nat,
            settled: self.settled as nat,
            inserted: self.inserted as nat,
        }
    }
}

impl SyncSession {
    #[verifier::type_invariant]
    spec fn tally_in_bounds(self) -> bool {
        self.inserted <= self.settled <= self.total
    }

    /// Opens a session over a batch of `total` records.
    pub fn new(mode: SyncMode, total: usize) -> (session: SyncSession)
        ensures
            session@ == sync_start(mode, total as nat),
    {
        SyncSession { mode, total, settled: 0, inserted: 0 }
    }

    /// What the caller does next: in check-then-insert mode, ask about the
    /// next record; in bulk mode, insert it; after the last record, nothing.
    pub fn next_step(&self) -> (step: SyncStep)
        ensures
            step == if self@.settled >= self@.total {
                SyncStep::Done
            } else if self@.mode == SyncMode::BulkInsert {
                SyncStep::Insert { index: self@.settled as usize }
            } else {
                SyncStep::Query { index: self@.settled as usize }
            },
    {
        proof {
            use_type_invariant(self);
        }
        if self.settled >= self.total {
            SyncStep::Done
        } else {
            match self.mode {
                SyncMode::BulkInsert => SyncStep::Insert { index: self.settled },
                SyncMode::CheckThenInsert => SyncStep::Query { index: self.settled },
            }
        }
    }

    /// Settles the next record, of which the sink holds `existing` copies,
    /// and says what becomes of it; `None` once every record is settled. In
    /// bulk mode `existing` is not looked at.
    pub fn settle(&mut self, existing: u64) -> (decision: Option<SyncDecision>)
        ensures
            decision == if old(self)@.settled >= old(self)@.total {
                None
            } else {
                Some(decision_for(old(self)@.mode, existing))
            },
            final(self)@ == sync_step(old(self)@, existing),
    {
        proof {
            use_type_invariant(&*self);
        }
        if self.settled >= self.total {
            return None;
        }
        let decision = decide(self.mode, existing);
        self.settled = self.settled + 1;
        match decision {
            SyncDecision::Insert => {
                self.inserted = self.inserted + 1;
            },
            SyncDecision::Skip => {},
        }
        Some(decision)
    }

    /// The tally so far: records inserted, and records skipped because the
    /// sink had them.
    pub fn report(&self) -> (report: SyncReport)
        ensures
            report.inserted == self@.inserted,
            report.skipped == self@.settled - self@.inserted,
    {
        proof {
            use_type_invariant(self);
        }
        SyncReport { inserted: self.inserted, skipped: self.settled - self.inserted }
    }
}

/// The session over a batch of `answers.len()` records after the first
/// `count` of them are settled, record `i` with the answer `answers[i]`.
pub open spec fn sync_after(mode: SyncMode, answers: Seq<u64>, count: int) -> SyncView
    decreases count,
{
    if count <= 0 {
        sync_start(mode, answers.len())
    } else {
        sync_step(sync_after(mode, answers, count - 1), answers[count - 1])
    }
}

/// How many of the first `count` records the sink already holds.
pub open spec fn held_among(answers: Seq<u64>, count: int) -> nat
    decreases count,
{
    if count <= 0 {
        0
    } else if answers[count - 1] != 0 {
        held_among(answers, count - 1) + 1
    } else {
        held_among(answers, count - 1)
    }
}

/// Of a batch in which the sink holds `k` records and lacks `m`,
/// check-then-insert inserts exactly the `m` and skips exactly the `k`;
/// bulk insert inserts all `k + m` and skips none, whatever the sink holds.
pub proof fn lemma_sync_tally(mode: SyncMode, answers: Seq<u64>, count: int)
    requires
        0 <= count <= answers.len(),
    ensures
        sync_after(mode, answers, count).settled == count,
        sync_after(mode, answers, count).total == answers.len(),
        sync_after(mode, answers, count).mode == mode,
        held_among(answers, count) <= count,
        mode == SyncMode::CheckThenInsert ==> sync_after(mode, answers, count).inserted == count
            - held_among(answers, count),
        mode == SyncMode::BulkInsert ==> sync_after(mode, answers, count).inserted == count,
    decreases count,
{
    if count > 0 {
        lemma_sync_tally(mode, answers, count - 1);
    }
}

} // verus!
