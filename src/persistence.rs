use vstd::prelude::*;
use crate::state::{MetricsData, MetricsState, TotalMetrics};

verus! {

/// One persistence tick: snapshots and resets the interval counters, merges the
/// snapshot into the totals, and hands the snapshot out for storage unless it is empty.
pub fn persistence_tick(state: &mut MetricsState) -> (r: Option<MetricsData>)
    ensures
        final(state).interval == old(state).interval.reset_spec().1,
        final(state).total == old(state).total.merged(old(state).interval.reset_spec().0),
        final(state).latest_mouse_x == old(state).latest_mouse_x,
        final(state).latest_mouse_y == old(state).latest_mouse_y,
        final(state).last_calc_mouse_x == old(state).last_calc_mouse_x,
        final(state).last_calc_mouse_y == old(state).last_calc_mouse_y,
        old(state).interval.snapshot().is_empty_spec() ==> r.is_none(),
        !old(state).interval.snapshot().is_empty_spec() ==> r == Some(old(state).interval.snapshot()),
{
    let delta = state.interval.reset();
    state.total.add_interval(&delta);
    if delta.is_empty() {
        None
    } else {
        Some(delta)
    }
}

/// What reading stored totals gave.
#[derive(Clone, Copy, Debug, PartialEq, Eq, Structural)]
pub enum StoredTotals {
    Found(TotalMetrics),
    /// The store holds no such data.
    Absent,
    /// The read failed.
    Unreadable,
}

/// Totals from stored column values; a negative count is read as zero.
pub fn totals_from_columns(keys: i64, clicks: i64, scrolls: i64, distance_micro_in: u64) -> (r: TotalMetrics)
    ensures
        r.keypresses == (if keys > 0 { keys as u64 } else { 0 }),
        r.mouse_clicks == (if clicks > 0 { clicks as u64 } else { 0 }),
        r.scroll_steps == (if scrolls > 0 { scrolls as u64 } else { 0 }),
        r.mouse_distance_micro_in == distance_micro_in,
{
    TotalMetrics {
        keypresses: if keys > 0 { keys as u64 } else { 0 },
        mouse_clicks: if clicks > 0 { clicks as u64 } else { 0 },
        scroll_steps: if scrolls > 0 { scrolls as u64 } else { 0 },
        mouse_distance_micro_in: distance_micro_in,
    }
}

/// First startup step: the summary row's totals when it could be read; `None` when the
/// raw history has to be aggregated instead.
pub fn load_initial_totals_from_summary(summary: StoredTotals) -> (r: Option<TotalMetrics>)
    ensures
        match summary {
            StoredTotals::Found(t) => r == Some(t),
            _ => r.is_none(),
        },
{
    match summary {
        StoredTotals::Found(t) => Some(t),
        _ => None,
    }
}

/// Second startup step: the aggregated history, or zero when there is none or it
/// cannot be read. Startup never fails for want of totals.
pub fn load_initial_totals_from_metrics(history: StoredTotals) -> (r: TotalMetrics)
    ensures
        match history {
            StoredTotals::Found(t) => r == t,
            _ => r == TotalMetrics::zero_spec(),
        },
{
    match history {
        StoredTotals::Found(t) => t,
        _ => TotalMetrics::new(),
    }
}

/// Seeds the lifetime totals with what was loaded at startup.
pub fn seed_totals(state: &mut MetricsState, totals: TotalMetrics)
    ensures
        *final(state) == (MetricsState { total: totals, ..*old(state) }),
{
    state.total = totals;
}

/// Where one store's transaction for a delta stands.
#[derive(Clone, Copy, Debug, PartialEq, Eq, Structural)]
pub enum TxPhase {
    /// The transaction is to be opened.
    Beginning,
    /// The raw metrics row is to be inserted.
    Inserting,
    /// The summary row is to be advanced by the delta.
    Summarizing,
    /// Both writes succeeded; the transaction is to be committed.
    Committing,
    /// A write failed; the transaction is to be rolled back.
    RollingBack,
    /// Finished; `true` when the transaction committed.
    Done(bool),
}

/// What the store is asked to do next.
#[derive(Clone, Copy, Debug, PartialEq, Eq, Structural)]
pub enum TxAction {
    Begin,
    InsertMetricsRow,
    ApplySummaryDelta,
    Commit,
    Rollback,
}

pub open spec fn action_of(phase: TxPhase) -> Option<TxAction> {
    match phase {
        TxPhase::Beginning => Some(TxAction::Begin),
        TxPhase::Inserting => Some(TxAction::InsertMetricsRow),
        TxPhase::Summarizing => Some(TxAction::ApplySummaryDelta),
        TxPhase::Committing => Some(TxAction::Commit),
        TxPhase::RollingBack => Some(TxAction::Rollback),
        TxPhase::Done(_) => None,
    }
}

/// The phase that follows once the pending action succeeded (`ok`) or failed.
pub open spec fn next_phase(phase: TxPhase, ok: bool) -> TxPhase {
    match phase {
        TxPhase::Beginning => if ok { TxPhase::Inserting } else { TxPhase::Done(false) },
        TxPhase::Inserting => if ok { TxPhase::Summarizing } else { TxPhase::RollingBack },
        TxPhase::Summarizing => if ok { TxPhase::Committing } else { TxPhase::RollingBack },
        TxPhase::Committing => TxPhase::Done(ok),
        TxPhase::RollingBack => TxPhase::Done(false),
        TxPhase::Done(c) => TxPhase::Done(c),
    }
}

/// The phase reached from `phase` after actions with the given outcomes, in order.
pub open spec fn run_phases(phase: TxPhase, outcomes: Seq<bool>) -> TxPhase
    decreases outcomes.len(),
{
    if outcomes.len() == 0 {
        phase
    } else {
        run_phases(next_phase(phase, outcomes[0]), outcomes.drop_first())
    }
}

/// The action that the store must perform in this phase; `None` once finished.
pub fn transaction_action(phase: TxPhase) -> (r: Option<TxAction>)
    ensures
        r == action_of(phase),
{
    match phase {
        TxPhase::Beginning => Some(TxAction::Begin),
        TxPhase::Inserting => Some(TxAction::InsertMetricsRow),
        TxPhase::Summarizing => Some(TxAction::ApplySummaryDelta),
        TxPhase::Committing => Some(TxAction::Commit),
        TxPhase::RollingBack => Some(TxAction::Rollback),
        TxPhase::Done(_) => None,
    }
}

/// Advances a transaction by the outcome of its pending action: a failed write leads to
/// a rollback, and only a transaction whose row insert and summary update both
/// succeeded is committed.
pub fn after_action(phase: TxPhase, ok: bool) -> (r: TxPhase)
    ensures
        r == next_phase(phase, ok),
{
    match phase {
        TxPhase::Beginning => if ok { TxPhase::Inserting } else { TxPhase::Done(false) },
        TxPhase::Inserting => if ok { TxPhase::Summarizing } else { TxPhase::RollingBack },
        TxPhase::Summarizing => if ok { TxPhase::Committing } else { TxPhase::RollingBack },
        TxPhase::Committing => TxPhase::Done(ok),
        TxPhase::RollingBack => TxPhase::Done(false),
        TxPhase::Done(c) => TxPhase::Done(c),
    }
}

proof fn lemma_rollback_never_commits(phase: TxPhase, outcomes: Seq<bool>)
    requires
        phase == TxPhase::RollingBack || phase == TxPhase::Done(false),
    ensures
        run_phases(phase, outcomes) == TxPhase::RollingBack || run_phases(phase, outcomes) == TxPhase::Done(false),
        outcomes.len() > 0 ==> run_phases(phase, outcomes) == TxPhase::Done(false),
    decreases outcomes.len(),
{
    if outcomes.len() > 0 {
        lemma_rollback_never_commits(next_phase(phase, outcomes[0]), outcomes.drop_first());
    }
}

/// Actions left before a commit, counting the commit itself.
pub open spec fn steps_to_commit(phase: TxPhase) -> int {
    match phase {
        TxPhase::Beginning => 4,
        TxPhase::Inserting => 3,
        TxPhase::Summarizing => 2,
        TxPhase::Committing => 1,
        _ => 0,
    }
}

/// Atomicity: when the row insert succeeds and the summary update then fails, the next
/// action is a rollback and the transaction never commits, whatever follows.
pub proof fn lemma_summary_failure_rolls_back(outcomes: Seq<bool>)
    requires
        outcomes.len() >= 3,
        outcomes[0],
        outcomes[1],
        !outcomes[2],
    ensures
        run_phases(TxPhase::Beginning, outcomes.take(3)) == TxPhase::RollingBack,
        action_of(run_phases(TxPhase::Beginning, outcomes.take(3))) == Some(TxAction::Rollback),
        run_phases(TxPhase::Beginning, outcomes) != TxPhase::Done(true),
{
    let t = outcomes.take(3);
    let t1 = t.drop_first();
    let t2 = t1.drop_first();
    let t3 = t2.drop_first();
    assert(t[0] && t1[0] && !t2[0] && t3.len() == 0);
    assert(run_phases(TxPhase::RollingBack, t3) == TxPhase::RollingBack);
    assert(run_phases(TxPhase::Summarizing, t2) == run_phases(TxPhase::RollingBack, t3));
    assert(run_phases(TxPhase::Inserting, t1) == run_phases(TxPhase::Summarizing, t2));
    assert(run_phases(TxPhase::Beginning, t) == run_phases(TxPhase::Inserting, t1));
    let o1 = outcomes.drop_first();
    let o2 = o1.drop_first();
    let o3 = o2.drop_first();
    assert(o1[0] && !o2[0]);
    assert(run_phases(TxPhase::Summarizing, o2) == run_phases(TxPhase::RollingBack, o3));
    assert(run_phases(TxPhase::Inserting, o1) == run_phases(TxPhase::Summarizing, o2));
    assert(run_phases(TxPhase::Beginning, outcomes) == run_phases(TxPhase::Inserting, o1));
    lemma_rollback_never_commits(TxPhase::RollingBack, o3);
}

proof fn lemma_commit_path(phase: TxPhase, outcomes: Seq<bool>)
    requires
        run_phases(phase, outcomes) == TxPhase::Done(true),
        phase != TxPhase::Done(true),
    ensures
        outcomes.len() >= steps_to_commit(phase) >= 1,
        forall|i: int| 0 <= i < steps_to_commit(phase) ==> outcomes[i],
    decreases outcomes.len(),
{
    if phase == TxPhase::RollingBack || phase == TxPhase::Done(false) {
        lemma_rollback_never_commits(phase, outcomes);
    } else if outcomes.len() == 0 {
    } else {
        let rest = outcomes.drop_first();
        let nxt = next_phase(phase, outcomes[0]);
        if nxt == TxPhase::RollingBack || nxt == TxPhase::Done(false) {
            lemma_rollback_never_commits(nxt, rest);
        } else if nxt == TxPhase::Done(true) {
            assert(phase == TxPhase::Committing && outcomes[0]);
        } else {
            lemma_commit_path(nxt, rest);
            assert forall|i: int| 0 <= i < steps_to_commit(phase) implies outcomes[i] by {
                if i > 0 {
                    assert(outcomes[i] == rest[i - 1]);
                }
            }
        }
    }
}

/// A transaction commits only after its begin, row insert, summary update and commit
/// all succeeded.
pub proof fn lemma_commit_needs_both_writes(outcomes: Seq<bool>)
    requires
        run_phases(TxPhase::Beginning, outcomes) == TxPhase::Done(true),
    ensures
        outcomes.len() >= 4,
        outcomes[0] && outcomes[1] && outcomes[2] && outcomes[3],
{
    lemma_commit_path(TxPhase::Beginning, outcomes);
}

} // verus!
