//! Laws of the lifecycle as a whole: what holds of every sequence of
//! commands, proved from what each single command guarantees.
use vstd::prelude::*;
use crate::msg::{status_step_ok, LaunchStatus};

verus! {

/// Over one valid step, the rank never falls.
proof fn lemma_rank_le_pair(trace: Seq<LaunchStatus>, i: int, j: int)
    requires
        forall|k: int|
            0 <= k < trace.len() - 1 ==> status_step_ok(#[trigger] trace[k], trace[k + 1]),
        0 <= i <= j < trace.len(),
    ensures
        trace[i].rank() <= trace[j].rank(),
    decreases j - i,
{
    if i < j {
        lemma_rank_le_pair(trace, i, j - 1);
        assert(status_step_ok(trace[j - 1], trace[j]));
    }
}

/// Law: status progression is monotonic. Along any sequence of statuses a
/// launch takes — one entry per command that touched it, each command
/// moving the status at most one step forward — the status never moves
/// back: a later status never ranks below an earlier one, a launch once
/// `Completed` stays `Completed`, and no single command takes a launch from
/// `Created` straight to `InProgress`.
pub proof fn lemma_status_monotonic(trace: Seq<LaunchStatus>)
    requires
        forall|k: int|
            0 <= k < trace.len() - 1 ==> status_step_ok(#[trigger] trace[k], trace[k + 1]),
    ensures
        forall|i: int, j: int|
            0 <= i <= j < trace.len() ==> (#[trigger] trace[i]).rank() <= (#[trigger] trace[j]).rank(),
        forall|i: int, j: int|
            0 <= i <= j < trace.len() && #[trigger] trace[i] == LaunchStatus::Completed
                ==> #[trigger] trace[j] == LaunchStatus::Completed,
        forall|k: int|
            0 <= k < trace.len() - 1 && #[trigger] trace[k] == LaunchStatus::Created ==> trace[k
                + 1] != LaunchStatus::InProgress,
{
    assert forall|i: int, j: int| 0 <= i <= j < trace.len() implies (#[trigger] trace[i]).rank()
        <= (#[trigger] trace[j]).rank() by {
        lemma_rank_le_pair(trace, i, j);
    }
    assert forall|i: int, j: int|
        0 <= i <= j < trace.len() && #[trigger] trace[i] == LaunchStatus::Completed
        implies #[trigger] trace[j] == LaunchStatus::Completed by {
        lemma_rank_le_pair(trace, i, j);
    }
}

} // verus!
