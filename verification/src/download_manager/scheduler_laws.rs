//! What holds of the scheduler over whole histories of requests.

use crate::download_manager::executor::DownloadErrorView;
use crate::download_manager::scheduler::{
    cancel_requested,
    complete_effects,
    report_of,
    requeued,
    start_plan,
    stop_effects,
    EffectView,
    JobLookupView,
    ManagerView,
    Report,
    StartErrorView,
};
use crate::db::DownloadStatus;
use crate::events::DownlinkEventView;
use vstd::prelude::*;

verus! {

/// One request to the scheduler, or the end of a run.
pub enum Request {
    Start(u128, JobLookupView),
    Stop(u128),
    Cancel(u128),
    Retry(u128, JobLookupView),
    Complete(u128),
    Shutdown,
}

/// The scheduler after one request.
pub open spec fn step(s: ManagerView, request: Request) -> ManagerView {
    match request {
        Request::Start(id, job) => s.after_start(id, job),
        Request::Stop(_) => s,
        Request::Cancel(id) => s.after_cancel(id),
        Request::Retry(id, job) => s.after_start(id, requeued(job)),
        Request::Complete(id) => s.after_complete(id),
        Request::Shutdown => s,
    }
}

/// The scheduler after a history of requests.
pub open spec fn run(s: ManagerView, history: Seq<Request>) -> ManagerView
    decreases history.len(),
{
    if history.len() == 0 {
        s
    } else {
        step(run(s, history.drop_last()), history.last())
    }
}

/// One request keeps the active set within the limit.
pub proof fn lemma_step_keeps_limit(s: ManagerView, request: Request)
    requires
        s.wf(),
    ensures
        step(s, request).wf(),
        step(s, request).limit == s.limit,
{
    match request {
        Request::Start(id, job) => {},
        Request::Stop(_) => {},
        Request::Cancel(id) => {
            if s.is_active(id) {
                assert(s.active.insert(id, true).dom() =~= s.active.dom());
            }
        },
        Request::Retry(id, job) => {},
        Request::Complete(id) => {},
        Request::Shutdown => {},
    }
}

/// Whatever is asked of the scheduler, in whatever order, the active set
/// never holds more jobs than the limit allows.
pub proof fn lemma_limit_holds(s: ManagerView, history: Seq<Request>)
    requires
        s.wf(),
    ensures
        run(s, history).wf(),
        run(s, history).limit == s.limit,
        run(s, history).active.len() <= s.limit,
    decreases history.len(),
{
    if history.len() > 0 {
        lemma_limit_holds(s, history.drop_last());
        lemma_step_keeps_limit(run(s, history.drop_last()), history.last());
    }
}

/// Stopping a job that is not active changes nothing and asks for nothing.
pub proof fn lemma_stop_inactive_is_noop(s: ManagerView, id: u128)
    requires
        !s.is_active(id),
    ensures
        step(s, Request::Stop(id)) == s,
        stop_effects(s, id) == Seq::<EffectView>::empty(),
{
}

/// Starting a job that is active already changes nothing, asks for nothing
/// and is no error, whatever the store says of the job.
pub proof fn lemma_start_active_is_noop(s: ManagerView, id: u128, job: JobLookupView)
    requires
        s.is_active(id),
    ensures
        step(s, Request::Start(id, job)) == s,
        start_plan(s, id, job) == Ok::<Seq<EffectView>, StartErrorView>(Seq::empty()),
{
}

/// Whether a history holds the end of the run of a job.
pub open spec fn ends_run(history: Seq<Request>, id: u128) -> bool {
    exists|i: int| 0 <= i < history.len() && #[trigger] history[i] == Request::Complete(id)
}

/// Once the cancellation of a running job has been asked for, it stays
/// asked for until the run ends.
pub proof fn lemma_cancel_sticks(s: ManagerView, id: u128, history: Seq<Request>)
    requires
        cancel_requested(s, id),
        !ends_run(history, id),
    ensures
        cancel_requested(run(s, history), id),
    decreases history.len(),
{
    if history.len() > 0 {
        let init = history.drop_last();
        assert forall|i: int| 0 <= i < init.len() implies #[trigger] init[i] != Request::Complete(
            id,
        ) by {
            assert(init[i] == history[i]);
        }
        lemma_cancel_sticks(s, id, init);
        assert(history[history.len() - 1] != Request::Complete(id));
    }
}

/// Whether the effects of a report tell of a run that is done.
pub open spec fn tells_done(effects: Seq<EffectView>, id: u128) -> bool {
    exists|i: int|
        0 <= i < effects.len() && (#[trigger] effects[i] matches EffectView::SetStatus {
            status: DownloadStatus::Done,
            ..
        } || effects[i] matches EffectView::Emit(DownlinkEventView::DownloadCompleted { .. }))
}

/// Whether the effects of a report tell of a run that is canceled.
pub open spec fn tells_canceled(effects: Seq<EffectView>, id: u128) -> bool {
    exists|i: int|
        0 <= i < effects.len() && (#[trigger] effects[i] matches EffectView::SetStatus {
            status: DownloadStatus::Canceled,
            ..
        } || effects[i] matches EffectView::Emit(DownlinkEventView::DownloadCanceled { .. }))
}

/// A run whose cancellation was asked for is reported canceled and never
/// done, however its executor came out.
pub proof fn lemma_canceled_is_never_done(
    s: ManagerView,
    id: u128,
    outcome: Result<Option<Seq<char>>, DownloadErrorView>,
)
    requires
        cancel_requested(s, id),
    ensures
        report_of(cancel_requested(s, id), outcome) == Report::Canceled,
        !tells_done(complete_effects(s, id, outcome), id),
        tells_canceled(complete_effects(s, id, outcome), id),
{
    let effects = complete_effects(s, id, outcome);
    assert(effects.len() == 2);
    assert(effects[0] matches EffectView::SetStatus { status: DownloadStatus::Canceled, .. });
}

/// A run is reported done only where its executor came out well and its
/// cancellation was not asked for; its report then tells nothing of a
/// cancellation, and once reported the job is no longer active, so the
/// run reports nothing more.
pub proof fn lemma_done_is_never_canceled(
    s: ManagerView,
    id: u128,
    outcome: Result<Option<Seq<char>>, DownloadErrorView>,
)
    requires
        report_of(cancel_requested(s, id), outcome) == Report::Done,
    ensures
        !cancel_requested(s, id),
        outcome is Ok,
        tells_done(complete_effects(s, id, outcome), id),
        !tells_canceled(complete_effects(s, id, outcome), id),
        !step(s, Request::Complete(id)).is_active(id),
{
    let effects = complete_effects(s, id, outcome);
    assert(effects.len() == 2);
    assert(effects[0] matches EffectView::SetStatus { status: DownloadStatus::Done, .. });
}

} // verus!
