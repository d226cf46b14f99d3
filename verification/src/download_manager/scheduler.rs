//! The scheduler: which jobs are running, how many may, and what is to be
//! done when a caller starts, stops, cancels or retries a job or a run
//! ends. The scheduler decides; its caller looks jobs up, runs processes,
//! writes statuses and delivers events, as the effects it is handed say.

use crate::db::DownloadStatus;
use crate::download_manager::config::{DownloadConfig, FetchedMetadata, FetchedMetadataView};
use crate::download_manager::executor::{DownloadError, DownloadErrorView};
use crate::events::{
    opt_view,
    DownlinkEvent,
    DownlinkEventView,
    MediaInfo,
    MediaInfoView,
    Phase,
    PhaseView,
    Progress,
    ProgressView,
};
use crate::text::clone_opt;
use std::collections::HashMap;
use vstd::std_specs::hash::axiom_spec_keys_iter;
use vstd::std_specs::iter::IteratorSpec;
use vstd::prelude::*;
use vstd::string::*;

verus! {

/// What the scheduler needs to know of a stored job.
#[derive(Debug, Clone)]
pub struct JobRecord {
    pub status: DownloadStatus,
    pub title: Option<String>,
    pub source_url: String,
    pub preset_id: String,
    pub output_dir: String,
}

pub struct JobRecordView {
    pub status: DownloadStatus,
    pub title: Option<Seq<char>>,
    pub source_url: Seq<char>,
    pub preset_id: Seq<char>,
    pub output_dir: Seq<char>,
}

impl View for JobRecord {
    type V = JobRecordView;

    open spec fn view(&self) -> JobRecordView {
        JobRecordView {
            status: self.status,
            title: opt_view(self.title),
            source_url: self.source_url@,
            preset_id: self.preset_id@,
            output_dir: self.output_dir@,
        }
    }
}

/// What looking a job up in the store came to.
#[derive(Debug, Clone)]
pub enum JobLookup {
    Found(JobRecord),
    Missing,
    Failed(String),
}

pub enum JobLookupView {
    Found(JobRecordView),
    Missing,
    Failed(Seq<char>),
}

impl View for JobLookup {
    type V = JobLookupView;

    open spec fn view(&self) -> JobLookupView {
        match *self {
            JobLookup::Found(r) => JobLookupView::Found(r@),
            JobLookup::Missing => JobLookupView::Missing,
            JobLookup::Failed(e) => JobLookupView::Failed(e@),
        }
    }
}

/// Why a job could not be started.
#[derive(Debug, Clone)]
pub enum StartError {
    /// The store knows no job of that identifier.
    NotFound,
    /// The store could not be read.
    Database(String),
}

pub enum StartErrorView {
    NotFound,
    Database(Seq<char>),
}

impl View for StartError {
    type V = StartErrorView;

    open spec fn view(&self) -> StartErrorView {
        match *self {
            StartError::NotFound => StartErrorView::NotFound,
            StartError::Database(e) => StartErrorView::Database(e@),
        }
    }
}

impl StartError {
    pub fn message(&self) -> (m: String)
        ensures
            m@ == match self@ {
                StartErrorView::NotFound => "Download not found"@,
                StartErrorView::Database(e) => "Database error: "@ + e,
            },
    {
        match self {
            StartError::NotFound => "Download not found".to_owned(),
            StartError::Database(e) => "Database error: ".to_owned().concat(e.as_str()),
        }
    }
}

/// One thing for the caller of the scheduler to do.
#[derive(Debug, Clone)]
pub enum Effect {
    /// Write the status and phase of a job to the store.
    SetStatus { id: u128, status: DownloadStatus, phase: String },
    /// Deliver an event to the interface.
    Emit(DownlinkEvent),
    /// Fetch the metadata of a job, within the time allowed for it, and
    /// hand what came of it to `metadata_fetched`.
    FetchMetadata { id: u128, source_url: String, preset_id: String, output_dir: String },
    /// Write fetched metadata to the store.
    UpdateMetadata { id: u128, metadata: FetchedMetadata },
    /// Run the job's executor as a task of its own and hand its outcome to
    /// `complete`.
    Spawn { id: u128, source_url: String, preset_id: String, output_dir: String },
    /// Signal the job's executor to stop.
    SignalStop { id: u128 },
}

pub enum EffectView {
    SetStatus { id: u128, status: DownloadStatus, phase: Seq<char> },
    Emit(DownlinkEventView),
    FetchMetadata { id: u128, source_url: Seq<char>, preset_id: Seq<char>, output_dir: Seq<char> },
    UpdateMetadata { id: u128, metadata: FetchedMetadataView },
    Spawn { id: u128, source_url: Seq<char>, preset_id: Seq<char>, output_dir: Seq<char> },
    SignalStop { id: u128 },
}

impl View for Effect {
    type V = EffectView;

    open spec fn view(&self) -> EffectView {
        match *self {
            Effect::SetStatus { id, status, phase } => EffectView::SetStatus {
                id,
                status,
                phase: phase@,
            },
            Effect::Emit(e) => EffectView::Emit(e@),
            Effect::FetchMetadata {
                id,
                source_url,
                preset_id,
                output_dir,
            } => EffectView::FetchMetadata {
                id,
                source_url: source_url@,
                preset_id: preset_id@,
                output_dir: output_dir@,
            },
            Effect::UpdateMetadata { id, metadata } => EffectView::UpdateMetadata {
                id,
                metadata: metadata@,
            },
            Effect::Spawn { id, source_url, preset_id, output_dir } => EffectView::Spawn {
                id,
                source_url: source_url@,
                preset_id: preset_id@,
                output_dir: output_dir@,
            },
            Effect::SignalStop { id } => EffectView::SignalStop { id },
        }
    }
}

/// The views of a list of effects, in order.
pub open spec fn effect_views(v: Seq<Effect>) -> Seq<EffectView> {
    v.map_values(|e: Effect| e@)
}

/// The view of what `start` and `retry` answer.
pub open spec fn plan_view(r: Result<Vec<Effect>, StartError>) -> Result<
    Seq<EffectView>,
    StartErrorView,
> {
    match r {
        Ok(v) => Ok(effect_views(v@)),
        Err(e) => Err(e@),
    }
}

/// The scheduler as contracts see it: the limit and the active set. Each
/// active job carries whether its cancellation has been asked for.
pub struct ManagerView {
    pub limit: nat,
    pub active: Map<u128, bool>,
}

impl ManagerView {
    /// The active set is finite and within the limit.
    pub open spec fn wf(self) -> bool {
        self.active.dom().finite() && self.active.len() <= self.limit
    }

    pub open spec fn is_active(self, id: u128) -> bool {
        self.active.contains_key(id)
    }

    /// Whether one more job may run: there is room and the job is not
    /// running already.
    pub open spec fn admits(self, id: u128) -> bool {
        self.active.len() < self.limit && !self.is_active(id)
    }

    /// Whether starting the job launches it.
    pub open spec fn launches(self, id: u128, job: JobLookupView) -> bool {
        self.admits(id) && job is Found && job->Found_0.status.startable()
    }

    pub open spec fn after_start(self, id: u128, job: JobLookupView) -> ManagerView {
        if self.launches(id, job) {
            ManagerView { active: self.active.insert(id, false), ..self }
        } else {
            self
        }
    }

    pub open spec fn after_cancel(self, id: u128) -> ManagerView {
        if self.is_active(id) {
            ManagerView { active: self.active.insert(id, true), ..self }
        } else {
            self
        }
    }

    pub open spec fn after_complete(self, id: u128) -> ManagerView {
        ManagerView { active: self.active.remove(id), ..self }
    }
}

/// The effects that announce the fetching of metadata and ask for it.
pub open spec fn fetching_effects(id: u128, job: JobRecordView) -> Seq<EffectView> {
    seq![
        EffectView::SetStatus {
            id,
            status: DownloadStatus::Fetching,
            phase: "Fetching metadata…"@,
        },
        EffectView::Emit(
            DownlinkEventView::DownloadProgress {
                id,
                status: crate::events::DownloadStatus::Fetching,
                progress: ProgressView {
                    percent: None,
                    bytes_downloaded: None,
                    bytes_total: None,
                    speed_bps: None,
                    eta_seconds: None,
                    phase: Some(PhaseView { name: "Fetching metadata…"@, detail: None }),
                },
            },
        ),
        EffectView::FetchMetadata {
            id,
            source_url: job.source_url,
            preset_id: job.preset_id,
            output_dir: job.output_dir,
        },
    ]
}

/// The effects that put a job to work.
pub open spec fn launch_effects(
    id: u128,
    source_url: Seq<char>,
    preset_id: Seq<char>,
    output_dir: Seq<char>,
) -> Seq<EffectView> {
    seq![
        EffectView::SetStatus { id, status: DownloadStatus::Downloading, phase: "Starting…"@ },
        EffectView::Emit(DownlinkEventView::DownloadStarted { id }),
        EffectView::Spawn { id, source_url, preset_id, output_dir },
    ]
}

/// The effects that record fetched metadata and make it known.
pub open spec fn metadata_effects(
    id: u128,
    source_url: Seq<char>,
    metadata: Option<FetchedMetadataView>,
) -> Seq<EffectView> {
    match metadata {
        Some(m) => seq![
            EffectView::UpdateMetadata { id, metadata: m },
            EffectView::Emit(
                DownlinkEventView::MetadataReady {
                    id,
                    info: MediaInfoView {
                        title: m.title,
                        uploader: m.uploader,
                        duration_seconds: m.duration_seconds,
                        thumbnail_url: m.thumbnail_url,
                        webpage_url: Some(source_url),
                    },
                },
            ),
        ],
        None => Seq::empty(),
    }
}

/// What starting a job comes to. Nothing happens where the limit is
/// reached, the job runs already or its status does not allow a start; a
/// job that the store does not know, or a store that cannot be read, is an
/// error, but only where there was room to start; otherwise the job is
/// launched, through the fetching of its metadata where it has no title.
pub open spec fn start_plan(s: ManagerView, id: u128, job: JobLookupView) -> Result<
    Seq<EffectView>,
    StartErrorView,
> {
    if !s.admits(id) {
        Ok(Seq::empty())
    } else {
        match job {
            JobLookupView::Missing => Err(StartErrorView::NotFound),
            JobLookupView::Failed(e) => Err(StartErrorView::Database(e)),
            JobLookupView::Found(r) => if !r.status.startable() {
                Ok(Seq::empty())
            } else if r.title is None {
                Ok(fetching_effects(id, r))
            } else {
                Ok(launch_effects(id, r.source_url, r.preset_id, r.output_dir))
            },
        }
    }
}

/// The job as a retry finds it: its status has just been reset to queued.
pub open spec fn requeued(job: JobLookupView) -> JobLookupView {
    match job {
        JobLookupView::Found(r) => JobLookupView::Found(
            JobRecordView { status: DownloadStatus::Queued, ..r },
        ),
        other => other,
    }
}

/// What retrying a job comes to: its status is reset to queued, then it is
/// started.
pub open spec fn retry_plan(s: ManagerView, id: u128, job: JobLookupView) -> Result<
    Seq<EffectView>,
    StartErrorView,
> {
    match start_plan(s, id, requeued(job)) {
        Ok(effects) => Ok(
            seq![
                EffectView::SetStatus { id, status: DownloadStatus::Queued, phase: "Queued"@ },
            ] + effects,
        ),
        Err(e) => Err(e),
    }
}

/// What stopping a job comes to: a signal where it runs, nothing else.
pub open spec fn stop_effects(s: ManagerView, id: u128) -> Seq<EffectView> {
    if s.is_active(id) {
        seq![EffectView::SignalStop { id }]
    } else {
        Seq::empty()
    }
}

/// What canceling a job comes to: it is stopped, and marked canceled in the
/// store whether or not it ran.
pub open spec fn cancel_effects(s: ManagerView, id: u128) -> Seq<EffectView> {
    stop_effects(s, id) + seq![
        EffectView::SetStatus { id, status: DownloadStatus::Canceled, phase: "Canceled"@ },
    ]
}

/// One stop signal for each of the given jobs, in their order.
pub open spec fn stop_signals(ids: Seq<u128>) -> Seq<EffectView> {
    ids.map_values(|id: u128| EffectView::SignalStop { id })
}

/// How a run is reported once it has ended.
#[derive(Debug, Clone, Copy, PartialEq, Eq, Structural)]
pub enum Report {
    Done,
    Canceled,
    Stopped,
    Failed,
}

/// The report of a run: a run whose cancellation was asked for is reported
/// canceled whatever its executor came to; any other run is reported as its
/// executor came out.
pub open spec fn report_of(
    cancel_requested: bool,
    outcome: Result<Option<Seq<char>>, DownloadErrorView>,
) -> Report {
    if cancel_requested {
        Report::Canceled
    } else {
        match outcome {
            Ok(_) => Report::Done,
            Err(DownloadErrorView::Canceled) => Report::Canceled,
            Err(DownloadErrorView::Stopped) => Report::Stopped,
            Err(DownloadErrorView::Failed { .. }) => Report::Failed,
        }
    }
}

/// Whether the cancellation of a job has been asked for during its run.
pub open spec fn cancel_requested(s: ManagerView, id: u128) -> bool {
    s.is_active(id) && s.active[id]
}

/// The effects with which a run is reported: the status written to the
/// store, then the one terminal event of the run.
pub open spec fn report_effects(
    id: u128,
    report: Report,
    outcome: Result<Option<Seq<char>>, DownloadErrorView>,
) -> Seq<EffectView> {
    match report {
        Report::Done => seq![
            EffectView::SetStatus { id, status: DownloadStatus::Done, phase: "Completed"@ },
            EffectView::Emit(
                DownlinkEventView::DownloadCompleted {
                    id,
                    final_path: match outcome {
                        Ok(Some(p)) => p,
                        _ => Seq::empty(),
                    },
                },
            ),
        ],
        Report::Canceled => seq![
            EffectView::SetStatus { id, status: DownloadStatus::Canceled, phase: "Canceled"@ },
            EffectView::Emit(DownlinkEventView::DownloadCanceled { id }),
        ],
        Report::Stopped => seq![
            EffectView::SetStatus { id, status: DownloadStatus::Stopped, phase: "Stopped"@ },
            EffectView::Emit(DownlinkEventView::DownloadStopped { id }),
        ],
        Report::Failed => seq![
            EffectView::SetStatus { id, status: DownloadStatus::Failed, phase: "Failed"@ },
            EffectView::Emit(
                match outcome {
                    Err(DownloadErrorView::Failed { code, message, actions }) => {
                        DownlinkEventView::DownloadFailed {
                            id,
                            error_code: code,
                            user_message: message,
                            actions,
                        }
                    },
                    _ => DownlinkEventView::DownloadStopped { id },
                },
            ),
        ],
    }
}

/// What the end of a run comes to.
pub open spec fn complete_effects(
    s: ManagerView,
    id: u128,
    outcome: Result<Option<Seq<char>>, DownloadErrorView>,
) -> Seq<EffectView> {
    report_effects(id, report_of(cancel_requested(s, id), outcome), outcome)
}

fn set_status(id: u128, status: DownloadStatus, phase: &str) -> (e: Effect)
    ensures
        e@ == (EffectView::SetStatus { id, status, phase: phase@ }),
{
    Effect::SetStatus { id, status, phase: phase.to_owned() }
}

fn two_effects(a: Effect, b: Effect) -> (v: Vec<Effect>)
    ensures
        effect_views(v@) == seq![a@, b@],
{
    let mut v: Vec<Effect> = Vec::new();
    v.push(a);
    v.push(b);
    proof {
        assert(effect_views(v@) =~= seq![a@, b@]);
    }
    v
}

fn three_effects(a: Effect, b: Effect, c: Effect) -> (v: Vec<Effect>)
    ensures
        effect_views(v@) == seq![a@, b@, c@],
{
    let mut v: Vec<Effect> = Vec::new();
    v.push(a);
    v.push(b);
    v.push(c);
    proof {
        assert(effect_views(v@) =~= seq![a@, b@, c@]);
    }
    v
}

fn no_effects() -> (v: Vec<Effect>)
    ensures
        effect_views(v@) == Seq::<EffectView>::empty(),
{
    let v: Vec<Effect> = Vec::new();
    proof {
        assert(effect_views(v@) =~= Seq::<EffectView>::empty());
    }
    v
}

fn append_effects(front: Vec<Effect>, back: Vec<Effect>) -> (v: Vec<Effect>)
    ensures
        effect_views(v@) == effect_views(front@) + effect_views(back@),
{
    let mut v = front;
    let mut back = back;
    let ghost f = effect_views(v@);
    let ghost b = effect_views(back@);
    v.append(&mut back);
    proof {
        assert(effect_views(v@) =~= f + b);
    }
    v
}

/// The effects that put a job to work.
pub fn launch(id: u128, source_url: String, preset_id: String, output_dir: String) -> (v: Vec<
    Effect,
>)
    ensures
        effect_views(v@) == launch_effects(id, source_url@, preset_id@, output_dir@),
{
    three_effects(
        set_status(id, DownloadStatus::Downloading, "Starting…"),
        Effect::Emit(DownlinkEvent::DownloadStarted { id }),
        Effect::Spawn { id, source_url, preset_id, output_dir },
    )
}

/// What follows the fetching of a job's metadata: what was fetched is
/// recorded and made known, and the job is put to work whether or not
/// anything was fetched.
pub fn metadata_fetched(
    id: u128,
    source_url: String,
    preset_id: String,
    output_dir: String,
    metadata: Option<FetchedMetadata>,
) -> (v: Vec<Effect>)
    ensures
        effect_views(v@) == metadata_effects(
            id,
            source_url@,
            match metadata {
                Some(m) => Some(m@),
                None => None,
            },
        ) + launch_effects(id, source_url@, preset_id@, output_dir@),
{
    let front = match metadata {
        Some(m) => {
            let info = MediaInfo {
                title: clone_opt(&m.title),
                uploader: clone_opt(&m.uploader),
                duration_seconds: m.duration_seconds,
                thumbnail_url: clone_opt(&m.thumbnail_url),
                webpage_url: Some(source_url.clone()),
            };
            two_effects(
                Effect::UpdateMetadata { id, metadata: m },
                Effect::Emit(DownlinkEvent::MetadataReady { id, info }),
            )
        },
        None => no_effects(),
    };
    append_effects(front, launch(id, source_url, preset_id, output_dir))
}

/// The scheduler of downloads.
pub struct DownloadManager {
    config: DownloadConfig,
    active_downloads: HashMap<u128, bool>,
}

impl View for DownloadManager {
    type V = ManagerView;

    closed spec fn view(&self) -> ManagerView {
        ManagerView { limit: self.config.max_concurrent as nat, active: self.active_downloads@ }
    }
}

impl DownloadManager {
    /// The invariant of the scheduler: never more active jobs than the
    /// limit.
    #[verifier::type_invariant]
    spec fn within_limit(&self) -> bool {
        self.active_downloads@.dom().finite() && self.active_downloads@.len()
            <= self.config.max_concurrent
    }

    /// What the invariant says of the scheduler as contracts see it.
    pub open spec fn wf(&self) -> bool {
        self@.wf()
    }

    /// Takes the active set out, leaving an empty one in its place until
    /// the changed set is put back.
    fn take_active(&mut self) -> (active: HashMap<u128, bool>)
        ensures
            active@ == old(self).active_downloads@,
            final(self).config == old(self).config,
            final(self).active_downloads@ == Map::<u128, bool>::empty(),
    {
        let mut active: HashMap<u128, bool> = HashMap::new();
        core::mem::swap(&mut self.active_downloads, &mut active);
        active
    }

    /// A scheduler in which no job is active.
    pub fn new(config: DownloadConfig) -> (m: Self)
        ensures
            m.wf(),
            m@.limit == config.max_concurrent,
            m@.active == Map::<u128, bool>::empty(),
    {
        DownloadManager { config, active_downloads: HashMap::new() }
    }

    /// The settings that the scheduler was made with.
    pub fn config(&self) -> (c: &DownloadConfig)
        ensures
            c.max_concurrent == self@.limit,
    {
        &self.config
    }

    /// Whether a job is active.
    pub fn is_active(&self, id: u128) -> (b: bool)
        ensures
            b == self@.is_active(id),
    {
        self.active_downloads.contains_key(&id)
    }

    /// How many jobs are active.
    pub fn active_count(&self) -> (n: usize)
        ensures
            self.wf(),
            n == self@.active.len(),
            n <= self@.limit,
    {
        proof {
            use_type_invariant(self);
        }
        self.active_downloads.len()
    }

    /// Whether starting the job would get as far as looking it up: there is
    /// room and the job is not active already.
    pub fn admits(&self, id: u128) -> (b: bool)
        ensures
            b == self@.admits(id),
    {
        proof {
            use_type_invariant(self);
        }
        self.active_downloads.len() < self.config.max_concurrent
            && !self.active_downloads.contains_key(&id)
    }

    /// Starts a job, given what looking it up came to.
    pub fn start(&mut self, id: u128, job: JobLookup) -> (r: Result<Vec<Effect>, StartError>)
        ensures
            old(self).wf(),
            final(self).wf(),
            final(self)@ == old(self)@.after_start(id, job@),
            plan_view(r) == start_plan(old(self)@, id, job@),
    {
        proof {
            use_type_invariant(&*self);
        }
        if !self.admits(id) {
            return Ok(no_effects());
        }
        match job {
            JobLookup::Missing => Err(StartError::NotFound),
            JobLookup::Failed(e) => Err(StartError::Database(e)),
            JobLookup::Found(record) => {
                if !record.status.is_startable() {
                    return Ok(no_effects());
                }
                let mut active = self.take_active();
                active.insert(id, false);
                self.active_downloads = active;
                if record.title.is_none() {
                    Ok(
                        three_effects(
                            set_status(id, DownloadStatus::Fetching, "Fetching metadata…"),
                            Effect::Emit(
                                DownlinkEvent::DownloadProgress {
                                    id,
                                    status: crate::events::DownloadStatus::Fetching,
                                    progress: Progress {
                                        percent: None,
                                        bytes_downloaded: None,
                                        bytes_total: None,
                                        speed_bps: None,
                                        eta_seconds: None,
                                        phase: Some(
                                            Phase {
                                                name: "Fetching metadata…".to_owned(),
                                                detail: None,
                                            },
                                        ),
                                    },
                                },
                            ),
                            Effect::FetchMetadata {
                                id,
                                source_url: record.source_url,
                                preset_id: record.preset_id,
                                output_dir: record.output_dir,
                            },
                        ),
                    )
                } else {
                    Ok(launch(id, record.source_url, record.preset_id, record.output_dir))
                }
            },
        }
    }

    /// Stops a job: its executor is signaled where it runs. Stopping a job
    /// that does not run is harmless.
    pub fn stop(&self, id: u128) -> (v: Vec<Effect>)
        ensures
            effect_views(v@) == stop_effects(self@, id),
    {
        if self.active_downloads.contains_key(&id) {
            let mut v: Vec<Effect> = Vec::new();
            v.push(Effect::SignalStop { id });
            proof {
                assert(effect_views(v@) =~= seq![EffectView::SignalStop { id }]);
            }
            v
        } else {
            no_effects()
        }
    }

    /// Cancels a job: it is stopped and marked canceled, and the run, if
    /// there is one, will be reported as canceled.
    pub fn cancel(&mut self, id: u128) -> (v: Vec<Effect>)
        ensures
            old(self).wf(),
            final(self).wf(),
            final(self)@ == old(self)@.after_cancel(id),
            effect_views(v@) == cancel_effects(old(self)@, id),
    {
        proof {
            use_type_invariant(&*self);
        }
        let stop = self.stop(id);
        if self.active_downloads.contains_key(&id) {
            let ghost before = self.active_downloads@;
            let mut active = self.take_active();
            active.insert(id, true);
            proof {
                assert(before.insert(id, true).dom() =~= before.dom());
            }
            self.active_downloads = active;
        }
        let mut mark: Vec<Effect> = Vec::new();
        mark.push(set_status(id, DownloadStatus::Canceled, "Canceled"));
        proof {
            assert(effect_views(mark@) =~= seq![
                EffectView::SetStatus { id, status: DownloadStatus::Canceled, phase: "Canceled"@ },
            ]);
        }
        append_effects(stop, mark)
    }

    /// Retries a job: its status is reset to queued, then it is started.
    pub fn retry(&mut self, id: u128, job: JobLookup) -> (r: Result<Vec<Effect>, StartError>)
        ensures
            old(self).wf(),
            final(self).wf(),
            final(self)@ == old(self)@.after_start(id, requeued(job@)),
            plan_view(r) == retry_plan(old(self)@, id, job@),
    {
        let job = match job {
            JobLookup::Found(r) => JobLookup::Found(
                JobRecord { status: DownloadStatus::Queued, ..r },
            ),
            JobLookup::Missing => JobLookup::Missing,
            JobLookup::Failed(e) => JobLookup::Failed(e),
        };
        match self.start(id, job) {
            Ok(effects) => {
                let mut reset: Vec<Effect> = Vec::new();
                reset.push(set_status(id, DownloadStatus::Queued, "Queued"));
                proof {
                    assert(effect_views(reset@) =~= seq![
                        EffectView::SetStatus {
                            id,
                            status: DownloadStatus::Queued,
                            phase: "Queued"@,
                        },
                    ]);
                }
                Ok(append_effects(reset, effects))
            },
            Err(e) => Err(e),
        }
    }

    /// Shuts the scheduler down: every active job is signaled to stop, each
    /// once, in no particular order. Their executors are not waited for.
    pub fn shutdown(&self) -> (v: Vec<Effect>)
        ensures
            exists|ids: Seq<u128>|
                ids.no_duplicates() && ids.to_set() == self@.active.dom() && effect_views(v@)
                    == #[trigger] stop_signals(ids),
    {
        let mut v: Vec<Effect> = Vec::new();
        let ghost mut ids: Seq<u128> = Seq::empty();
        let keys = self.active_downloads.keys();
        let ghost all = keys.remaining();
        let ghost mut count: int = 0;
        proof {
            assert(effect_views(v@) =~= stop_signals(ids));
        }
        for k in it: keys
            invariant
                it.seq() == all,
                count == it.index(),
                ids == all.take(count).unref(),
                effect_views(v@) == stop_signals(ids),
        {
            let id: u128 = *k;
            let ghost before = v@;
            let e = Effect::SignalStop { id };
            v.push(e);
            proof {
                let next = ids.push(id);
                assert(it.seq().take(it.index() + 1).unref() =~= next);
                assert(v@ =~= before.push(e));
                assert(effect_views(before.push(e)) =~= effect_views(before).push(e@));
                assert(stop_signals(next) =~= stop_signals(ids).push(e@));
                ids = next;
                count = count + 1;
            }
        }
        proof {
            axiom_spec_keys_iter(&self.active_downloads);
            assert(count == all.len());
            assert(all.take(count) =~= all);
            assert(ids.to_set() == self@.active.dom());
            assert forall|i: int, j: int| 0 <= i < ids.len() && 0 <= j < ids.len() && i != j
                implies ids[i] != ids[j] by {
                assert(all[i] != all[j]);
            }
        }
        v
    }

    /// Takes the end of a run in: the job leaves the active set, and the
    /// run is reported with one status and one terminal event.
    pub fn complete(&mut self, id: u128, outcome: Result<Option<String>, DownloadError>) -> (v:
        Vec<Effect>)
        ensures
            old(self).wf(),
            final(self).wf(),
            final(self)@ == old(self)@.after_complete(id),
            effect_views(v@) == complete_effects(
                old(self)@,
                id,
                crate::download_manager::executor::outcome_view(outcome),
            ),
    {
        proof {
            use_type_invariant(&*self);
        }
        let mut active = self.take_active();
        let canceled = match active.remove(&id) {
            Some(flag) => flag,
            None => false,
        };
        self.active_downloads = active;
        if canceled {
            return two_effects(
                set_status(id, DownloadStatus::Canceled, "Canceled"),
                Effect::Emit(DownlinkEvent::DownloadCanceled { id }),
            );
        }
        match outcome {
            Ok(path) => two_effects(
                set_status(id, DownloadStatus::Done, "Completed"),
                Effect::Emit(
                    DownlinkEvent::DownloadCompleted {
                        id,
                        final_path: match path {
                            Some(p) => p,
                            None => String::new(),
                        },
                    },
                ),
            ),
            Err(DownloadError::Canceled) => two_effects(
                set_status(id, DownloadStatus::Canceled, "Canceled"),
                Effect::Emit(DownlinkEvent::DownloadCanceled { id }),
            ),
            Err(DownloadError::Stopped) => two_effects(
                set_status(id, DownloadStatus::Stopped, "Stopped"),
                Effect::Emit(DownlinkEvent::DownloadStopped { id }),
            ),
            Err(DownloadError::Failed { code, message, actions }) => two_effects(
                set_status(id, DownloadStatus::Failed, "Failed"),
                Effect::Emit(
                    DownlinkEvent::DownloadFailed {
                        id,
                        error_code: code,
                        user_message: message,
                        actions,
                    },
                ),
            ),
        }
    }
}

} // verus!
