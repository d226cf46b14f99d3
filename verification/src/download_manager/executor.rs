//! The executor of one job: what to tell the interface for each line that
//! the tool prints, which output path to remember, and how the run ends.
//! The executor holds no process; whoever runs the process feeds it lines
//! and the exit status and carries out what it answers.

use crate::decimal::Percent;
use crate::download_manager::classify::{classification_of, classified, classify_error};
use crate::download_manager::config::DownloadConfig;
use crate::download_manager::preset::{builtin_or_default, Preset};
use crate::download_manager::progress::{
    already_downloaded_of,
    already_downloaded_path,
    destination_of,
    destination_path,
    finished_marker,
    is_finished_line,
    is_merge_line,
    merge_marker,
    parse_progress_chars,
    progress_of,
    ParsedProgress,
    ParsedProgressView,
};
use crate::events::{
    action_views,
    event_views,
    opt_view,
    Action,
    ActionView,
    DownlinkEvent,
    DownlinkEventView,
    DownloadStatus,
    ErrorCode,
    Phase,
    PhaseView,
    Progress,
    ProgressView,
};
use crate::text::{clone_opt, lowercase_of, strings, to_chars};
use vstd::prelude::*;
use vstd::string::*;

verus! {

/// How far, in thousandths of a point, the percentage must have moved since
/// the last progress event for the next one to be worth sending.
pub const PROGRESS_STEP: u64 = 500;

/// The percentage, in thousandths of a point, from which every sample is
/// sent.
pub const NEARLY_DONE: u64 = 99_900;

/// The template that makes the tool print one progress line per update.
pub const PROGRESS_TEMPLATE: &'static str =
    "download:[downlink] %(progress._percent_str)s %(progress._speed_str)s %(progress._eta_str)s %(progress._total_bytes_str)s";

/// How a run ends other than well.
#[derive(Debug, Clone)]
pub enum DownloadError {
    Canceled,
    Stopped,
    Failed { code: ErrorCode, message: String, actions: Vec<Action> },
}

pub enum DownloadErrorView {
    Canceled,
    Stopped,
    Failed { code: ErrorCode, message: Seq<char>, actions: Seq<ActionView> },
}

impl View for DownloadError {
    type V = DownloadErrorView;

    open spec fn view(&self) -> DownloadErrorView {
        match *self {
            DownloadError::Canceled => DownloadErrorView::Canceled,
            DownloadError::Stopped => DownloadErrorView::Stopped,
            DownloadError::Failed { code, message, actions } => DownloadErrorView::Failed {
                code,
                message: message@,
                actions: action_views(actions@),
            },
        }
    }
}

/// The view of the outcome of a run: the output path, or how it failed.
pub open spec fn outcome_view(r: Result<Option<String>, DownloadError>) -> Result<
    Option<Seq<char>>,
    DownloadErrorView,
> {
    match r {
        Ok(p) => Ok(opt_view(p)),
        Err(e) => Err(e@),
    }
}

/// The two streams of the tool that are captured.
#[derive(Debug, Clone, Copy, PartialEq, Eq, Structural)]
pub enum Stream {
    Stdout,
    Stderr,
}

/// What the operating system said when the tool could not be started.
#[derive(Debug, Clone, Copy, PartialEq, Eq, Structural)]
pub enum SpawnFault {
    NotFound,
    PermissionDenied,
    Other,
}

/// Why the tool could not be started.
#[derive(Debug, Clone, Copy, PartialEq, Eq, Structural)]
pub enum SpawnError {
    ToolMissing,
    PermissionDenied,
    Other,
}

impl SpawnError {
    /// The kind of start failure that a fault of the operating system is.
    pub fn of(fault: SpawnFault) -> (e: Self)
        ensures
            e == (match fault {
                SpawnFault::NotFound => SpawnError::ToolMissing,
                SpawnFault::PermissionDenied => SpawnError::PermissionDenied,
                SpawnFault::Other => SpawnError::Other,
            }),
    {
        match fault {
            SpawnFault::NotFound => SpawnError::ToolMissing,
            SpawnFault::PermissionDenied => SpawnError::PermissionDenied,
            SpawnFault::Other => SpawnError::Other,
        }
    }
}

/// The state of one running job.
#[derive(Debug, Clone)]
pub struct JobExecutor {
    pub id: u128,
    pub final_path: Option<String>,
    pub last_percent: u64,
    pub stderr_lines: Vec<String>,
}

pub struct JobExecutorView {
    pub id: u128,
    pub final_path: Option<Seq<char>>,
    pub last_percent: u64,
    pub stderr_lines: Seq<Seq<char>>,
}

impl View for JobExecutor {
    type V = JobExecutorView;

    open spec fn view(&self) -> JobExecutorView {
        JobExecutorView {
            id: self.id,
            final_path: opt_view(self.final_path),
            last_percent: self.last_percent,
            stderr_lines: strings(self.stderr_lines@),
        }
    }
}

/// Whether a sample at `current` is worth an event when the last event was
/// sent at `last`: it has moved by the step, or it is nearly done.
pub open spec fn worth_emitting(current: u64, last: u64) -> bool {
    current - last >= PROGRESS_STEP || last - current >= PROGRESS_STEP || current >= NEARLY_DONE
}

/// The percentage of a sample in thousandths of a point; zero where the
/// sample has none.
pub open spec fn sample_percent(sample: ParsedProgressView) -> u64 {
    match sample.percent {
        Some(p) => p.thousandths,
        None => 0,
    }
}

/// The sample of a line, where it is worth an event.
pub open spec fn emitted_sample(line: Seq<char>, last: u64) -> Option<ParsedProgressView> {
    match progress_of(line) {
        Some(s) => if worth_emitting(sample_percent(s), last) {
            Some(s)
        } else {
            None
        },
        None => None,
    }
}

/// The progress event of a sample: a complete snapshot, not a delta.
pub open spec fn progress_event(id: u128, sample: ParsedProgressView) -> DownlinkEventView {
    DownlinkEventView::DownloadProgress {
        id,
        status: DownloadStatus::Downloading,
        progress: ProgressView {
            percent: sample.percent,
            bytes_downloaded: sample.bytes_downloaded,
            bytes_total: sample.bytes_total,
            speed_bps: sample.speed_bps,
            eta_seconds: sample.eta_seconds,
            phase: Some(
                PhaseView {
                    name: match sample.phase {
                        Some(n) => n,
                        None => "Downloading"@,
                    },
                    detail: None,
                },
            ),
        },
    }
}

/// The event for a line that tells of merging.
pub open spec fn merging_event(id: u128) -> DownlinkEventView {
    DownlinkEventView::DownloadPostProcessing { id, step: "Merging streams"@, detail: None }
}

/// The event for a line that tells that the transfer is complete.
pub open spec fn finishing_event(id: u128) -> DownlinkEventView {
    DownlinkEventView::DownloadProgress {
        id,
        status: DownloadStatus::Downloading,
        progress: ProgressView {
            percent: Some(Percent { thousandths: 100_000 }),
            bytes_downloaded: None,
            bytes_total: None,
            speed_bps: None,
            eta_seconds: None,
            phase: Some(PhaseView { name: "Finishing..."@, detail: None }),
        },
    }
}

/// The events for one line of standard output, in the order in which they
/// are sent: the progress sample if it is worth one, then the merging
/// marker, then the completion marker. The markers are sent whatever the
/// percentage.
pub open spec fn stdout_events(id: u128, last: u64, line: Seq<char>) -> Seq<DownlinkEventView> {
    (match emitted_sample(line, last) {
        Some(s) => seq![progress_event(id, s)],
        None => Seq::empty(),
    }) + (if is_merge_line(line) {
        seq![merging_event(id)]
    } else {
        Seq::empty()
    }) + (if is_finished_line(line) {
        seq![finishing_event(id)]
    } else {
        Seq::empty()
    })
}

/// The percentage of the last progress event after a line.
pub open spec fn next_last_percent(last: u64, line: Seq<char>) -> u64 {
    match emitted_sample(line, last) {
        Some(s) => sample_percent(s),
        None => last,
    }
}

/// The output path known after a line: the one the line announces, else the
/// one known before.
pub open spec fn next_final_path(path: Option<Seq<char>>, line: Seq<char>) -> Option<Seq<char>> {
    match already_downloaded_of(line) {
        Some(p) => Some(p),
        None => match destination_of(line) {
            Some(p) => Some(p),
            None => path,
        },
    }
}

/// The state after a line of standard output.
pub open spec fn after_stdout(state: JobExecutorView, line: Seq<char>) -> JobExecutorView {
    JobExecutorView {
        id: state.id,
        final_path: next_final_path(state.final_path, line),
        last_percent: next_last_percent(state.last_percent, line),
        stderr_lines: state.stderr_lines,
    }
}

/// Lines put together with a line feed between them.
pub open spec fn join_lines(lines: Seq<Seq<char>>) -> Seq<char>
    decreases lines.len(),
{
    if lines.len() == 0 {
        Seq::empty()
    } else if lines.len() == 1 {
        lines[0]
    } else {
        join_lines(lines.drop_last()) + seq!['\n'] + lines.last()
    }
}

/// The failure that a classification makes.
pub open spec fn failure_of(text: Seq<char>, lower: Seq<char>) -> DownloadErrorView {
    DownloadErrorView::Failed {
        code: classification_of(text, lower).code,
        message: classification_of(text, lower).message,
        actions: classification_of(text, lower).actions,
    }
}

/// How a run ends when the process has exited: well, with the output path
/// last announced, or with the classified failure of its error output.
pub open spec fn exit_outcome(state: JobExecutorView, success: bool) -> Result<
    Option<Seq<char>>,
    DownloadErrorView,
> {
    if success {
        Ok(state.final_path)
    } else {
        Err(
            failure_of(
                join_lines(state.stderr_lines),
                lowercase_of(join_lines(state.stderr_lines)),
            ),
        )
    }
}

/// A failure with a message and no remedies.
pub open spec fn plain_failure(code: ErrorCode, message: Seq<char>) -> DownloadErrorView {
    DownloadErrorView::Failed { code, message, actions: Seq::empty() }
}

/// The arguments before the preset's: line-wise progress in the template
/// format, and the output template inside the output directory.
pub open spec fn base_args(output_dir: Seq<char>) -> Seq<Seq<char>> {
    seq![
        "--newline"@,
        "--no-warnings"@,
        "--no-call-home"@,
        "--progress"@,
        "--progress-template"@,
        PROGRESS_TEMPLATE@,
        "-o"@,
        output_dir + "/%(title)s [%(id)s].%(ext)s"@,
    ]
}

/// The arguments that tell the tool where ffmpeg is, where that is known.
pub open spec fn ffmpeg_args(path: Option<Seq<char>>) -> Seq<Seq<char>> {
    match path {
        Some(p) => seq!["--ffmpeg-location"@, p],
        None => Seq::empty(),
    }
}

/// The whole argument list of a download: base arguments, the preset's,
/// the ffmpeg location, and the source URL last.
pub open spec fn download_args(
    preset_id: Seq<char>,
    output_dir: Seq<char>,
    ffmpeg_path: Option<Seq<char>>,
    url: Seq<char>,
) -> Seq<Seq<char>> {
    base_args(output_dir) + builtin_or_default(preset_id).yt_dlp_args + ffmpeg_args(ffmpeg_path)
        + seq![url]
}

fn sample_event(id: u128, sample: ParsedProgress) -> (e: DownlinkEvent)
    ensures
        e@ == progress_event(id, sample@),
{
    let name = match sample.phase {
        Some(n) => n,
        None => "Downloading".to_owned(),
    };
    DownlinkEvent::DownloadProgress {
        id,
        status: DownloadStatus::Downloading,
        progress: Progress {
            percent: sample.percent,
            bytes_downloaded: sample.bytes_downloaded,
            bytes_total: sample.bytes_total,
            speed_bps: sample.speed_bps,
            eta_seconds: sample.eta_seconds,
            phase: Some(Phase { name, detail: None }),
        },
    }
}

/// Lines put together with a line feed between them.
pub fn join(lines: &Vec<String>) -> (text: String)
    ensures
        text@ == join_lines(strings(lines@)),
{
    let mut text = String::new();
    let mut i: usize = 0;
    proof {
        reveal_strlit("\n");
        assert("\n"@ =~= seq!['\n']);
        assert(strings(lines@.subrange(0, 0)) =~= Seq::<Seq<char>>::empty());
    }
    while i < lines.len()
        invariant
            i <= lines.len(),
            "\n"@ == seq!['\n'],
            text@ == join_lines(strings(lines@.subrange(0, i as int))),
        decreases lines.len() - i,
    {
        proof {
            let next = strings(lines@.subrange(0, i + 1));
            assert(next.drop_last() =~= strings(lines@.subrange(0, i as int)));
            assert(next.last() == lines@[i as int]@);
            if i == 0 {
                assert(Seq::<char>::empty() + lines@[0]@ =~= lines@[0]@);
            }
        }
        if i > 0 {
            text.append("\n");
        }
        text.append(lines[i].as_str());
        i = i + 1;
    }
    proof {
        assert(lines@.subrange(0, lines@.len() as int) =~= lines@);
    }
    text
}

impl JobExecutor {
    /// The executor of a job that has just been started.
    pub fn new(id: u128) -> (e: Self)
        ensures
            e@ == (JobExecutorView {
                id,
                final_path: None,
                last_percent: 0,
                stderr_lines: Seq::empty(),
            }),
    {
        let e = JobExecutor { id, final_path: None, last_percent: 0, stderr_lines: Vec::new() };
        proof {
            assert(strings(e.stderr_lines@) =~= Seq::<Seq<char>>::empty());
        }
        e
    }

    /// Takes one line of standard output in and answers with the events to
    /// send for it, in order.
    pub fn on_stdout_line(&mut self, line: &str) -> (events: Vec<DownlinkEvent>)
        ensures
            final(self)@ == after_stdout(old(self)@, line@),
            event_views(events@) == stdout_events(old(self).id, old(self).last_percent, line@),
    {
        let cs = to_chars(line);
        let id = self.id;
        let mut events: Vec<DownlinkEvent> = Vec::new();
        proof {
            assert(event_views(events@) =~= Seq::<DownlinkEventView>::empty());
        }
        match parse_progress_chars(&cs) {
            Some(sample) => {
                let current: u64 = match sample.percent {
                    Some(p) => p.thousandths,
                    None => 0,
                };
                let last: u64 = self.last_percent;
                let moved: u64 = if current >= last {
                    current - last
                } else {
                    last - current
                };
                if moved >= PROGRESS_STEP || current >= NEARLY_DONE {
                    self.last_percent = current;
                    let e = sample_event(id, sample);
                    events.push(e);
                    proof {
                        assert(event_views(events@) =~= seq![e@]);
                    }
                }
            },
            None => {},
        }
        if merge_marker(&cs) {
            let ghost before = event_views(events@);
            let e = DownlinkEvent::DownloadPostProcessing {
                id,
                step: "Merging streams".to_owned(),
                detail: None,
            };
            events.push(e);
            proof {
                assert(event_views(events@) =~= before + seq![merging_event(id)]);
            }
        } else {
            proof {
                assert(event_views(events@) + Seq::<DownlinkEventView>::empty() =~= event_views(
                    events@,
                ));
            }
        }
        if finished_marker(&cs) {
            let ghost before = event_views(events@);
            let e = DownlinkEvent::DownloadProgress {
                id,
                status: DownloadStatus::Downloading,
                progress: Progress {
                    percent: Some(Percent { thousandths: 100_000 }),
                    bytes_downloaded: None,
                    bytes_total: None,
                    speed_bps: None,
                    eta_seconds: None,
                    phase: Some(Phase { name: "Finishing...".to_owned(), detail: None }),
                },
            };
            events.push(e);
            proof {
                assert(event_views(events@) =~= before + seq![finishing_event(id)]);
            }
        } else {
            proof {
                assert(event_views(events@) + Seq::<DownlinkEventView>::empty() =~= event_views(
                    events@,
                ));
            }
        }
        match destination_path(&cs) {
            Some(p) => {
                self.final_path = Some(p);
            },
            None => {},
        }
        match already_downloaded_path(&cs) {
            Some(p) => {
                self.final_path = Some(p);
            },
            None => {},
        }
        events
    }

    /// Takes one line of standard error in. Error output is kept for the
    /// diagnosis of a failure and not sent anywhere while the job runs.
    pub fn on_stderr_line(&mut self, line: String)
        ensures
            final(self)@ == (JobExecutorView {
                stderr_lines: old(self)@.stderr_lines.push(line@),
                ..old(self)@
            }),
    {
        let ghost before = strings(self.stderr_lines@);
        self.stderr_lines.push(line);
        proof {
            assert(strings(self.stderr_lines@) =~= before.push(line@));
        }
    }

    /// The outcome when the stop signal was observed before the process
    /// exited: the process is to be killed and the job is stopped, neither
    /// failed nor done.
    pub fn on_cancel(&self) -> (e: DownloadError)
        ensures
            e@ == DownloadErrorView::Stopped,
    {
        DownloadError::Stopped
    }

    /// The outcome when the process has exited.
    pub fn on_exit(&self, success: bool) -> (r: Result<Option<String>, DownloadError>)
        ensures
            outcome_view(r) == exit_outcome(self@, success),
    {
        if success {
            Ok(clone_opt(&self.final_path))
        } else {
            let text = join(&self.stderr_lines);
            let (code, message, actions) = classify_error(text.as_str());
            Err(DownloadError::Failed { code, message, actions })
        }
    }

    /// Whether a fault in reading a stream ends the reading of the run's
    /// output: one on standard output does, as the end of the stream would;
    /// one on standard error does not. Neither fails the job.
    pub fn read_fault_ends_output(stream: Stream) -> (ends: bool)
        ensures
            ends == (stream == Stream::Stdout),
    {
        match stream {
            Stream::Stdout => true,
            Stream::Stderr => false,
        }
    }

    /// The outcome when the tool could not be started.
    pub fn spawn_failed(reason: &str) -> (e: DownloadError)
        ensures
            e@ == plain_failure(ErrorCode::ToolMissing, "Failed to start yt-dlp: "@ + reason@),
    {
        let e = DownloadError::Failed {
            code: ErrorCode::ToolMissing,
            message: "Failed to start yt-dlp: ".to_owned().concat(reason),
            actions: Vec::new(),
        };
        proof {
            assert(e@->Failed_actions =~= Seq::<ActionView>::empty());
        }
        e
    }

    /// The outcome when one of the tool's streams could not be captured.
    pub fn capture_failed(stream: Stream) -> (e: DownloadError)
        ensures
            e@ == plain_failure(
                ErrorCode::Unknown,
                match stream {
                    Stream::Stdout => "Failed to capture stdout"@,
                    Stream::Stderr => "Failed to capture stderr"@,
                },
            ),
    {
        let e = DownloadError::Failed {
            code: ErrorCode::Unknown,
            message: match stream {
                Stream::Stdout => "Failed to capture stdout".to_owned(),
                Stream::Stderr => "Failed to capture stderr".to_owned(),
            },
            actions: Vec::new(),
        };
        proof {
            assert(e@->Failed_actions =~= Seq::<ActionView>::empty());
        }
        e
    }

    /// The outcome when the exit of the tool could not be awaited.
    pub fn wait_failed(reason: &str) -> (e: DownloadError)
        ensures
            e@ == plain_failure(ErrorCode::Unknown, "Failed to wait for yt-dlp: "@ + reason@),
    {
        let e = DownloadError::Failed {
            code: ErrorCode::Unknown,
            message: "Failed to wait for yt-dlp: ".to_owned().concat(reason),
            actions: Vec::new(),
        };
        proof {
            assert(e@->Failed_actions =~= Seq::<ActionView>::empty());
        }
        e
    }
}

/// Appends owned copies of `more` to `args`.
fn extend(args: &mut Vec<String>, more: &Vec<String>)
    ensures
        strings(final(args)@) == strings(old(args)@) + strings(more@),
{
    let ghost start = strings(args@);
    let mut i: usize = 0;
    proof {
        assert(strings(more@.subrange(0, 0)) =~= Seq::<Seq<char>>::empty());
        assert(start + Seq::<Seq<char>>::empty() =~= start);
    }
    while i < more.len()
        invariant
            i <= more.len(),
            strings(args@) == start + strings(more@.subrange(0, i as int)),
        decreases more.len() - i,
    {
        let ghost before = args@;
        let s = more[i].clone();
        args.push(s);
        proof {
            assert(args@ =~= before.push(s));
            assert(strings(before.push(s)) =~= strings(before).push(s@));
            assert(strings(more@.subrange(0, i + 1)) =~= strings(more@.subrange(0, i as int)).push(
                more@[i as int]@,
            ));
            assert(strings(args@) =~= start + strings(more@.subrange(0, i + 1)));
        }
        i = i + 1;
    }
    proof {
        assert(more@.subrange(0, more@.len() as int) =~= more@);
    }
}

fn push_arg(args: &mut Vec<String>, arg: String)
    ensures
        strings(final(args)@) == strings(old(args)@).push(arg@),
{
    let ghost before = args@;
    args.push(arg);
    proof {
        assert(args@ =~= before.push(arg));
        assert(strings(before.push(arg)) =~= strings(before).push(arg@));
    }
}

/// The argument list with which the tool is started for a download.
pub fn build_download_args(preset_id: &str, output_dir: &str, config: &DownloadConfig, url: &str) -> (args:
    Vec<String>)
    ensures
        strings(args@) == download_args(
            preset_id@,
            output_dir@,
            opt_view(config.ffmpeg_path),
            url@,
        ),
{
    let preset = Preset::get_or_default(preset_id);
    let mut args: Vec<String> = Vec::new();
    proof {
        assert(strings(args@) =~= Seq::<Seq<char>>::empty());
    }
    push_arg(&mut args, "--newline".to_owned());
    push_arg(&mut args, "--no-warnings".to_owned());
    push_arg(&mut args, "--no-call-home".to_owned());
    push_arg(&mut args, "--progress".to_owned());
    push_arg(&mut args, "--progress-template".to_owned());
    push_arg(&mut args, PROGRESS_TEMPLATE.to_owned());
    push_arg(&mut args, "-o".to_owned());
    push_arg(&mut args, output_dir.to_owned().concat("/%(title)s [%(id)s].%(ext)s"));
    proof {
        assert(strings(args@) =~= base_args(output_dir@));
    }
    extend(&mut args, &preset.yt_dlp_args);
    match &config.ffmpeg_path {
        Some(p) => {
            let ghost before = strings(args@);
            push_arg(&mut args, "--ffmpeg-location".to_owned());
            push_arg(&mut args, p.clone());
            proof {
                assert(strings(args@) =~= before + ffmpeg_args(Some(p@)));
            }
        },
        None => {
            proof {
                assert(strings(args@) + Seq::<Seq<char>>::empty() =~= strings(args@));
            }
        },
    }
    let ghost before = strings(args@);
    push_arg(&mut args, url.to_owned());
    proof {
        assert(strings(args@) =~= before + seq![url@]);
    }
    args
}

} // verus!
