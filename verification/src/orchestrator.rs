//! What a render reports while it runs: the caller performs the work and
//! hands in what happened; this module decides the phase and the event.

use vstd::prelude::*;
use vstd::string::*;

verus! {

/// The longest status that a failed render reports, in characters.
pub const STATUS_LIMIT: usize = 100;

/// Where a render stands.
#[derive(Clone, Copy, Debug, PartialEq, Eq, Structural)]
pub enum RenderPhase {
    /// Accepted; the engine has not been started.
    Scheduled,
    /// The engine is being run.
    Running,
    /// The engine exited with status zero.
    Succeeded,
    /// The engine could not be started, or exited with another status.
    Failed,
}

/// A progress event: how far the render is, in percent, and a sentence.
#[derive(Clone, Debug)]
pub struct RenderEvent {
    pub percentage: u8,
    pub status: String,
}

/// What a progress event is, as mathematical values.
pub struct EventModel {
    pub percentage: nat,
    pub status: Seq<char>,
}

impl View for RenderEvent {
    type V = EventModel;

    open spec fn view(&self) -> EventModel {
        EventModel { percentage: self.percentage as nat, status: self.status@ }
    }
}

/// How the one run of the engine ended.
#[derive(Clone, Debug)]
pub enum EngineReport {
    /// The engine ran and exited: `success` says whether with status zero,
    /// `diagnostics` is what it wrote to its error output.
    Exited { success: bool, diagnostics: String },
    /// The engine could not be started; `reason` says why.
    SpawnFailed { reason: String },
}

/// What a report is, as mathematical values.
pub enum ReportModel {
    Exited { success: bool, diagnostics: Seq<char> },
    SpawnFailed { reason: Seq<char> },
}

impl View for EngineReport {
    type V = ReportModel;

    open spec fn view(&self) -> ReportModel {
        match *self {
            EngineReport::Exited { success, diagnostics } => ReportModel::Exited {
                success,
                diagnostics: diagnostics@,
            },
            EngineReport::SpawnFailed { reason } => ReportModel::SpawnFailed { reason: reason@ },
        }
    }
}

/// What the caller tells the orchestrator.
#[derive(Clone, Debug)]
pub enum Signal {
    /// The background work begins: the engine is about to be started.
    Launch,
    /// The run of the engine has ended.
    Ended(EngineReport),
}

/// What a signal is, as mathematical values.
pub enum SignalModel {
    Launch,
    Ended(ReportModel),
}

impl View for Signal {
    type V = SignalModel;

    open spec fn view(&self) -> SignalModel {
        match *self {
            Signal::Launch => SignalModel::Launch,
            Signal::Ended(report) => SignalModel::Ended(report@),
        }
    }
}

/// The first `limit` characters of `text`, or all of it if it has no more.
pub open spec fn truncated(text: Seq<char>, limit: nat) -> Seq<char> {
    if text.len() <= limit {
        text
    } else {
        text.take(limit as int)
    }
}

/// The event that opens a render.
pub open spec fn started_event() -> EventModel {
    EventModel { percentage: 0, status: "Starting Media Engine..."@ }
}

/// The event that closes a render whose engine reported `report`: complete
/// at 100 percent after a clean exit, else failed at 0 percent with the
/// diagnostic cut to the status limit.
pub open spec fn closing_event(report: ReportModel) -> EventModel {
    match report {
        ReportModel::Exited { success, diagnostics } => if success {
            EventModel { percentage: 100, status: "Render Complete!"@ }
        } else {
            EventModel {
                percentage: 0,
                status: truncated("Failed: "@ + diagnostics, STATUS_LIMIT as nat),
            }
        },
        ReportModel::SpawnFailed { reason } => EventModel {
            percentage: 0,
            status: truncated("Error: "@ + reason, STATUS_LIMIT as nat),
        },
    }
}

/// The phase that follows a clean or failed end of the engine.
pub open spec fn closing_phase(report: ReportModel) -> RenderPhase {
    match report {
        ReportModel::Exited { success, diagnostics } => if success {
            RenderPhase::Succeeded
        } else {
            RenderPhase::Failed
        },
        ReportModel::SpawnFailed { reason } => RenderPhase::Failed,
    }
}

/// The phase after `signal` arrives in `phase`. A signal that does not fit
/// the phase changes nothing.
pub open spec fn next_phase(phase: RenderPhase, signal: SignalModel) -> RenderPhase {
    match (phase, signal) {
        (RenderPhase::Scheduled, SignalModel::Launch) => RenderPhase::Running,
        (RenderPhase::Running, SignalModel::Ended(report)) => closing_phase(report),
        _ => phase,
    }
}

/// The event to emit when `signal` arrives in `phase`, if any.
pub open spec fn emitted(phase: RenderPhase, signal: SignalModel) -> Option<EventModel> {
    match (phase, signal) {
        (RenderPhase::Scheduled, SignalModel::Launch) => Some(started_event()),
        (RenderPhase::Running, SignalModel::Ended(report)) => Some(closing_event(report)),
        _ => None,
    }
}

/// The events of a render that is in `phase` and receives `signals` in turn.
pub open spec fn events_of(phase: RenderPhase, signals: Seq<SignalModel>) -> Seq<EventModel>
    decreases signals.len(),
{
    if signals.len() == 0 {
        Seq::empty()
    } else {
        let rest = events_of(next_phase(phase, signals[0]), signals.drop_first());
        match emitted(phase, signals[0]) {
            Some(event) => seq![event] + rest,
            None => rest,
        }
    }
}

/// Cuts `text` to its first `limit` characters.
pub fn truncate_chars(text: &str, limit: usize) -> (r: String)
    ensures
        r@ == truncated(text@, limit as nat),
{
    let n: usize = text.unicode_len();
    if n <= limit {
        String::from_str(text)
    } else {
        String::from_str(text.substring_char(0, limit))
    }
}

/// Builds the event that closes a render whose engine reported `report`.
pub fn closing(report: &EngineReport) -> (event: RenderEvent)
    ensures
        event@ == closing_event(report@),
{
    match report {
        EngineReport::Exited { success, diagnostics } => {
            if *success {
                RenderEvent { percentage: 100, status: String::from_str("Render Complete!") }
            } else {
                let mut status = String::from_str("Failed: ");
                status.append(diagnostics.as_str());
                RenderEvent { percentage: 0, status: truncate_chars(status.as_str(), STATUS_LIMIT) }
            }
        },
        EngineReport::SpawnFailed { reason } => {
            let mut status = String::from_str("Error: ");
            status.append(reason.as_str());
            RenderEvent { percentage: 0, status: truncate_chars(status.as_str(), STATUS_LIMIT) }
        },
    }
}

/// Takes `signal` in `phase`: returns the next phase and the event to emit,
/// if any.
pub fn advance(phase: RenderPhase, signal: &Signal) -> (r: (RenderPhase, Option<RenderEvent>))
    ensures
        r.0 == next_phase(phase, signal@),
        r.1 is Some <==> emitted(phase, signal@) is Some,
        r.1 matches Some(event) ==> Some(event@) == emitted(phase, signal@),
{
    match (phase, signal) {
        (RenderPhase::Scheduled, Signal::Launch) => (
            RenderPhase::Running,
            Some(
                RenderEvent { percentage: 0, status: String::from_str("Starting Media Engine...") },
            ),
        ),
        (RenderPhase::Running, Signal::Ended(report)) => {
            let event = closing(report);
            let next = match report {
                EngineReport::Exited { success, diagnostics } => if *success {
                    RenderPhase::Succeeded
                } else {
                    RenderPhase::Failed
                },
                EngineReport::SpawnFailed { reason } => RenderPhase::Failed,
            };
            (next, Some(event))
        },
        _ => (phase, None),
    }
}

/// The program that is run: the first of `probes` that is there, or, where
/// none is, `fallback`.
pub open spec fn resolved(fallback: Seq<char>, probes: Seq<Option<Seq<char>>>) -> Seq<char>
    decreases probes.len(),
{
    if probes.len() == 0 {
        fallback
    } else {
        match probes[0] {
            Some(path) => path,
            None => resolved(fallback, probes.drop_first()),
        }
    }
}

/// What a list of probes holds.
pub open spec fn probe_texts(probes: Seq<Option<String>>) -> Seq<Option<Seq<char>>> {
    Seq::new(
        probes.len(),
        |i: int|
            match probes[i] {
                Some(path) => Some(path@),
                None => None,
            },
    )
}

/// Picks the program to run. `probes` holds, for each candidate place in
/// turn, the program found there or nothing; `fallback` is the bare name by
/// which the program is looked up where no candidate is there.
pub fn resolve_executable(fallback: &str, probes: &Vec<Option<String>>) -> (r: String)
    ensures
        r@ == resolved(fallback@, probe_texts(probes@)),
{
    let ghost all = probe_texts(probes@);
    let mut i: usize = 0;
    assert(all.skip(0) == all);
    while i < probes.len()
        invariant
            all == probe_texts(probes@),
            i <= probes.len(),
            resolved(fallback@, all) == resolved(fallback@, all.skip(i as int)),
        decreases probes.len() - i,
    {
        match &probes[i] {
            Some(path) => {
                assert(all.skip(i as int)[0] == Some(path@));
                return path.clone();
            },
            None => {
                assert(all.skip(i as int)[0] == None::<Seq<char>>);
                assert(all.skip(i as int).drop_first() == all.skip(i + 1));
            },
        }
        i = i + 1;
    }
    assert(all.skip(i as int).len() == 0);
    String::from_str(fallback)
}

/// The places, relative to the working directory, where the encoding engine
/// is looked for, in the order tried.
pub fn engine_candidates() -> (r: Vec<String>)
    ensures
        crate::invocation::texts(r@) == seq![
            "src-tauri/bin/ffmpeg.exe"@,
            "bin/ffmpeg.exe"@,
            "../src-tauri/bin/ffmpeg.exe"@,
        ],
{
    let mut r: Vec<String> = Vec::new();
    r.push(String::from_str("src-tauri/bin/ffmpeg.exe"));
    r.push(String::from_str("bin/ffmpeg.exe"));
    r.push(String::from_str("../src-tauri/bin/ffmpeg.exe"));
    assert(crate::invocation::texts(r@) =~= seq![
        "src-tauri/bin/ffmpeg.exe"@,
        "bin/ffmpeg.exe"@,
        "../src-tauri/bin/ffmpeg.exe"@,
    ]);
    r
}

/// The name by which the encoding engine is looked up where it is at none
/// of the candidate places.
pub fn engine_fallback() -> (r: &'static str)
    ensures
        r@ == "ffmpeg"@,
{
    "ffmpeg"
}

/// `event` closes a render whose engine's end `signal` reports.
pub open spec fn closes(signal: SignalModel, event: EventModel) -> bool {
    match signal {
        SignalModel::Launch => false,
        SignalModel::Ended(report) => event == closing_event(report),
    }
}

/// A render that has ended reports nothing more.
proof fn lemma_ended_is_silent(phase: RenderPhase, signals: Seq<SignalModel>)
    requires
        phase == RenderPhase::Succeeded || phase == RenderPhase::Failed,
    ensures
        events_of(phase, signals) == Seq::<EventModel>::empty(),
    decreases signals.len(),
{
    if signals.len() > 0 {
        lemma_ended_is_silent(phase, signals.drop_first());
    }
}

/// A running render reports at most its end, once.
proof fn lemma_running_closes_once(signals: Seq<SignalModel>)
    ensures
        events_of(RenderPhase::Running, signals).len() <= 1,
        events_of(RenderPhase::Running, signals).len() == 1 ==> exists|k: int|
            0 <= k < signals.len() && #[trigger] closes(
                signals[k],
                events_of(RenderPhase::Running, signals)[0],
            ),
    decreases signals.len(),
{
    if signals.len() > 0 {
        let rest = signals.drop_first();
        match signals[0] {
            SignalModel::Launch => {
                lemma_running_closes_once(rest);
                if events_of(RenderPhase::Running, rest).len() == 1 {
                    let k = choose|k: int|
                        0 <= k < rest.len() && #[trigger] closes(
                            rest[k],
                            events_of(RenderPhase::Running, rest)[0],
                        );
                    assert(signals[k + 1] == rest[k]);
                    assert(closes(signals[k + 1], events_of(RenderPhase::Running, signals)[0]));
                }
            },
            SignalModel::Ended(report) => {
                lemma_ended_is_silent(closing_phase(report), rest);
                assert(events_of(RenderPhase::Running, signals) =~= seq![closing_event(report)]);
                assert(closes(signals[0], events_of(RenderPhase::Running, signals)[0]));
            },
        }
    }
}

/// The events of one render come in order: first, if any, the start at 0
/// percent; then, if any, one end, which is the close of a report that was
/// handed in: complete at 100 percent, or failed at 0 percent. Nothing
/// follows the end, whatever signals arrive.
pub proof fn lemma_event_order(signals: Seq<SignalModel>)
    ensures
        events_of(RenderPhase::Scheduled, signals).len() <= 2,
        events_of(RenderPhase::Scheduled, signals).len() >= 1 ==> events_of(
            RenderPhase::Scheduled,
            signals,
        )[0] == started_event(),
        events_of(RenderPhase::Scheduled, signals).len() == 2 ==> exists|k: int|
            0 <= k < signals.len() && #[trigger] closes(
                signals[k],
                events_of(RenderPhase::Scheduled, signals)[1],
            ),
    decreases signals.len(),
{
    if signals.len() > 0 {
        let rest = signals.drop_first();
        match signals[0] {
            SignalModel::Launch => {
                lemma_running_closes_once(rest);
                let tail = events_of(RenderPhase::Running, rest);
                assert(events_of(RenderPhase::Scheduled, signals) =~= seq![started_event()] + tail);
                if tail.len() == 1 {
                    let k = choose|k: int|
                        0 <= k < rest.len() && #[trigger] closes(rest[k], tail[0]);
                    assert(signals[k + 1] == rest[k]);
                    assert(closes(signals[k + 1], events_of(RenderPhase::Scheduled, signals)[1]));
                }
            },
            SignalModel::Ended(report) => {
                lemma_event_order(rest);
                if events_of(RenderPhase::Scheduled, rest).len() == 2 {
                    let k = choose|k: int|
                        0 <= k < rest.len() && #[trigger] closes(
                            rest[k],
                            events_of(RenderPhase::Scheduled, rest)[1],
                        );
                    assert(signals[k + 1] == rest[k]);
                    assert(closes(signals[k + 1], events_of(RenderPhase::Scheduled, signals)[1]));
                }
            },
        }
    }
}

/// Every event is between 0 and 100 percent, and the status of a failed
/// render is no longer than the status limit.
pub proof fn lemma_closing_event_bounds(report: ReportModel)
    ensures
        started_event().percentage == 0,
        closing_event(report).percentage == 0 || closing_event(report).percentage == 100,
        closing_event(report).percentage == 100 <==> closing_phase(report)
            == RenderPhase::Succeeded,
        closing_phase(report) == RenderPhase::Failed ==> closing_event(report).status.len()
            <= STATUS_LIMIT,
        closing_phase(report) == RenderPhase::Succeeded || closing_phase(report)
            == RenderPhase::Failed,
{
}

/// The end of a render is final: there is one run of the engine, and once
/// it has succeeded or failed no signal changes the phase or draws an event.
pub proof fn lemma_end_is_final(phase: RenderPhase, signal: SignalModel)
    requires
        phase == RenderPhase::Succeeded || phase == RenderPhase::Failed,
    ensures
        next_phase(phase, signal) == phase,
        emitted(phase, signal) is None,
{
}

} // verus!
