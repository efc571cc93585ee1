//! The playback engine: the single component that owns the audio sink,
//! serializes command execution against it, resolves a requested source into
//! audio, and tracks duration and progress.
//!
//! The engine itself is a state machine over a model of the sink. The caller
//! that owns the real audio device drives it: it hands each
//! [`PlaybackCommand`](crate::command::PlaybackCommand) to [`Engine::on_command`],
//! performs the returned [`CommandEffect`] on the device, and, while a `Play`
//! command is being resolved, reports each fetch or decode outcome through
//! [`Engine::resolve_failed`] and [`Engine::resolve_succeeded`]. Commands are
//! processed strictly one at a time: a `Play` command's resolution — including
//! every retry — finishes before the next command is taken, so the clear that
//! begins a `Play` and the append that ends it are atomic with respect to all
//! other commands.

use vstd::prelude::*;

use crate::command::{CommandView, PlaybackCommand};
use crate::strutil::spec_starts_with;
use crate::volume::{gain_of, volume_gain, GAIN_SCALE};

verus! {

/// Number of fetch attempts made for one remote source before the `Play`
/// command fails as a whole.
pub const MAX_FETCH_ATTEMPTS: u8 = 3;

/// Backoff unit: attempt `i` is scheduled `i * BACKOFF_UNIT_MS` milliseconds
/// after the previous attempt failed (the first after the command begins).
pub const BACKOFF_UNIT_MS: u64 = 1000;

/// A source is remote when its identifier is an `http(s)://` URL; anything
/// else is a local filesystem path.
pub open spec fn spec_is_remote(s: Seq<char>) -> bool {
    spec_starts_with(s, "http://"@) || spec_starts_with(s, "https://"@)
}

/// An in-flight `Play` resolution.
pub struct ResolveJob {
    /// The source identifier being resolved.
    pub source: String,
    /// Whether the source is fetched over HTTP (retried) rather than opened
    /// locally (not retried).
    pub remote: bool,
    /// Fetch attempts completed so far, all failed.
    pub attempts: u8,
}

/// The engine's model of the audio sink it owns.
pub struct SinkModel {
    /// The sources whose decoded audio is queued on the sink, oldest first.
    pub contents: Vec<String>,
    /// Whether the sink is paused.
    pub paused: bool,
    /// The gain numerator last applied, over
    /// [`GAIN_SCALE`](crate::volume::GAIN_SCALE).
    pub gain: u64,
}

/// The playback engine state.
pub struct Engine {
    /// Model of the owned sink.
    pub sink: SinkModel,
    /// Total duration of the current track in milliseconds; 0 until a
    /// duration is known.
    pub duration_ms: u64,
    /// The in-flight `Play` resolution, if one is running.
    pub job: Option<ResolveJob>,
}

/// Mathematical image of [`ResolveJob`].
pub ghost struct JobView {
    pub source: Seq<char>,
    pub remote: bool,
    pub attempts: int,
}

/// Mathematical image of [`SinkModel`].
pub ghost struct SinkView {
    pub contents: Seq<Seq<char>>,
    pub paused: bool,
    pub gain: int,
}

/// Mathematical image of [`Engine`].
pub ghost struct EngineView {
    pub sink: SinkView,
    pub duration_ms: int,
    pub job: Option<JobView>,
}

impl View for ResolveJob {
    type V = JobView;

    open spec fn view(&self) -> JobView {
        JobView { source: self.source@, remote: self.remote, attempts: self.attempts as int }
    }
}

impl View for SinkModel {
    type V = SinkView;

    open spec fn view(&self) -> SinkView {
        SinkView {
            contents: self.contents@.map_values(|s: String| s@),
            paused: self.paused,
            gain: self.gain as int,
        }
    }
}

impl View for Engine {
    type V = EngineView;

    open spec fn view(&self) -> EngineView {
        EngineView {
            sink: self.sink@,
            duration_ms: self.duration_ms as int,
            job: match self.job {
                Option::Some(j) => Option::Some(j@),
                Option::None => Option::None,
            },
        }
    }
}

/// What the caller must do to the device after handing the engine a command.
pub enum CommandEffect {
    /// Pause the device sink.
    SinkPause,
    /// Set the device sink playing.
    SinkResume,
    /// Apply this gain numerator (over [`GAIN_SCALE`]) to the device sink.
    SinkSetGain(u64),
    /// Stop the device sink, dropping its queued audio.
    SinkStop,
    /// The sink was cleared; resolve the source of the pending job, waiting
    /// `delay_ms` before a remote fetch, and report the outcome.
    BeginResolve { remote: bool, delay_ms: u64 },
}

/// What the caller must do after reporting a failed fetch attempt.
pub enum RetryStep {
    /// Wait `delay_ms`, make the next attempt, and report its outcome.
    Retry { delay_ms: u64 },
    /// The `Play` command has failed as a whole; the sink stays idle.
    GiveUp,
}

impl EngineView {
    /// Well-formedness: the sink holds at most one queued source, and none at
    /// all while a resolution is in flight (a `Play` clears before anything
    /// is appended).
    pub open spec fn wf(self) -> bool {
        &&& self.sink.contents.len() <= 1
        &&& self.job is Some ==> self.sink.contents.len() == 0
        &&& self.job is Some ==> 0 <= self.job->Some_0.attempts < MAX_FETCH_ATTEMPTS as int
    }

    /// The engine as first built: idle sink at the device's own gain, no
    /// duration known, no resolution running.
    pub open spec fn init() -> EngineView {
        EngineView {
            sink: SinkView { contents: Seq::empty(), paused: false, gain: GAIN_SCALE as int },
            duration_ms: 0,
            job: Option::None,
        }
    }

    /// State after taking one command while idle (no resolution in flight).
    pub open spec fn after_command(self, c: CommandView) -> EngineView {
        match c {
            CommandView::Play(s) => EngineView {
                sink: SinkView { contents: Seq::empty(), ..self.sink },
                duration_ms: 0,
                job: Option::Some(
                    JobView { source: s, remote: spec_is_remote(s), attempts: 0 },
                ),
            },
            CommandView::Resume => EngineView {
                sink: SinkView { paused: false, ..self.sink },
                ..self
            },
            CommandView::Pause => EngineView {
                sink: SinkView { paused: true, ..self.sink },
                ..self
            },
            CommandView::SetVolume(v) => EngineView {
                sink: SinkView { gain: gain_of(v as int), ..self.sink },
                ..self
            },
            CommandView::Stop => EngineView {
                sink: SinkView { contents: Seq::empty(), ..self.sink },
                ..self
            },
        }
    }

    /// The effect the caller performs for one command.
    pub open spec fn command_effect(self, c: CommandView) -> CommandEffect {
        match c {
            CommandView::Play(s) => CommandEffect::BeginResolve {
                remote: spec_is_remote(s),
                delay_ms: if spec_is_remote(s) {
                    BACKOFF_UNIT_MS
                } else {
                    0u64
                },
            },
            CommandView::Resume => CommandEffect::SinkResume,
            CommandView::Pause => CommandEffect::SinkPause,
            CommandView::SetVolume(v) => CommandEffect::SinkSetGain(gain_of(v as int) as u64),
            CommandView::Stop => CommandEffect::SinkStop,
        }
    }

    /// Whether a failed attempt is retried: only remote sources, and only
    /// while fewer than [`MAX_FETCH_ATTEMPTS`] attempts have failed.
    pub open spec fn retries_after_failure(self) -> bool {
        &&& self.job is Some
        &&& self.job->Some_0.remote
        &&& self.job->Some_0.attempts + 1 < MAX_FETCH_ATTEMPTS as int
    }

    /// State after one failed attempt: the retry count grows, or the job is
    /// dropped with the sink left idle and no duration recorded.
    pub open spec fn after_attempt_failure(self) -> EngineView {
        if self.retries_after_failure() {
            EngineView {
                job: Option::Some(
                    JobView {
                        attempts: self.job->Some_0.attempts + 1,
                        ..self.job->Some_0
                    },
                ),
                ..self
            }
        } else {
            EngineView { job: Option::None, ..self }
        }
    }

    /// The step the caller performs after a failed attempt. The delay before
    /// attempt `i` is `i * BACKOFF_UNIT_MS`: 1000 ms before the first, then
    /// 2000 ms, then 3000 ms.
    pub open spec fn failure_step(self) -> RetryStep {
        if self.retries_after_failure() {
            RetryStep::Retry {
                delay_ms: ((self.job->Some_0.attempts + 2) * (BACKOFF_UNIT_MS as int)) as u64,
            }
        } else {
            RetryStep::GiveUp
        }
    }

    /// State after the pending source resolved: its duration is recorded
    /// before its audio is appended, and the sink is set playing.
    pub open spec fn after_resolve_success(self, duration_ms: int) -> EngineView {
        EngineView {
            sink: SinkView {
                contents: self.sink.contents.push(self.job->Some_0.source),
                paused: false,
                ..self.sink
            },
            duration_ms: duration_ms,
            job: Option::None,
        }
    }
}

impl Engine {
    /// Builds the engine for a freshly opened, empty, unpaused sink.
    pub fn new() -> (e: Engine)
        ensures
            e@ == EngineView::init(),
            e@.wf(),
    {
        let e = Engine {
            sink: SinkModel { contents: Vec::new(), paused: false, gain: GAIN_SCALE },
            duration_ms: 0,
            job: Option::None,
        };
        proof {
            assert(e@.sink.contents =~= Seq::<Seq<char>>::empty());
            assert(e@ =~= EngineView::init());
        }
        e
    }

    /// Takes the next command. The executor is strictly sequential: a command
    /// is taken only once the previous one — including a `Play`'s whole
    /// resolution — has finished, which is what the `job is None`
    /// precondition states.
    pub fn on_command(&mut self, cmd: PlaybackCommand) -> (eff: CommandEffect)
        requires
            old(self)@.wf(),
            old(self)@.job is None,
        ensures
            final(self)@ == old(self)@.after_command(cmd@),
            eff == old(self)@.command_effect(cmd@),
            final(self)@.wf(),
    {
        match cmd {
            PlaybackCommand::Play(s) => {
                let remote = crate::strutil::starts_with(s.as_str(), "http://")
                    || crate::strutil::starts_with(s.as_str(), "https://");
                self.sink.contents = Vec::new();
                self.duration_ms = 0;
                self.job = Option::Some(ResolveJob { source: s, remote, attempts: 0 });
                proof {
                    assert(self@.sink.contents =~= Seq::<Seq<char>>::empty());
                }
                CommandEffect::BeginResolve {
                    remote,
                    delay_ms: if remote {
                        BACKOFF_UNIT_MS
                    } else {
                        0
                    },
                }
            },
            PlaybackCommand::Resume => {
                self.sink.paused = false;
                CommandEffect::SinkResume
            },
            PlaybackCommand::Pause => {
                self.sink.paused = true;
                CommandEffect::SinkPause
            },
            PlaybackCommand::SetVolume(v) => {
                let g = volume_gain(v);
                self.sink.gain = g;
                CommandEffect::SinkSetGain(g)
            },
            PlaybackCommand::Stop => {
                self.sink.contents = Vec::new();
                proof {
                    assert(self@.sink.contents =~= Seq::<Seq<char>>::empty());
                }
                CommandEffect::SinkStop
            },
        }
    }

    /// Reports that the current attempt to resolve the pending source failed:
    /// the fetch erred, the response status was not a success, or the bytes
    /// did not decode. Says whether to retry or to fail the `Play` command.
    pub fn resolve_failed(&mut self) -> (step: RetryStep)
        requires
            old(self)@.wf(),
            old(self)@.job is Some,
        ensures
            final(self)@ == old(self)@.after_attempt_failure(),
            step == old(self)@.failure_step(),
            final(self)@.wf(),
            final(self)@.sink.contents.len() == 0,
    {
        let retry = match &self.job {
            Option::Some(j) => j.remote && j.attempts + 1 < MAX_FETCH_ATTEMPTS,
            Option::None => false,
        };
        if retry {
            let delay_ms = match &mut self.job {
                Option::Some(j) => {
                    j.attempts = j.attempts + 1;
                    (j.attempts as u64 + 1) * BACKOFF_UNIT_MS
                },
                Option::None => 0,
            };
            RetryStep::Retry { delay_ms }
        } else {
            self.job = Option::None;
            RetryStep::GiveUp
        }
    }

    /// Reports that the pending source resolved into decoded audio of the
    /// given total duration (0 when no duration could be determined). The
    /// duration is recorded, the audio appended, and the sink set playing.
    pub fn resolve_succeeded(&mut self, duration_ms: u64)
        requires
            old(self)@.wf(),
            old(self)@.job is Some,
        ensures
            final(self)@ == old(self)@.after_resolve_success(duration_ms as int),
            final(self)@.wf(),
            final(self)@.sink.contents == seq![old(self)@.job->Some_0.source],
    {
        let ghost pre = self@;
        let j = self.job.take();
        match j {
            Option::Some(job) => {
                self.duration_ms = duration_ms;
                self.sink.contents.push(job.source);
                self.sink.paused = false;
                proof {
                    assert(self@.sink.contents =~= pre.sink.contents.push(pre.job->Some_0.source));
                    assert(pre.sink.contents.push(pre.job->Some_0.source) =~= seq![
                        pre.job->Some_0.source,
                    ]);
                }
            },
            Option::None => {},
        }
    }
}

} // verus!
