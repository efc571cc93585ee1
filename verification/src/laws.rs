//! Engine-level laws: statements that relate several engine steps, proved
//! once and for all over the state-machine model in [`crate::engine`].

use vstd::prelude::*;

use crate::command::CommandView;
use crate::engine::{CommandEffect, EngineView, RetryStep, spec_is_remote};
use crate::query::spec_progress;
use crate::volume::gain_of;

verus! {

/// Outcome of one resolution attempt, as the engine is told of it.
pub ghost enum ResolveOutcome {
    /// The attempt failed: fetch error, bad status, or undecodable bytes.
    Failure,
    /// The source resolved into audio of this total duration.
    Success { duration_ms: int },
}

/// One resolution report applied to the engine.
pub open spec fn after_outcome(e: EngineView, o: ResolveOutcome) -> EngineView {
    match o {
        ResolveOutcome::Failure => e.after_attempt_failure(),
        ResolveOutcome::Success { duration_ms } => e.after_resolve_success(duration_ms),
    }
}

/// The engine state after reporting resolution outcomes in order, stopping
/// once no resolution is in flight any more.
pub open spec fn resolve_run(e: EngineView, outcomes: Seq<ResolveOutcome>) -> EngineView
    decreases outcomes.len(),
{
    if e.job is None || outcomes.len() == 0 {
        e
    } else {
        resolve_run(after_outcome(e, outcomes[0]), outcomes.drop_first())
    }
}

/// The engine state after taking `Play(src)` and then reporting resolution
/// outcomes in order.
pub open spec fn play_run(e: EngineView, src: Seq<char>, outcomes: Seq<ResolveOutcome>) -> EngineView {
    resolve_run(e.after_command(CommandView::Play(src)), outcomes)
}

/// Every source on the sink, and the source of the resolution in flight if
/// any, is `src`.
pub open spec fn only_source(e: EngineView, src: Seq<char>) -> bool {
    &&& forall|i: int| 0 <= i < e.sink.contents.len() ==> e.sink.contents[i] == src
    &&& e.job is Some ==> e.job->Some_0.source == src
}

/// Resolution reports never bring audio of any source but the one being
/// resolved onto the sink.
pub proof fn lemma_resolve_run_only_source(e: EngineView, outcomes: Seq<ResolveOutcome>, src: Seq<char>)
    requires
        e.wf(),
        only_source(e, src),
    ensures
        resolve_run(e, outcomes).wf(),
        only_source(resolve_run(e, outcomes), src),
    decreases outcomes.len(),
{
    if e.job is None || outcomes.len() == 0 {
    } else {
        let e2 = after_outcome(e, outcomes[0]);
        match outcomes[0] {
            ResolveOutcome::Failure => {
                assert(e2.wf());
                assert(only_source(e2, src));
            },
            ResolveOutcome::Success { duration_ms } => {
                assert(e2.sink.contents == e.sink.contents.push(e.job->Some_0.source));
                assert(e2.wf());
                assert(only_source(e2, src));
            },
        }
        lemma_resolve_run_only_source(e2, outcomes.drop_first(), src);
    }
}

/// Law: a second `Play` always wins. If `Play(a)` is processed to completion
/// (success or exhausted retries — the executor takes no further command
/// before that), and `Play(b)` is then taken, then from the moment `Play(b)`
/// begins processing the sink only ever holds `b`'s audio: `a`'s audio is
/// never appended after it, whatever outcomes either resolution had. The
/// quantified outcome sequences cover every instant of `b`'s processing.
pub proof fn lemma_second_play_wins(
    e: EngineView,
    a: Seq<char>,
    b: Seq<char>,
    oa: Seq<ResolveOutcome>,
    ob: Seq<ResolveOutcome>,
)
    requires
        e.wf(),
        e.job is None,
        play_run(e, a, oa).job is None,
    ensures
        ({
            let eb = play_run(play_run(e, a, oa), b, ob);
            &&& eb.wf()
            &&& forall|i: int| 0 <= i < eb.sink.contents.len() ==> eb.sink.contents[i] == b
        }),
{
    let e1 = e.after_command(CommandView::Play(a));
    lemma_resolve_run_only_source(e1, oa, a);
    let ea = play_run(e, a, oa);
    let e2 = ea.after_command(CommandView::Play(b));
    assert(e2.wf());
    assert(only_source(e2, b));
    lemma_resolve_run_only_source(e2, ob, b);
}

/// Law: a remote `Play` whose every attempt fails makes exactly
/// [`MAX_FETCH_ATTEMPTS`](crate::engine::MAX_FETCH_ATTEMPTS) attempts, with
/// increasing delays of 1000, 2000 and 3000 milliseconds before them, then
/// fails the command as a whole, leaving the sink idle and no duration
/// recorded.
pub proof fn lemma_remote_retry_exhaustion(e: EngineView, url: Seq<char>)
    requires
        e.wf(),
        e.job is None,
        spec_is_remote(url),
    ensures
        e.command_effect(CommandView::Play(url)) == (CommandEffect::BeginResolve {
            remote: true,
            delay_ms: 1000u64,
        }),
        ({
            let e1 = e.after_command(CommandView::Play(url));
            let e2 = e1.after_attempt_failure();
            let e3 = e2.after_attempt_failure();
            let e4 = e3.after_attempt_failure();
            &&& e1.failure_step() == (RetryStep::Retry { delay_ms: 2000u64 })
            &&& e2.failure_step() == (RetryStep::Retry { delay_ms: 3000u64 })
            &&& e3.failure_step() == RetryStep::GiveUp
            &&& e4.job is None
            &&& e4.sink.contents.len() == 0
            &&& e4.duration_ms == 0
        }),
{
}

/// Law: a `pause` and a `set volume` issued concurrently are both applied
/// exactly once whichever arrives first: either interleaving leaves the same
/// state, paused and at the requested gain, with everything else unchanged.
pub proof fn lemma_pause_volume_any_order(e: EngineView, v: u32)
    requires
        e.wf(),
        e.job is None,
    ensures
        ({
            let pv = e.after_command(CommandView::Pause).after_command(CommandView::SetVolume(v));
            let vp = e.after_command(CommandView::SetVolume(v)).after_command(CommandView::Pause);
            &&& pv == vp
            &&& pv.sink.paused
            &&& pv.sink.gain == gain_of(v as int)
            &&& pv.sink.contents == e.sink.contents
            &&& pv.duration_ms == e.duration_ms
            &&& pv.job == e.job
        }),
{
}

/// The engine state after a sequence of commands taken while idle. Commands
/// other than `Play` leave no resolution in flight, so the run stays
/// well-defined without resolution reports.
pub open spec fn run_commands(e: EngineView, cs: Seq<CommandView>) -> EngineView
    decreases cs.len(),
{
    if cs.len() == 0 {
        e
    } else {
        run_commands(e.after_command(cs[0]), cs.drop_first())
    }
}

/// Law: before any `Play` has been issued, a progress query reports a
/// duration of 0 and is not "ended", whatever other commands came first.
/// With nothing ever appended the device has never advanced, so its reported
/// position is 0, which the premise on `position_ms` states.
pub proof fn lemma_progress_before_first_play(cs: Seq<CommandView>, sink_empty: bool)
    requires
        forall|i: int| 0 <= i < cs.len() ==> !(cs[i] is Play),
    ensures
        ({
            let e = run_commands(EngineView::init(), cs);
            &&& e.duration_ms == 0
            &&& e.sink.contents.len() == 0
            &&& e.job is None
            &&& spec_progress(e.duration_ms, 0, sink_empty) == (0int, 0int, false)
        }),
{
    lemma_no_play_keeps_idle(EngineView::init(), cs);
}

/// Helper for [`lemma_progress_before_first_play`]: commands other than
/// `Play` preserve an empty sink, a zero duration and the absence of a
/// resolution job.
proof fn lemma_no_play_keeps_idle(e: EngineView, cs: Seq<CommandView>)
    requires
        e.duration_ms == 0,
        e.sink.contents.len() == 0,
        e.job is None,
        forall|i: int| 0 <= i < cs.len() ==> !(cs[i] is Play),
    ensures
        run_commands(e, cs).duration_ms == 0,
        run_commands(e, cs).sink.contents.len() == 0,
        run_commands(e, cs).job is None,
    decreases cs.len(),
{
    if cs.len() > 0 {
        let e2 = e.after_command(cs[0]);
        assert(!(cs[0] is Play));
        lemma_no_play_keeps_idle(e2, cs.drop_first());
    }
}

} // verus!
