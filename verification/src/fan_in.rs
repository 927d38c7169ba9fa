//! A model of all the handles of one job at once, and what follows from it.
//!
//! A handle works in small steps, each of which is one access to the count,
//! the flag or the channel that the handles share. Between two steps of one
//! handle any number of steps of other handles may fall. The model takes the
//! steps of all handles in the order in which they reach the shared state,
//! and the theorems hold for every such order.
//!
//! The steps are those of [`crate::sink::RpcSink`]. Cloning a handle is one
//! step, and so is pushing a result. Reporting a failure is two: the flag is
//! raised, then the failure is pushed. Letting go of a handle is up to
//! three: the count is taken down; the handle that finds itself the last
//! looks at the flag; and where the flag is down it pushes the terminator.
//! What is pushed and what is decided on the values found is taken from the
//! functions of [`crate::sink`].
//!
//! For each handle the model keeps the record that the handle itself keeps
//! of what it has handed to the channel: every step that pushes adds to the
//! record of its handle what the contract of the handle's function says it
//! hands over. A handle that has taken the first step of letting go takes no
//! step but those that finish it, as the contracts of a handle ask.

use crate::protocol::StreamItemView;
use crate::sink::{data_item, failure_item, last_words, leaves_last, success_item};
use vstd::prelude::*;

verus! {

/// Where one handle stands.
pub enum Phase {
    /// Held by a producer, which may emit, fail, clone or let go.
    Live,
    /// Has raised the flag for the given failure and not pushed it yet.
    Raising(Seq<char>),
    /// Has taken itself out of the count as the last handle and not looked
    /// at the flag yet.
    Leaving,
    /// Has found the flag down and not pushed the terminator yet.
    Closing,
    /// Let go of, and done.
    Gone,
}

/// What the handles of one job share, and where each handle stands. The
/// first handle is number zero, and each clone takes the next number. The
/// stream is what the handles have pushed so far, in the order in which it
/// reached the channel; a client that listens gets it in that order.
pub struct FanIn {
    pub job_id: u64,
    pub peers: nat,
    pub had_error: bool,
    pub stream: Seq<StreamItemView>,
    pub handles: Seq<Phase>,
    /// For each handle, what it has handed to the channel, in its order.
    pub handed: Seq<Seq<StreamItemView>>,
    /// For each item of the stream, the handle that pushed it.
    pub pushers: Seq<int>,
}

/// One access of one handle to what the handles share.
pub enum Step {
    /// Adds one to the count; a new handle exists from then on.
    Clone { handle: int },
    /// Pushes a result.
    Next { handle: int, payload: Seq<u8> },
    /// Raises the flag.
    Raise { handle: int, error: Seq<char> },
    /// Pushes the failure for which the handle raised the flag.
    Report { handle: int },
    /// Takes one from the count.
    Release { handle: int },
    /// Looks at the flag.
    Inspect { handle: int },
    /// Pushes the success terminator.
    Finish { handle: int },
}

impl Step {
    /// The handle that takes the step.
    pub open spec fn handle(self) -> int {
        match self {
            Step::Clone { handle } => handle,
            Step::Next { handle, .. } => handle,
            Step::Raise { handle, .. } => handle,
            Step::Report { handle } => handle,
            Step::Release { handle } => handle,
            Step::Inspect { handle } => handle,
            Step::Finish { handle } => handle,
        }
    }
}

/// A job as its first handle is made: one handle, no failure, nothing sent.
pub open spec fn init(job_id: u64) -> FanIn {
    FanIn {
        job_id,
        peers: 1,
        had_error: false,
        stream: Seq::empty(),
        handles: seq![Phase::Live],
        handed: seq![Seq::empty()],
        pushers: Seq::empty(),
    }
}

/// Whether the handle can take the step now. A producer uses its handle
/// only while it holds it, finishes what it began before it begins
/// anything else, and the steps of letting go follow each other.
pub open spec fn enabled(s: FanIn, step: Step) -> bool {
    &&& 0 <= step.handle() < s.handles.len()
    &&& match step {
        Step::Report { .. } => s.handles[step.handle()] is Raising,
        Step::Inspect { .. } => s.handles[step.handle()] is Leaving,
        Step::Finish { .. } => s.handles[step.handle()] is Closing,
        _ => s.handles[step.handle()] is Live,
    }
}

/// What the job looks like once the handle has handed the item to the
/// channel: the item is the last of the stream, and the last of what the
/// handle has handed over.
pub open spec fn pushed(s: FanIn, handle: int, item: StreamItemView) -> FanIn {
    FanIn {
        stream: s.stream.push(item),
        handed: s.handed.update(handle, s.handed[handle].push(item)),
        pushers: s.pushers.push(handle),
        ..s
    }
}

/// What the job looks like after the step.
pub open spec fn after(s: FanIn, step: Step) -> FanIn {
    match step {
        Step::Clone { handle } => FanIn {
            peers: s.peers + 1,
            handles: s.handles.push(Phase::Live),
            handed: s.handed.push(Seq::empty()),
            ..s
        },
        Step::Next { handle, payload } => pushed(s, handle, data_item(s.job_id, payload)),
        Step::Raise { handle, error } => FanIn {
            had_error: true,
            handles: s.handles.update(handle, Phase::Raising(error)),
            ..s
        },
        Step::Report { handle } => FanIn {
            handles: s.handles.update(handle, Phase::Live),
            ..pushed(s, handle, failure_item(s.handles[handle]->Raising_0))
        },
        Step::Release { handle } => FanIn {
            peers: (s.peers - 1) as nat,
            handles: s.handles.update(
                handle,
                if leaves_last(s.peers as int) {
                    Phase::Leaving
                } else {
                    Phase::Gone
                },
            ),
            ..s
        },
        Step::Inspect { handle } => FanIn {
            handles: s.handles.update(
                handle,
                if last_words(s.had_error) is Some {
                    Phase::Closing
                } else {
                    Phase::Gone
                },
            ),
            ..s
        },
        Step::Finish { handle } => FanIn {
            handles: s.handles.update(handle, Phase::Gone),
            ..pushed(s, handle, success_item())
        },
    }
}

/// Whether the steps can be taken one after the other, starting from `s`.
pub open spec fn valid(s: FanIn, steps: Seq<Step>) -> bool
    decreases steps.len(),
{
    steps.len() == 0 || (valid(s, steps.drop_last()) && enabled(
        run(s, steps.drop_last()),
        steps.last(),
    ))
}

/// What the job looks like after the steps, taken from `s`.
pub open spec fn run(s: FanIn, steps: Seq<Step>) -> FanIn
    decreases steps.len(),
{
    if steps.len() == 0 {
        s
    } else {
        after(run(s, steps.drop_last()), steps.last())
    }
}

/// Whether every handle is gone.
pub open spec fn quiet(s: FanIn) -> bool {
    forall|i: int| 0 <= i < s.handles.len() ==> s.handles[i] is Gone
}

/// Whether the stream holds no success terminator.
pub open spec fn no_success(stream: Seq<StreamItemView>) -> bool {
    forall|k: int| 0 <= k < stream.len() ==> stream[k] != success_item()
}

/// Whether the stream holds exactly one success terminator, as its last
/// item.
pub open spec fn ends_in_success(stream: Seq<StreamItemView>) -> bool {
    &&& stream.len() > 0
    &&& stream.last() == success_item()
    &&& no_success(stream.drop_last())
}

/// Whether the item reports a failure of the execution.
pub open spec fn is_failure(item: StreamItemView) -> bool {
    exists|error: Seq<char>| item == failure_item(error)
}

/// Whether the stream holds a failure.
pub open spec fn has_failure(stream: Seq<StreamItemView>) -> bool {
    exists|k: int| 0 <= k < stream.len() && is_failure(#[trigger] stream[k])
}

/// The results that the steps push, in the order of the steps.
pub open spec fn results(job_id: u64, steps: Seq<Step>) -> Seq<StreamItemView>
    decreases steps.len(),
{
    if steps.len() == 0 {
        Seq::empty()
    } else {
        match steps.last() {
            Step::Next { payload, .. } => results(job_id, steps.drop_last()).push(
                data_item(job_id, payload),
            ),
            _ => results(job_id, steps.drop_last()),
        }
    }
}

/// Whether the handle is in the count.
pub open spec fn counted(phase: Phase) -> bool {
    phase is Live || phase is Raising
}

/// Whether the handle is the last one, on its way out.
pub open spec fn closing(phase: Phase) -> bool {
    phase is Leaving || phase is Closing
}

/// How many of the handles are in the count.
pub open spec fn held(handles: Seq<Phase>) -> nat
    decreases handles.len(),
{
    if handles.len() == 0 {
        0
    } else {
        held(handles.drop_last()) + if counted(handles.last()) {
            1nat
        } else {
            0nat
        }
    }
}

proof fn lemma_held_push(handles: Seq<Phase>, phase: Phase)
    ensures
        held(handles.push(phase)) == held(handles) + if counted(phase) {
            1nat
        } else {
            0nat
        },
{
    assert(handles.push(phase).drop_last() =~= handles);
}

proof fn lemma_held_update(handles: Seq<Phase>, i: int, phase: Phase)
    requires
        0 <= i < handles.len(),
    ensures
        held(handles.update(i, phase)) + (if counted(handles[i]) {
            1nat
        } else {
            0nat
        }) == held(handles) + if counted(phase) {
            1nat
        } else {
            0nat
        },
    decreases handles.len(),
{
    if i == handles.len() - 1 {
        assert(handles.update(i, phase).drop_last() =~= handles.drop_last());
    } else {
        lemma_held_update(handles.drop_last(), i, phase);
        assert(handles.update(i, phase).drop_last() =~= handles.drop_last().update(i, phase));
    }
}

proof fn lemma_held_counts(handles: Seq<Phase>)
    ensures
        held(handles) == 0 <==> forall|i: int| 0 <= i < handles.len() ==> !counted(handles[i]),
    decreases handles.len(),
{
    if handles.len() > 0 {
        lemma_held_counts(handles.drop_last());
        if held(handles) == 0 {
            assert forall|i: int| 0 <= i < handles.len() implies !counted(handles[i]) by {
                if i < handles.len() - 1 {
                    assert(handles.drop_last()[i] == handles[i]);
                }
            }
        } else {
            if counted(handles.last()) {
            } else {
                let i = choose|i: int|
                    0 <= i < handles.drop_last().len() && counted(handles.drop_last()[i]);
                assert(counted(handles[i]));
            }
        }
    }
}

/// What holds of a job whatever its handles have done so far.
pub open spec fn sound(s: FanIn) -> bool {
    &&& s.peers == held(s.handles)
    &&& forall|i: int| 0 <= i < s.handles.len() && s.handles[i] is Raising ==> s.had_error
    &&& forall|i: int| 0 <= i < s.handles.len() && s.handles[i] is Closing ==> !s.had_error
    &&& forall|i: int, j: int|
        0 <= i < s.handles.len() && 0 <= j < s.handles.len() && closing(s.handles[i]) && closing(
            s.handles[j],
        ) ==> i == j
    &&& forall|i: int|
        0 <= i < s.handles.len() && closing(s.handles[i]) ==> s.peers == 0 && no_success(s.stream)
    &&& s.peers > 0 ==> no_success(s.stream)
    &&& has_failure(s.stream) ==> s.had_error
    &&& s.had_error ==> has_failure(s.stream) || exists|i: int|
        0 <= i < s.handles.len() && s.handles[i] is Raising
    &&& quiet(s) ==> if s.had_error {
        no_success(s.stream)
    } else {
        ends_in_success(s.stream)
    }
    &&& forall|k: int|
        0 <= k < s.stream.len() ==> (#[trigger] s.stream[k] matches Ok(response)
            ==> response.job_id == s.job_id)
}

proof fn lemma_success_differs(job_id: u64, payload: Seq<u8>, error: Seq<char>)
    ensures
        data_item(job_id, payload) != success_item(),
        failure_item(error) != success_item(),
        !is_failure(success_item()),
        !is_failure(data_item(job_id, payload)),
        is_failure(failure_item(error)),
{
}

proof fn lemma_push_keeps_failure(stream: Seq<StreamItemView>, item: StreamItemView)
    ensures
        has_failure(stream) ==> has_failure(stream.push(item)),
        has_failure(stream.push(item)) ==> has_failure(stream) || is_failure(item),
        is_failure(item) ==> has_failure(stream.push(item)),
{
    if has_failure(stream) {
        let k = choose|k: int| 0 <= k < stream.len() && is_failure(#[trigger] stream[k]);
        assert(stream.push(item)[k] == stream[k]);
    }
    if has_failure(stream.push(item)) {
        let k = choose|k: int|
            0 <= k < stream.push(item).len() && is_failure(#[trigger] stream.push(item)[k]);
        if k < stream.len() {
            assert(stream.push(item)[k] == stream[k]);
        }
    }
    if is_failure(item) {
        assert(stream.push(item)[stream.len() as int] == item);
    }
}

proof fn lemma_counted_is_held(s: FanIn, i: int)
    requires
        sound(s),
        0 <= i < s.handles.len(),
        counted(s.handles[i]),
    ensures
        s.peers > 0,
        no_success(s.stream),
        forall|j: int| 0 <= j < s.handles.len() ==> !closing(#[trigger] s.handles[j]),
{
    lemma_held_counts(s.handles);
}

proof fn lemma_clone_sound(s: FanIn, step: Step)
    requires
        sound(s),
        enabled(s, step),
        step is Clone,
    ensures
        sound(after(s, step)),
{
    let t = after(s, step);
    let h = step.handle();
    lemma_counted_is_held(s, h);
    lemma_held_push(s.handles, Phase::Live);
    assert(t.handles[h] is Live);
    assert(!quiet(t));
    assert forall|i: int| 0 <= i < t.handles.len() implies !closing(#[trigger] t.handles[i]) by {
        if i < s.handles.len() {
            assert(t.handles[i] == s.handles[i]);
        }
    }
    if s.had_error && !has_failure(s.stream) {
        let i = choose|i: int| 0 <= i < s.handles.len() && s.handles[i] is Raising;
        assert(t.handles[i] is Raising);
    }
}

proof fn lemma_next_sound(s: FanIn, step: Step)
    requires
        sound(s),
        enabled(s, step),
        step is Next,
    ensures
        sound(after(s, step)),
{
    let t = after(s, step);
    let h = step.handle();
    let item = data_item(s.job_id, step->payload);
    lemma_counted_is_held(s, h);
    lemma_success_differs(s.job_id, step->payload, Seq::empty());
    lemma_push_keeps_failure(s.stream, item);
    assert(t.handles[h] is Live);
    assert(!quiet(t));
    assert(no_success(t.stream));
}

proof fn lemma_raise_sound(s: FanIn, step: Step)
    requires
        sound(s),
        enabled(s, step),
        step is Raise,
    ensures
        sound(after(s, step)),
{
    let t = after(s, step);
    let h = step.handle();
    lemma_counted_is_held(s, h);
    lemma_held_update(s.handles, h, Phase::Raising(step->error));
    assert(t.handles[h] is Raising);
    assert(!quiet(t));
    assert forall|i: int| 0 <= i < t.handles.len() implies !closing(#[trigger] t.handles[i]) by {
        if i != h {
            assert(t.handles[i] == s.handles[i]);
        }
    }
}

proof fn lemma_report_sound(s: FanIn, step: Step)
    requires
        sound(s),
        enabled(s, step),
        step is Report,
    ensures
        sound(after(s, step)),
{
    let t = after(s, step);
    let h = step.handle();
    let item = failure_item(s.handles[h]->Raising_0);
    lemma_counted_is_held(s, h);
    lemma_held_update(s.handles, h, Phase::Live);
    lemma_success_differs(s.job_id, Seq::empty(), s.handles[h]->Raising_0);
    lemma_push_keeps_failure(s.stream, item);
    assert(t.handles[h] is Live);
    assert(!quiet(t));
    assert(no_success(t.stream));
    assert forall|i: int| 0 <= i < t.handles.len() implies !closing(#[trigger] t.handles[i]) by {
        if i != h {
            assert(t.handles[i] == s.handles[i]);
        }
    }
    assert forall|i: int| 0 <= i < t.handles.len() && t.handles[i] is Raising implies t.had_error by {
        assert(s.handles[h] is Raising);
    }
}

proof fn lemma_release_sound(s: FanIn, step: Step)
    requires
        sound(s),
        enabled(s, step),
        step is Release,
    ensures
        sound(after(s, step)),
        !quiet(after(s, step)),
{
    let t = after(s, step);
    let h = step.handle();
    lemma_counted_is_held(s, h);
    lemma_held_update(s.handles, h, t.handles[h]);
    lemma_held_counts(t.handles);
    assert forall|i: int| 0 <= i < t.handles.len() && i != h implies t.handles[i]
        == s.handles[i] by {}
    if leaves_last(s.peers as int) {
        assert(t.handles[h] is Leaving);
        assert(!quiet(t));
    } else {
        assert(t.peers > 0);
        let i = choose|i: int| 0 <= i < t.handles.len() && counted(t.handles[i]);
        assert(!(t.handles[i] is Gone));
        assert(!quiet(t));
    }
    if s.had_error && !has_failure(s.stream) {
        let i = choose|i: int| 0 <= i < s.handles.len() && s.handles[i] is Raising;
        assert(i != h);
        assert(t.handles[i] is Raising);
    }
}

proof fn lemma_inspect_sound(s: FanIn, step: Step)
    requires
        sound(s),
        enabled(s, step),
        step is Inspect,
    ensures
        sound(after(s, step)),
{
    let t = after(s, step);
    let h = step.handle();
    assert(closing(s.handles[h]));
    lemma_held_update(s.handles, h, t.handles[h]);
    lemma_held_counts(s.handles);
    assert forall|i: int| 0 <= i < t.handles.len() && i != h implies t.handles[i]
        == s.handles[i] by {}
    assert forall|i: int| 0 <= i < s.handles.len() && i != h implies s.handles[i] is Gone by {
        assert(!counted(s.handles[i]));
        assert(!closing(s.handles[i]));
    }
    if s.had_error {
        assert(has_failure(s.stream)) by {
            if !has_failure(s.stream) {
                let i = choose|i: int| 0 <= i < s.handles.len() && s.handles[i] is Raising;
                assert(counted(s.handles[i]));
            }
        }
    } else {
        assert(t.handles[h] is Closing);
        assert(!quiet(t));
    }
}

proof fn lemma_finish_sound(s: FanIn, step: Step)
    requires
        sound(s),
        enabled(s, step),
        step is Finish,
    ensures
        sound(after(s, step)),
        quiet(after(s, step)),
{
    let t = after(s, step);
    let h = step.handle();
    assert(closing(s.handles[h]));
    lemma_held_update(s.handles, h, Phase::Gone);
    lemma_held_counts(s.handles);
    lemma_push_keeps_failure(s.stream, success_item());
    lemma_success_differs(s.job_id, Seq::empty(), Seq::empty());
    assert forall|i: int| 0 <= i < t.handles.len() && i != h implies t.handles[i]
        == s.handles[i] by {}
    assert forall|i: int| 0 <= i < s.handles.len() && i != h implies s.handles[i] is Gone by {
        assert(!counted(s.handles[i]));
        assert(!closing(s.handles[i]));
    }
    assert(t.stream.drop_last() =~= s.stream);
    assert(ends_in_success(t.stream));
    assert(!t.had_error);
}

/// Every step keeps a sound job sound.
pub proof fn lemma_step_sound(s: FanIn, step: Step)
    requires
        sound(s),
        enabled(s, step),
    ensures
        sound(after(s, step)),
{
    match step {
        Step::Clone { .. } => lemma_clone_sound(s, step),
        Step::Next { .. } => lemma_next_sound(s, step),
        Step::Raise { .. } => lemma_raise_sound(s, step),
        Step::Report { .. } => lemma_report_sound(s, step),
        Step::Release { .. } => lemma_release_sound(s, step),
        Step::Inspect { .. } => lemma_inspect_sound(s, step),
        Step::Finish { .. } => lemma_finish_sound(s, step),
    }
}

/// Whatever the handles of a job do, in whatever order, the job stays sound.
pub proof fn lemma_run_sound(job_id: u64, steps: Seq<Step>)
    requires
        valid(init(job_id), steps),
    ensures
        sound(run(init(job_id), steps)),
        run(init(job_id), steps).job_id == job_id,
    decreases steps.len(),
{
    if steps.len() == 0 {
        let s = init(job_id);
        assert(s.handles.drop_last() =~= Seq::<Phase>::empty());
        assert(held(s.handles) == 1) by {
            reveal_with_fuel(held, 2);
        }
        assert(s.handles[0] is Live);
        assert(!quiet(s));
    } else {
        lemma_run_sound(job_id, steps.drop_last());
        lemma_step_sound(run(init(job_id), steps.drop_last()), steps.last());
    }
}

proof fn lemma_sound_shape(s: FanIn)
    requires
        sound(s),
    ensures
        s.had_error ==> no_success(s.stream),
        !no_success(s.stream) ==> ends_in_success(s.stream) && quiet(s) && !s.had_error,
        quiet(s) && s.had_error ==> has_failure(s.stream),
{
    lemma_held_counts(s.handles);
    if s.peers == 0 && forall|i: int| 0 <= i < s.handles.len() ==> !closing(#[trigger] s.handles[i]) {
        assert forall|i: int| 0 <= i < s.handles.len() implies s.handles[i] is Gone by {
            assert(!counted(s.handles[i]));
            assert(!closing(s.handles[i]));
        }
        assert(quiet(s));
    }
    if quiet(s) && s.had_error && !has_failure(s.stream) {
        let i = choose|i: int| 0 <= i < s.handles.len() && s.handles[i] is Raising;
        assert(s.handles[i] is Gone);
    }
}

/// A stream never holds more than one success terminator, and nothing
/// follows it: while a handle is held, or once a failure was raised, the
/// stream holds none; where it holds one, that is its last item, every
/// handle is gone, and no failure was raised. Every result in the stream
/// carries the identifier of the job.
pub proof fn theorem_one_terminator(job_id: u64, steps: Seq<Step>)
    requires
        valid(init(job_id), steps),
    ensures
        ({
            let s = run(init(job_id), steps);
            &&& no_success(s.stream) || ends_in_success(s.stream)
            &&& ends_in_success(s.stream) ==> quiet(s) && !s.had_error
            &&& !quiet(s) || s.had_error ==> no_success(s.stream)
            &&& forall|k: int|
                0 <= k < s.stream.len() ==> (#[trigger] s.stream[k] matches Ok(response)
                    ==> response.job_id == job_id)
        }),
{
    let s = run(init(job_id), steps);
    lemma_run_sound(job_id, steps);
    lemma_sound_shape(s);
    if ends_in_success(s.stream) {
        assert(s.stream[s.stream.len() - 1] == success_item());
        assert(!no_success(s.stream));
    }
}

/// Whether `early` is how `late` begins.
pub open spec fn begins<T>(late: Seq<T>, early: Seq<T>) -> bool {
    early.len() <= late.len() && late.subrange(0, early.len() as int) == early
}

/// What no step undoes: the job stays the same job, a flag that is up stays
/// up, a count that is at zero stays at zero, and what the stream holds
/// stays in it, in its place.
pub proof fn lemma_step_keeps(s: FanIn, step: Step)
    requires
        sound(s),
        enabled(s, step),
    ensures
        after(s, step).job_id == s.job_id,
        s.had_error ==> after(s, step).had_error,
        s.peers == 0 ==> after(s, step).peers == 0,
        begins(after(s, step).stream, s.stream),
{
    let t = after(s, step);
    assert(t.stream.subrange(0, s.stream.len() as int) =~= s.stream);
    if s.peers == 0 {
        lemma_held_counts(s.handles);
        assert(!counted(s.handles[step.handle()]));
    }
}

/// The same of a whole run: what held after the first `k` steps of what no
/// step undoes, holds at the end. So the count comes to zero once at most.
pub proof fn lemma_run_keeps(job_id: u64, steps: Seq<Step>, k: int)
    requires
        valid(init(job_id), steps),
        0 <= k <= steps.len(),
    ensures
        valid(init(job_id), steps.take(k)),
        ({
            let early = run(init(job_id), steps.take(k));
            let late = run(init(job_id), steps);
            &&& early.had_error ==> late.had_error
            &&& early.peers == 0 ==> late.peers == 0
            &&& begins(late.stream, early.stream)
        }),
    decreases steps.len(),
{
    if k == steps.len() {
        assert(steps.take(k) =~= steps);
        let late = run(init(job_id), steps);
        assert(late.stream.subrange(0, late.stream.len() as int) =~= late.stream);
    } else {
        let before = steps.drop_last();
        assert(before.take(k) =~= steps.take(k));
        lemma_run_keeps(job_id, before, k);
        lemma_run_sound(job_id, before);
        let early = run(init(job_id), steps.take(k));
        let middle = run(init(job_id), before);
        let late = run(init(job_id), steps);
        lemma_step_keeps(middle, steps.last());
        assert(late.stream.subrange(0, early.stream.len() as int) =~= middle.stream.subrange(
            0,
            early.stream.len() as int,
        ));
    }
}

/// The part of the stream that the handle pushed, in the order of the
/// stream.
pub open spec fn share_of(stream: Seq<StreamItemView>, pushers: Seq<int>, handle: int) -> Seq<
    StreamItemView,
>
    decreases stream.len(),
{
    if stream.len() == 0 || pushers.len() != stream.len() {
        Seq::empty()
    } else {
        let before = share_of(stream.drop_last(), pushers.drop_last(), handle);
        if pushers.last() == handle {
            before.push(stream.last())
        } else {
            before
        }
    }
}

/// Whether the records of the handles and the stream agree: each item of the
/// stream was pushed by a handle, and what a handle has handed over is its
/// part of the stream, in the same order.
pub open spec fn accounted(s: FanIn) -> bool {
    &&& s.handed.len() == s.handles.len()
    &&& s.pushers.len() == s.stream.len()
    &&& forall|k: int| 0 <= k < s.pushers.len() ==> 0 <= #[trigger] s.pushers[k] < s.handles.len()
    &&& forall|h: int|
        0 <= h < s.handles.len() ==> #[trigger] s.handed[h] == share_of(s.stream, s.pushers, h)
}

proof fn lemma_share_of_stranger(stream: Seq<StreamItemView>, pushers: Seq<int>, handle: int)
    requires
        forall|k: int| 0 <= k < pushers.len() ==> #[trigger] pushers[k] != handle,
    ensures
        share_of(stream, pushers, handle) == Seq::<StreamItemView>::empty(),
    decreases stream.len(),
{
    if stream.len() > 0 && pushers.len() == stream.len() {
        assert forall|k: int| 0 <= k < pushers.drop_last().len() implies #[trigger] pushers.drop_last()[k]
            != handle by {
            assert(pushers.drop_last()[k] == pushers[k]);
        }
        lemma_share_of_stranger(stream.drop_last(), pushers.drop_last(), handle);
        assert(pushers[pushers.len() - 1] != handle);
    }
}

proof fn lemma_pushed_accounted(s: FanIn, handle: int, item: StreamItemView, handles: Seq<Phase>)
    requires
        accounted(s),
        0 <= handle < s.handles.len(),
        handles.len() == s.handles.len(),
    ensures
        accounted(FanIn { handles, ..pushed(s, handle, item) }),
{
    let t = FanIn { handles, ..pushed(s, handle, item) };
    assert(t.stream.drop_last() =~= s.stream);
    assert(t.pushers.drop_last() =~= s.pushers);
    assert forall|h: int| 0 <= h < t.handles.len() implies #[trigger] t.handed[h] == share_of(
        t.stream,
        t.pushers,
        h,
    ) by {
        assert(s.handed[h] == share_of(s.stream, s.pushers, h));
    }
    assert forall|k: int| 0 <= k < t.pushers.len() implies 0 <= #[trigger] t.pushers[k]
        < t.handles.len() by {
        if k < s.pushers.len() {
            assert(t.pushers[k] == s.pushers[k]);
        }
    }
}

/// Every step keeps the records and the stream in agreement.
pub proof fn lemma_step_accounted(s: FanIn, step: Step)
    requires
        accounted(s),
        enabled(s, step),
    ensures
        accounted(after(s, step)),
{
    let t = after(s, step);
    let h = step.handle();
    match step {
        Step::Clone { .. } => {
            lemma_share_of_stranger(s.stream, s.pushers, s.handles.len() as int);
            assert forall|g: int| 0 <= g < t.handles.len() implies #[trigger] t.handed[g]
                == share_of(t.stream, t.pushers, g) by {
                if g < s.handles.len() {
                    assert(t.handed[g] == s.handed[g]);
                }
            }
        },
        Step::Next { payload, .. } => {
            lemma_pushed_accounted(s, h, data_item(s.job_id, payload), s.handles);
            assert(t == FanIn { handles: s.handles, ..pushed(s, h, data_item(s.job_id, payload)) });
        },
        Step::Report { .. } => {
            lemma_pushed_accounted(
                s,
                h,
                failure_item(s.handles[h]->Raising_0),
                s.handles.update(h, Phase::Live),
            );
        },
        Step::Finish { .. } => {
            lemma_pushed_accounted(s, h, success_item(), s.handles.update(h, Phase::Gone));
        },
        _ => {
            assert forall|g: int| 0 <= g < t.handles.len() implies #[trigger] t.handed[g]
                == share_of(t.stream, t.pushers, g) by {
                assert(s.handed[g] == share_of(s.stream, s.pushers, g));
            }
        },
    }
}

/// Whatever the handles do, in whatever order, the stream is made of what
/// the handles have handed over and of nothing else, and what one handle
/// has handed over stands in the stream in the order in which the handle
/// handed it over.
pub proof fn theorem_stream_is_what_was_handed(job_id: u64, steps: Seq<Step>)
    requires
        valid(init(job_id), steps),
    ensures
        accounted(run(init(job_id), steps)),
    decreases steps.len(),
{
    if steps.len() == 0 {
        let s = init(job_id);
        assert(share_of(s.stream, s.pushers, 0) == Seq::<StreamItemView>::empty());
    } else {
        theorem_stream_is_what_was_handed(job_id, steps.drop_last());
        lemma_step_accounted(run(init(job_id), steps.drop_last()), steps.last());
    }
}

/// Whether no step raises the flag.
pub open spec fn never_fails(steps: Seq<Step>) -> bool {
    forall|i: int| 0 <= i < steps.len() ==> !(#[trigger] steps[i] is Raise)
}

/// Whether some step raises the flag.
pub open spec fn fails(steps: Seq<Step>) -> bool {
    exists|i: int| 0 <= i < steps.len() && #[trigger] steps[i] is Raise
}

/// Whether the steps only make handles and let go of them.
pub open spec fn only_comes_and_goes(steps: Seq<Step>) -> bool {
    forall|i: int|
        0 <= i < steps.len() ==> (#[trigger] steps[i] is Clone || steps[i] is Release
            || steps[i] is Inspect || steps[i] is Finish)
}

/// How many of the steps make a handle.
pub open spec fn clones(steps: Seq<Step>) -> nat
    decreases steps.len(),
{
    if steps.len() == 0 {
        0
    } else {
        clones(steps.drop_last()) + if steps.last() is Clone {
            1nat
        } else {
            0nat
        }
    }
}

proof fn lemma_clean_prefix(job_id: u64, steps: Seq<Step>)
    requires
        valid(init(job_id), steps),
        never_fails(steps),
    ensures
        ({
            let s = run(init(job_id), steps);
            &&& sound(s)
            &&& !s.had_error
            &&& s.stream == if quiet(s) {
                results(job_id, steps).push(success_item())
            } else {
                results(job_id, steps)
            }
        }),
    decreases steps.len(),
{
    lemma_run_sound(job_id, steps);
    if steps.len() == 0 {
        let s = init(job_id);
        assert(s.handles[0] is Live);
        assert(!quiet(s));
    } else {
        let before = steps.drop_last();
        let step = steps.last();
        let s = run(init(job_id), before);
        let t = run(init(job_id), steps);
        assert(never_fails(before)) by {
            assert forall|i: int| 0 <= i < before.len() implies !(#[trigger] before[i] is Raise) by {
                assert(before[i] == steps[i]);
            }
        }
        lemma_clean_prefix(job_id, before);
        let h = step.handle();
        assert(!(s.handles[h] is Gone));
        assert(!quiet(s));
        assert(!(step is Raise)) by {
            assert(steps[steps.len() - 1] == step);
        }
        match step {
            Step::Clone { .. } => {
                assert(t.handles[h] is Live);
            },
            Step::Next { .. } => {
                assert(t.handles[h] is Live);
            },
            Step::Raise { .. } => {},
            Step::Report { .. } => {},
            Step::Release { .. } => {
                lemma_release_sound(s, step);
            },
            Step::Inspect { .. } => {
                assert(t.handles[h] is Closing);
            },
            Step::Finish { .. } => {
                lemma_finish_sound(s, step);
            },
        }
    }
}

/// Where no producer fails and every handle is gone, the stream holds the
/// results in the order in which they were pushed, and after them the
/// success terminator: exactly one, behind every result of every producer.
pub proof fn theorem_clean_run(job_id: u64, steps: Seq<Step>)
    requires
        valid(init(job_id), steps),
        never_fails(steps),
        quiet(run(init(job_id), steps)),
    ensures
        run(init(job_id), steps).stream == results(job_id, steps).push(success_item()),
{
    lemma_clean_prefix(job_id, steps);
}

proof fn lemma_flag_stays(job_id: u64, steps: Seq<Step>)
    requires
        valid(init(job_id), steps),
        fails(steps),
    ensures
        run(init(job_id), steps).had_error,
    decreases steps.len(),
{
    let i = choose|i: int| 0 <= i < steps.len() && #[trigger] steps[i] is Raise;
    if i < steps.len() - 1 {
        assert(steps.drop_last()[i] == steps[i]);
        lemma_flag_stays(job_id, steps.drop_last());
    }
}

/// Where a producer fails, the stream never holds a success terminator,
/// whatever else happens and in whatever order; and once every handle is
/// gone, it holds the failure.
pub proof fn theorem_failed_run(job_id: u64, steps: Seq<Step>)
    requires
        valid(init(job_id), steps),
        fails(steps),
    ensures
        run(init(job_id), steps).had_error,
        no_success(run(init(job_id), steps).stream),
        quiet(run(init(job_id), steps)) ==> has_failure(run(init(job_id), steps).stream),
{
    lemma_flag_stays(job_id, steps);
    lemma_run_sound(job_id, steps);
    lemma_sound_shape(run(init(job_id), steps));
}

proof fn lemma_handles_made(job_id: u64, steps: Seq<Step>)
    requires
        valid(init(job_id), steps),
    ensures
        run(init(job_id), steps).handles.len() == clones(steps) + 1,
    decreases steps.len(),
{
    if steps.len() > 0 {
        lemma_handles_made(job_id, steps.drop_last());
    }
}

proof fn lemma_nothing_pushed(job_id: u64, steps: Seq<Step>)
    requires
        only_comes_and_goes(steps),
    ensures
        results(job_id, steps) == Seq::<StreamItemView>::empty(),
        never_fails(steps),
    decreases steps.len(),
{
    if steps.len() > 0 {
        let before = steps.drop_last();
        assert(only_comes_and_goes(before)) by {
            assert forall|i: int| 0 <= i < before.len() implies (#[trigger] before[i] is Clone
                || before[i] is Release || before[i] is Inspect || before[i] is Finish) by {
                assert(before[i] == steps[i]);
            }
        }
        lemma_nothing_pushed(job_id, before);
        assert(steps[steps.len() - 1] == steps.last());
    }
}

/// Where a job's handle is cloned any number of times and every handle is
/// then let go of, in whatever order and however the steps of letting go
/// fall between each other, the stream holds the success terminator and
/// nothing else. The handles are one more than the clones.
pub proof fn theorem_clones_then_drops(job_id: u64, steps: Seq<Step>)
    requires
        valid(init(job_id), steps),
        only_comes_and_goes(steps),
        quiet(run(init(job_id), steps)),
    ensures
        run(init(job_id), steps).stream == seq![success_item()],
        run(init(job_id), steps).handles.len() == clones(steps) + 1,
{
    lemma_nothing_pushed(job_id, steps);
    lemma_handles_made(job_id, steps);
    theorem_clean_run(job_id, steps);
    assert(Seq::<StreamItemView>::empty().push(success_item()) =~= seq![success_item()]);
}

} // verus!
