//! Runs of the sequencer: what holds of every sequence of inputs.
//!
//! A run starts in some state and feeds the inputs to
//! [`transition`](crate::sequencer::transition) one after the other. The
//! theorems below hold whatever the inputs are and in whatever order they
//! come, also where the caller offers an input out of turn.

use crate::opener::{cross_namespace_viewer_command, default_viewer_command, ArtifactOpener};
use crate::sequencer::{transition, ActionView, Input, Phase, SequencerView, ViewerState};
use vstd::prelude::*;

verus! {

/// The state after all of `inputs`, in their order, starting from `s`.
pub open spec fn state_after(s: SequencerView, inputs: Seq<Input>) -> SequencerView
    decreases inputs.len(),
{
    if inputs.len() == 0 {
        s
    } else {
        transition(state_after(s, inputs.drop_last()), inputs.last()).0
    }
}

/// The state in which input number `k` of `inputs` finds the sequencer.
pub open spec fn state_before(s: SequencerView, inputs: Seq<Input>, k: int) -> SequencerView {
    state_after(s, inputs.take(k))
}

/// The action that input number `k` of `inputs` calls for.
pub open spec fn action_at(s: SequencerView, inputs: Seq<Input>, k: int) -> ActionView {
    transition(state_before(s, inputs, k), inputs[k]).1
}

/// Whether input number `k` of `inputs` was taken, not rejected.
pub open spec fn accepted_at(s: SequencerView, inputs: Seq<Input>, k: int) -> bool {
    !(action_at(s, inputs, k) is Rejected)
}

/// Whether input number `k` asks for the viewer, directly or by asking for
/// the conversion of the artifact path first.
pub open spec fn opens_at(s: SequencerView, inputs: Seq<Input>, k: int) -> bool {
    action_at(s, inputs, k) is LaunchViewer || action_at(s, inputs, k) is ConvertPath
}

/// Whether the state is one that a sequencer can be in: the path is only
/// converted before the viewer was started, and the viewer command only runs
/// once it was.
pub open spec fn consistent(s: SequencerView) -> bool {
    &&& s.phase is Converting ==> s.viewer is AwaitingFirstSuccess
    &&& s.phase is Launching ==> s.viewer is SteadyState
}

/// Whether the viewer was started and no conversion is pending.
pub open spec fn settled(s: SequencerView) -> bool {
    s.viewer is SteadyState && !(s.phase is Converting)
}

/// Whether every build that was reported as finished before input number `k`
/// had failed.
pub open spec fn no_success_before(s: SequencerView, inputs: Seq<Input>, k: int) -> bool {
    forall|j: int|
        0 <= j < k && #[trigger] accepted_at(s, inputs, j) ==> inputs[j] != Input::BuildExited(
            true,
        )
}

/// The state before input `k + 1` is the state before input `k`, moved on by
/// input `k`.
pub proof fn lemma_state_before_next(s: SequencerView, inputs: Seq<Input>, k: int)
    requires
        0 <= k < inputs.len(),
    ensures
        state_before(s, inputs, k + 1) == transition(state_before(s, inputs, k), inputs[k]).0,
        state_before(s, inputs, 0) == s,
{
    assert(inputs.take(k + 1).drop_last() =~= inputs.take(k));
    assert(inputs.take(k + 1).last() == inputs[k]);
}

/// The configuration is the same in every state of a run: the opener, the
/// artifact path and the compiler's command line never change.
pub proof fn law_configuration_is_fixed(s: SequencerView, inputs: Seq<Input>)
    ensures
        state_after(s, inputs).opener == s.opener,
        state_after(s, inputs).artifact == s.artifact,
        state_after(s, inputs).invocation == s.invocation,
    decreases inputs.len(),
{
    if inputs.len() > 0 {
        law_configuration_is_fixed(s, inputs.drop_last());
    }
}

/// A run that starts in a consistent state stays in consistent states.
pub proof fn law_states_stay_consistent(s: SequencerView, inputs: Seq<Input>)
    requires
        consistent(s),
    ensures
        consistent(state_after(s, inputs)),
    decreases inputs.len(),
{
    if inputs.len() > 0 {
        law_states_stay_consistent(s, inputs.drop_last());
    }
}

/// Once the viewer was started it stays started, and nothing asks for it
/// again: from position `from` on, no input opens the viewer.
pub proof fn law_steady_state_is_permanent(
    s: SequencerView,
    inputs: Seq<Input>,
    from: int,
    k: int,
)
    requires
        0 <= from <= k <= inputs.len(),
        settled(state_before(s, inputs, from)),
    ensures
        settled(state_before(s, inputs, k)),
        k < inputs.len() ==> !opens_at(s, inputs, k),
    decreases k - from,
{
    if from < k {
        law_steady_state_is_permanent(s, inputs, from, k - 1);
        lemma_state_before_next(s, inputs, k - 1);
    }
}

/// The viewer is launched at most once in a run, whatever the inputs are and
/// however many builds succeed: two inputs that launch it are the same input.
pub proof fn law_viewer_launched_at_most_once(
    s: SequencerView,
    inputs: Seq<Input>,
    i: int,
    j: int,
)
    requires
        0 <= i < inputs.len(),
        0 <= j < inputs.len(),
        action_at(s, inputs, i) is LaunchViewer,
        action_at(s, inputs, j) is LaunchViewer,
    ensures
        i == j,
{
    if i < j {
        lemma_state_before_next(s, inputs, i);
        law_steady_state_is_permanent(s, inputs, i + 1, j);
    } else if j < i {
        lemma_state_before_next(s, inputs, j);
        law_steady_state_is_permanent(s, inputs, j + 1, i);
    }
}

/// While no build has succeeded, a run that starts idle with the viewer not
/// yet open only builds: up to input number `m` nothing asks for the viewer.
proof fn lemma_quiet_while_builds_fail(s: SequencerView, inputs: Seq<Input>, k: int, m: int)
    requires
        s.viewer is AwaitingFirstSuccess,
        s.phase is Idle,
        0 <= m <= k <= inputs.len(),
        no_success_before(s, inputs, k),
    ensures
        state_before(s, inputs, m).viewer is AwaitingFirstSuccess,
        state_before(s, inputs, m).phase is Idle || state_before(s, inputs, m).phase is Building,
        forall|j: int| 0 <= j < m ==> !opens_at(s, inputs, j),
    decreases m,
{
    if m == 0 {
        assert(inputs.take(0) =~= Seq::<Input>::empty());
    } else {
        lemma_quiet_while_builds_fail(s, inputs, k, m - 1);
        lemma_state_before_next(s, inputs, m - 1);
        assert(accepted_at(s, inputs, m - 1) ==> inputs[m - 1] != Input::BuildExited(true));
    }
}

/// If every build that finished before input number `k` failed and input `k`
/// reports a build that succeeded, then the viewer is asked for at `k` and
/// not before, however many builds failed first. With the default opener
/// input `k` launches the viewer on the artifact, and no other input of the
/// run launches it. With the cross-namespace opener input `k` asks for the
/// conversion of the artifact path.
pub proof fn law_first_success_opens_viewer(s: SequencerView, inputs: Seq<Input>, k: int)
    requires
        s.viewer is AwaitingFirstSuccess,
        s.phase is Idle,
        0 <= k < inputs.len(),
        no_success_before(s, inputs, k),
        inputs[k] == Input::BuildExited(true),
        accepted_at(s, inputs, k),
    ensures
        forall|j: int| 0 <= j < k ==> !opens_at(s, inputs, j),
        s.opener is DefaultOpen ==> action_at(s, inputs, k) == ActionView::LaunchViewer(
            default_viewer_command(s.artifact),
        ),
        s.opener is DefaultOpen ==> forall|j: int|
            0 <= j < inputs.len() && j != k ==> !(#[trigger] action_at(s, inputs, j)
                is LaunchViewer),
        s.opener is CrossNamespace ==> action_at(s, inputs, k) == ActionView::ConvertPath(
            s.artifact,
        ),
{
    lemma_quiet_while_builds_fail(s, inputs, k, k);
    law_configuration_is_fixed(s, inputs.take(k));
    lemma_state_before_next(s, inputs, k);
    if s.opener is DefaultOpen {
        assert forall|j: int| 0 <= j < inputs.len() && j != k implies !(#[trigger] action_at(
            s,
            inputs,
            j,
        ) is LaunchViewer) by {
            if j > k {
                law_steady_state_is_permanent(s, inputs, k + 1, j);
            } else {
                assert(!opens_at(s, inputs, j));
            }
        }
    }
}

/// With the cross-namespace opener, the answer to a pending conversion
/// decides: a converted path launches the viewer on that path, with `\` for
/// every `/`, and the viewer counts as started; a failed conversion is fatal
/// for this attempt, launches nothing and leaves the viewer unopened, so that
/// the next successful build asks for it again.
pub proof fn law_conversion_decides_launch(s: SequencerView, inputs: Seq<Input>, k: int)
    requires
        0 <= k < inputs.len(),
        state_before(s, inputs, k).phase is Converting,
        inputs[k] is PathConverted,
    ensures
        inputs[k] matches Input::PathConverted(Some(path)) ==> action_at(s, inputs, k)
            == ActionView::LaunchViewer(cross_namespace_viewer_command(path@)) && state_before(
            s,
            inputs,
            k + 1,
        ).viewer is SteadyState,
        inputs[k] == Input::PathConverted(None) ==> action_at(s, inputs, k) is Fail
            && state_before(s, inputs, k + 1).viewer == state_before(s, inputs, k).viewer
            && state_before(s, inputs, k + 1).phase is Idle,
{
    lemma_state_before_next(s, inputs, k);
}

/// A phase that holds before input `a` and no longer before input `b` was
/// left by some input in between.
proof fn lemma_phase_was_left(s: SequencerView, inputs: Seq<Input>, a: int, b: int) -> (k: int)
    requires
        0 <= a <= b <= inputs.len(),
        state_before(s, inputs, a).phase != state_before(s, inputs, b).phase,
    ensures
        a <= k < b,
        state_before(s, inputs, k).phase == state_before(s, inputs, a).phase,
        state_before(s, inputs, k + 1).phase != state_before(s, inputs, a).phase,
    decreases b - a,
{
    if state_before(s, inputs, b - 1).phase == state_before(s, inputs, a).phase {
        b - 1
    } else {
        lemma_phase_was_left(s, inputs, a, b - 1)
    }
}

/// Builds never overlap. Between two inputs that start the compiler, the
/// first build was reported as finished; and whatever the first build led to,
/// a conversion of the artifact path or a launch of the viewer, was reported
/// as finished too, before the second build started.
pub proof fn law_builds_do_not_overlap(s: SequencerView, inputs: Seq<Input>, i: int, j: int)
    requires
        0 <= i < j < inputs.len(),
        action_at(s, inputs, i) is RunCompiler,
        action_at(s, inputs, j) is RunCompiler,
    ensures
        exists|k: int| i < k < j && inputs[k] is BuildExited && #[trigger] accepted_at(s, inputs, k),
        forall|l: int|
            i < l < j && #[trigger] action_at(s, inputs, l) is ConvertPath ==> exists|k: int|
                l < k < j && inputs[k] is PathConverted && #[trigger] accepted_at(s, inputs, k),
        forall|l: int|
            i < l < j && #[trigger] action_at(s, inputs, l) is LaunchViewer ==> exists|k: int|
                l < k < j && inputs[k] is ViewerReturned && #[trigger] accepted_at(s, inputs, k),
{
    lemma_state_before_next(s, inputs, i);
    let k = lemma_phase_was_left(s, inputs, i + 1, j);
    lemma_state_before_next(s, inputs, k);
    assert(inputs[k] is BuildExited && accepted_at(s, inputs, k));
    assert forall|l: int| i < l < j && #[trigger] action_at(s, inputs, l) is ConvertPath implies exists|
        k: int,
    | l < k < j && inputs[k] is PathConverted && #[trigger] accepted_at(s, inputs, k) by {
        lemma_state_before_next(s, inputs, l);
        let k = lemma_phase_was_left(s, inputs, l + 1, j);
        lemma_state_before_next(s, inputs, k);
        assert(inputs[k] is PathConverted && accepted_at(s, inputs, k));
    }
    assert forall|l: int| i < l < j && #[trigger] action_at(s, inputs, l) is LaunchViewer implies exists|
        k: int,
    | l < k < j && inputs[k] is ViewerReturned && #[trigger] accepted_at(s, inputs, k) by {
        lemma_state_before_next(s, inputs, l);
        let k = lemma_phase_was_left(s, inputs, l + 1, j);
        lemma_state_before_next(s, inputs, k);
        assert(inputs[k] is ViewerReturned && accepted_at(s, inputs, k));
    }
}

/// The compiler is only started from the idle phase, by a relevant change. A
/// change that arrives while a build, a conversion or the viewer command is
/// under way is rejected: it changes nothing and starts nothing.
pub proof fn law_compiler_starts_only_when_idle(s: SequencerView, input: Input)
    ensures
        transition(s, input).1 is RunCompiler <==> s.phase is Idle && (input matches Input::Change(
            event,
        ) && event.relevant()),
        input is Change && !(s.phase is Idle) ==> transition(s, input) == (
            s,
            ActionView::Rejected,
        ),
{
}

} // verus!
