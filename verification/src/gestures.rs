//! What holds of the slider over any events: parameter gestures are bracketed, values only
//! change inside a gesture, and resets and text entry never start a drag.

use vstd::prelude::*;

use crate::slider::{
    initial_model, spec_value_update, transition, Key, Modifiers, MouseButton, SliderAction,
    SliderInput, SliderModel,
};
use crate::style::spec_even_steps;

verus! {

/// How an action changes the number of open parameter gestures.
pub open spec fn depth_change<G>(a: SliderAction<G>) -> int {
    match a {
        SliderAction::BeginSetParameter => 1,
        SliderAction::EndSetParameter => -1,
        _ => 0,
    }
}

/// Whether an action sets the parameter's value.
pub open spec fn changes_value<G>(a: SliderAction<G>) -> bool {
    match a {
        SliderAction::ResetToDefault
        | SliderAction::SetFromText
        | SliderAction::DragToPointer
        | SliderAction::DragFromStart(_)
        | SliderAction::SnapToPointer => true,
        _ => false,
    }
}

/// The number of open gestures after `actions`, starting from `depth` open gestures.
pub open spec fn depth_after<G>(depth: int, actions: Seq<SliderAction<G>>) -> int
    decreases actions.len(),
{
    if actions.len() == 0 {
        depth
    } else {
        depth_after(depth + depth_change(actions[0]), actions.drop_first())
    }
}

/// Whether, starting from `depth` open gestures, no gesture ends that was not begun, and every
/// value change happens while a gesture is open.
pub open spec fn bracketed<G>(depth: int, actions: Seq<SliderAction<G>>) -> bool
    decreases actions.len(),
{
    if actions.len() == 0 {
        true
    } else {
        &&& changes_value(actions[0]) ==> depth >= 1
        &&& depth + depth_change(actions[0]) >= 0
        &&& bracketed(depth + depth_change(actions[0]), actions.drop_first())
    }
}

/// The state after a sequence of events, and all the actions asked for, in order.
pub open spec fn run<G>(s: SliderModel<G>, inputs: Seq<SliderInput<G>>) -> (
    SliderModel<G>,
    Seq<SliderAction<G>>,
)
    decreases inputs.len(),
{
    if inputs.len() == 0 {
        (s, seq![])
    } else {
        let first = transition(s, inputs[0]);
        let rest = run(first.0, inputs.drop_first());
        (rest.0, first.1 + rest.1)
    }
}

/// Whether an event is a plain left press (or triple click), one that starts a drag.
pub open spec fn starts_drag<G>(input: SliderInput<G>) -> bool {
    match input {
        SliderInput::MouseDown { button, modifiers, .. }
        | SliderInput::MouseTripleClick { button, modifiers, .. } => {
            button is Left && !modifiers.alt && !modifiers.command
        },
        _ => false,
    }
}

/// Whether, along a sequence of events from `s`, no drag starts while a drag is active.
pub open spec fn no_nested_drag<G>(s: SliderModel<G>, inputs: Seq<SliderInput<G>>) -> bool
    decreases inputs.len(),
{
    if inputs.len() == 0 {
        true
    } else {
        &&& !(s.drag_active && starts_drag(inputs[0]))
        &&& no_nested_drag(transition(s, inputs[0]).0, inputs.drop_first())
    }
}

/// Whether an event resets the parameter or belongs to text entry: a double click, an alt or
/// command press, or closing the text box.
pub open spec fn resets_or_enters_text<G>(input: SliderInput<G>) -> bool {
    match input {
        SliderInput::CancelTextInput | SliderInput::TextInput { .. } => true,
        SliderInput::MouseDoubleClick { .. } => true,
        SliderInput::MouseDown { modifiers, .. }
        | SliderInput::MouseTripleClick { modifiers, .. } => modifiers.alt || modifiers.command,
        _ => false,
    }
}

pub open spec fn open_count(b: bool) -> int {
    if b {
        1
    } else {
        0
    }
}

proof fn lemma_bracketed_append<G>(depth: int, a: Seq<SliderAction<G>>, b: Seq<SliderAction<G>>)
    ensures
        bracketed(depth, a + b) == (bracketed(depth, a) && bracketed(depth_after(depth, a), b)),
        depth_after(depth, a + b) == depth_after(depth_after(depth, a), b),
    decreases a.len(),
{
    if a.len() == 0 {
        assert(a + b =~= b);
    } else {
        assert((a + b).drop_first() =~= a.drop_first() + b);
        lemma_bracketed_append(depth + depth_change(a[0]), a.drop_first(), b);
    }
}

/// One event keeps the actions bracketed: from at least as many open gestures as the slider has
/// active drags, the slider never ends a gesture that is not open and changes the value only
/// inside an open gesture; afterwards there are still at least as many open gestures as active
/// drags. The surplus of open gestures over active drags stays the same, except that a plain
/// press during a drag begins a second gesture.
pub proof fn lemma_event_bracketed<G>(s: SliderModel<G>, input: SliderInput<G>, depth: int)
    requires
        depth >= open_count(s.drag_active),
    ensures
        bracketed(depth, transition(s, input).1),
        depth_after(depth, transition(s, input).1) >= open_count(transition(s, input).0.drag_active),
        depth_after(depth, transition(s, input).1) - open_count(transition(s, input).0.drag_active)
            >= depth - open_count(s.drag_active),
        !(s.drag_active && starts_drag(input)) ==> depth_after(depth, transition(s, input).1)
            - open_count(transition(s, input).0.drag_active) == depth - open_count(s.drag_active),
{
    reveal_with_fuel(bracketed, 7);
    reveal_with_fuel(depth_after, 7);
}

/// Over any sequence of events, the actions are bracketed (from at least as many open gestures
/// as active drags), and the surplus of open gestures over active drags never shrinks; without a
/// press that starts a drag during a drag, it stays the same.
pub proof fn lemma_run_bracketed<G>(s: SliderModel<G>, inputs: Seq<SliderInput<G>>, depth: int)
    requires
        depth >= open_count(s.drag_active),
    ensures
        bracketed(depth, run(s, inputs).1),
        depth_after(depth, run(s, inputs).1) >= open_count(run(s, inputs).0.drag_active),
        depth_after(depth, run(s, inputs).1) - open_count(run(s, inputs).0.drag_active) >= depth
            - open_count(s.drag_active),
        no_nested_drag(s, inputs) ==> depth_after(depth, run(s, inputs).1) - open_count(
            run(s, inputs).0.drag_active,
        ) == depth - open_count(s.drag_active),
    decreases inputs.len(),
{
    if inputs.len() == 0 {
        reveal_with_fuel(bracketed, 1);
        reveal_with_fuel(depth_after, 1);
    } else {
        let first = transition(s, inputs[0]);
        lemma_event_bracketed(s, inputs[0], depth);
        let d1 = depth_after(depth, first.1);
        lemma_run_bracketed(first.0, inputs.drop_first(), d1);
        lemma_bracketed_append(depth, first.1, run(first.0, inputs.drop_first()).1);
    }
}

/// From a new slider, whatever the events, the host never sees a gesture end that did not begin
/// nor a value change outside a gesture; and unless a drag is started during a drag, exactly one
/// gesture is open while the slider is dragged and none otherwise.
pub proof fn lemma_gestures_from_new<G>(inputs: Seq<SliderInput<G>>)
    ensures
        bracketed(0, run(initial_model::<G>(), inputs).1),
        depth_after(0, run(initial_model::<G>(), inputs).1) >= open_count(
            run(initial_model::<G>(), inputs).0.drag_active,
        ),
        no_nested_drag(initial_model::<G>(), inputs) ==> depth_after(
            0,
            run(initial_model::<G>(), inputs).1,
        ) == open_count(run(initial_model::<G>(), inputs).0.drag_active),
{
    lemma_run_bracketed(initial_model::<G>(), inputs, 0);
}

/// Resetting the parameter or entering a text value does not start a drag: such an event leaves
/// the drag state and the granular start point as they were.
pub proof fn lemma_reset_and_text_keep_drag<G>(s: SliderModel<G>, input: SliderInput<G>)
    requires
        resets_or_enters_text(input),
    ensures
        transition(s, input).0.drag_active == s.drag_active,
        transition(s, input).0.granular_start == s.granular_start,
{
}

/// Alt+click replaces the label with a text box; closing the text box, with or without a value,
/// brings the label back.
pub proof fn lemma_text_box<G>(s: SliderModel<G>, input: SliderInput<G>)
    ensures
        (input is CancelTextInput || input is TextInput) ==> !transition(s, input).0.text_input_active,
        (match input {
            SliderInput::MouseDown { button, modifiers, .. }
            | SliderInput::MouseTripleClick { button, modifiers, .. } => button is Left
                && modifiers.alt,
            _ => false,
        }) ==> transition(s, input).0.text_input_active,
{
}

/// Holding shift while pressing starts a granular drag from the current value, without jumping to
/// a new value: no action of that press changes the value.
pub proof fn lemma_shift_press_keeps_value<G>(s: SliderModel<G>, input: SliderInput<G>)
    requires
        starts_drag(input),
        match input {
            SliderInput::MouseDown { modifiers, .. }
            | SliderInput::MouseTripleClick { modifiers, .. } => modifiers.shift,
            _ => false,
        },
    ensures
        transition(s, input).0.drag_active,
        transition(s, input).0.granular_start is Some,
        forall|k: int|
            0 <= k < transition(s, input).1.len() ==> !changes_value(
                #[trigger] transition(s, input).1[k],
            ),
{
}

/// Once a granular drag has recorded its start point, moving with shift held keeps that start
/// point, and the value is set relative to it.
pub proof fn lemma_granular_start_fixed<G>(s: SliderModel<G>, input: SliderInput<G>, start: G)
    requires
        s.drag_active,
        s.granular_start == Some(start),
        input matches SliderInput::MouseMove { modifiers, .. } && modifiers.shift,
    ensures
        transition(s, input).0.granular_start == Some(start),
        transition(s, input).1 == seq![SliderAction::DragFromStart(start)],
{
}

/// A granular start point is recorded only while a drag is active: every event keeps this.
pub proof fn lemma_granular_start_only_while_dragging<G>(s: SliderModel<G>, input: SliderInput<G>)
    requires
        s.granular_start is Some ==> s.drag_active,
    ensures
        transition(s, input).0.granular_start is Some ==> transition(s, input).0.drag_active,
{
}

/// Over any events from a new slider, a granular start point is recorded only while a drag is
/// active.
pub proof fn lemma_granular_start_from_new<G>(inputs: Seq<SliderInput<G>>)
    ensures
        run(initial_model::<G>(), inputs).0.granular_start is Some ==> run(
            initial_model::<G>(),
            inputs,
        ).0.drag_active,
{
    lemma_run_granular_start(initial_model::<G>(), inputs);
}

proof fn lemma_run_granular_start<G>(s: SliderModel<G>, inputs: Seq<SliderInput<G>>)
    requires
        s.granular_start is Some ==> s.drag_active,
    ensures
        run(s, inputs).0.granular_start is Some ==> run(s, inputs).0.drag_active,
    decreases inputs.len(),
{
    if inputs.len() > 0 {
        lemma_granular_start_only_while_dragging(s, inputs[0]);
        lemma_run_granular_start(transition(s, inputs[0]).0, inputs.drop_first());
    }
}

/// Releasing shift during a granular drag snaps back to the pointer: for a style that does not
/// remap drags, the slider ends up as after a plain move to the pointer, and sets the value the
/// same way (from the pointer's position, without remapping, only if the plain value changes).
pub proof fn lemma_shift_release_matches_plain_move<G>(
    s: SliderModel<G>,
    step_count: Option<usize>,
    modifiers: Modifiers,
    fresh_start: G,
)
    requires
        s.drag_active,
        s.granular_start is Some,
        !modifiers.shift,
        spec_even_steps(s.style, step_count) is None,
    ensures
        ({
            let release = transition(s, SliderInput::KeyUp { key: Key::Shift });
            let plain_move = transition(s, SliderInput::MouseMove { modifiers, fresh_start });
            &&& release.0 == plain_move.0
            &&& release.1.len() == 1
            &&& plain_move.1.len() == 1
            &&& spec_value_update(release.1[0], s.style, step_count) == spec_value_update(
                plain_move.1[0],
                s.style,
                step_count,
            )
            &&& spec_value_update(release.1[0], s.style, step_count) is Some
        }),
{
}

/// A third click in quick succession acts exactly as a press, so that a double click followed by
/// another drag works without a delay.
pub proof fn lemma_triple_click_is_press<G>(
    s: SliderModel<G>,
    button: MouseButton,
    modifiers: Modifiers,
    fresh_start: G,
)
    ensures
        transition(s, SliderInput::MouseTripleClick { button, modifiers, fresh_start })
            == transition(s, SliderInput::MouseDown { button, modifiers, fresh_start }),
{
}

/// The actions that set the value are exactly those that say how they set it.
pub proof fn lemma_value_update_iff_changes_value<G>(
    action: SliderAction<G>,
    style: crate::style::ParamSliderStyle,
    step_count: Option<usize>,
)
    ensures
        spec_value_update(action, style, step_count) is Some <==> changes_value(action),
{
}

/// No event changes how the slider displays its value.
pub proof fn lemma_run_keeps_style<G>(s: SliderModel<G>, inputs: Seq<SliderInput<G>>)
    ensures
        run(s, inputs).0.style == s.style,
    decreases inputs.len(),
{
    if inputs.len() > 0 {
        lemma_run_keeps_style(transition(s, inputs[0]).0, inputs.drop_first());
    }
}

} // verus!
