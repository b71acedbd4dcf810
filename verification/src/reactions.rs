//! What the slider does with each kind of event, for every state it can be in: which actions it
//! asks for and how its state changes.

use vstd::prelude::*;

use crate::slider::{
    spec_value_update, transition, Key, Modifiers, MouseButton, SliderAction, SliderInput,
    SliderModel, ValueSource, ValueUpdate,
};
use crate::style::{is_even_stepped, ParamSliderStyle};

verus! {

/// A plain left press (no alt, no command, no shift) starts a drag at the pointer, in any state:
/// it captures the pointer, takes the focus, becomes active, begins a gesture, sets the value
/// under the pointer and handles the event. Any earlier granular start is forgotten.
pub proof fn lemma_plain_press_drags_to_pointer<G>(
    s: SliderModel<G>,
    modifiers: Modifiers,
    fresh_start: G,
)
    requires
        !modifiers.alt,
        !modifiers.command,
        !modifiers.shift,
    ensures
        transition(
            s,
            SliderInput::MouseDown { button: MouseButton::Left, modifiers, fresh_start },
        ).0 == (SliderModel { drag_active: true, granular_start: None::<G>, ..s }),
        transition(
            s,
            SliderInput::MouseDown { button: MouseButton::Left, modifiers, fresh_start },
        ).1 == seq![
            SliderAction::<G>::Capture,
            SliderAction::Focus,
            SliderAction::SetActive(true),
            SliderAction::BeginSetParameter,
            SliderAction::DragToPointer,
            SliderAction::Consume,
        ],
{
}

/// A left press with shift (and neither alt nor command) starts a granular drag in any state:
/// it records the start point given with the event and does not set the value.
pub proof fn lemma_shift_press_records_start<G>(
    s: SliderModel<G>,
    modifiers: Modifiers,
    fresh_start: G,
)
    requires
        !modifiers.alt,
        !modifiers.command,
        modifiers.shift,
    ensures
        transition(
            s,
            SliderInput::MouseDown { button: MouseButton::Left, modifiers, fresh_start },
        ).0 == (SliderModel { drag_active: true, granular_start: Some(fresh_start), ..s }),
        transition(
            s,
            SliderInput::MouseDown { button: MouseButton::Left, modifiers, fresh_start },
        ).1 == seq![
            SliderAction::<G>::Capture,
            SliderAction::Focus,
            SliderAction::SetActive(true),
            SliderAction::BeginSetParameter,
            SliderAction::Consume,
        ],
{
}

/// Alt+click opens the text box in any state, whatever other modifiers are held, and changes
/// nothing else.
pub proof fn lemma_alt_press_opens_text_box<G>(s: SliderModel<G>, modifiers: Modifiers, fresh_start: G)
    requires
        modifiers.alt,
    ensures
        transition(
            s,
            SliderInput::MouseDown { button: MouseButton::Left, modifiers, fresh_start },
        ).0 == (SliderModel { text_input_active: true, ..s }),
        transition(
            s,
            SliderInput::MouseDown { button: MouseButton::Left, modifiers, fresh_start },
        ).1 == seq![SliderAction::<G>::SetActive(true), SliderAction::Consume],
{
}

/// Ctrl+click (command+click) without alt resets the parameter to its default in any state,
/// inside its own gesture, and changes no state.
pub proof fn lemma_command_press_resets<G>(s: SliderModel<G>, modifiers: Modifiers, fresh_start: G)
    requires
        !modifiers.alt,
        modifiers.command,
    ensures
        transition(
            s,
            SliderInput::MouseDown { button: MouseButton::Left, modifiers, fresh_start },
        ).0 == s,
        transition(
            s,
            SliderInput::MouseDown { button: MouseButton::Left, modifiers, fresh_start },
        ).1 == seq![
            SliderAction::<G>::BeginSetParameter,
            SliderAction::ResetToDefault,
            SliderAction::EndSetParameter,
            SliderAction::Consume,
        ],
{
}

/// A left double click resets the parameter to its default in any state (any style, dragging or
/// not, text box open or not), inside its own gesture, and changes no state.
pub proof fn lemma_double_click_resets<G>(s: SliderModel<G>)
    ensures
        transition(s, SliderInput::MouseDoubleClick { button: MouseButton::Left }).0 == s,
        transition(s, SliderInput::MouseDoubleClick { button: MouseButton::Left }).1 == seq![
            SliderAction::<G>::BeginSetParameter,
            SliderAction::ResetToDefault,
            SliderAction::EndSetParameter,
            SliderAction::Consume,
        ],
{
}

/// Presses, clicks and releases of the other buttons are ignored in any state.
pub proof fn lemma_other_buttons_ignored<G>(
    s: SliderModel<G>,
    button: MouseButton,
    modifiers: Modifiers,
    fresh_start: G,
)
    requires
        button != MouseButton::Left,
    ensures
        transition(s, SliderInput::MouseDown { button, modifiers, fresh_start }) == (s, Seq::<
            SliderAction<G>,
        >::empty()),
        transition(s, SliderInput::MouseTripleClick { button, modifiers, fresh_start }) == (
            s,
            Seq::<SliderAction<G>>::empty(),
        ),
        transition(s, SliderInput::MouseDoubleClick { button }) == (s, Seq::<
            SliderAction<G>,
        >::empty()),
        transition(s, SliderInput::MouseUp { button }) == (s, Seq::<SliderAction<G>>::empty()),
{
}

/// Releasing the left button during a drag ends the drag and its gesture: the pointer is
/// released, the slider becomes inactive, and any granular start is forgotten. Without a drag the
/// release is ignored.
pub proof fn lemma_release<G>(s: SliderModel<G>)
    ensures
        s.drag_active ==> transition(s, SliderInput::MouseUp { button: MouseButton::Left }).0 == (
        SliderModel { drag_active: false, granular_start: None::<G>, ..s }),
        s.drag_active ==> transition(s, SliderInput::MouseUp { button: MouseButton::Left }).1
            == seq![
            SliderAction::<G>::Release,
            SliderAction::SetActive(false),
            SliderAction::EndSetParameter,
            SliderAction::Consume,
        ],
        !s.drag_active ==> transition(s, SliderInput::MouseUp { button: MouseButton::Left }) == (
            s,
            Seq::<SliderAction<G>>::empty(),
        ),
{
}

/// During a drag, a move without shift sets the value under the pointer, whatever was recorded
/// before: the parameter follows the pointer, and a granular drag that was going on ends.
pub proof fn lemma_plain_move_follows_pointer<G>(
    s: SliderModel<G>,
    modifiers: Modifiers,
    fresh_start: G,
)
    requires
        s.drag_active,
        !modifiers.shift,
    ensures
        transition(s, SliderInput::MouseMove { modifiers, fresh_start }).0 == (SliderModel {
            granular_start: None::<G>,
            ..s
        }),
        transition(s, SliderInput::MouseMove { modifiers, fresh_start }).1 == seq![
            SliderAction::<G>::DragToPointer,
        ],
{
}

/// During a drag, a move with shift sets the value granularly from the recorded start point, or,
/// where none is recorded yet, records the start point given with the event and drags from it.
pub proof fn lemma_shift_move_drags_granularly<G>(
    s: SliderModel<G>,
    modifiers: Modifiers,
    fresh_start: G,
)
    requires
        s.drag_active,
        modifiers.shift,
    ensures
        ({
            let start = match s.granular_start {
                Some(g) => g,
                None => fresh_start,
            };
            &&& transition(s, SliderInput::MouseMove { modifiers, fresh_start }).0 == (SliderModel {
                granular_start: Some(start),
                ..s
            })
            &&& transition(s, SliderInput::MouseMove { modifiers, fresh_start }).1 == seq![
                SliderAction::DragFromStart(start),
            ]
        }),
{
}

/// Without a drag, moves are ignored.
pub proof fn lemma_move_without_drag_ignored<G>(
    s: SliderModel<G>,
    modifiers: Modifiers,
    fresh_start: G,
)
    requires
        !s.drag_active,
    ensures
        transition(s, SliderInput::MouseMove { modifiers, fresh_start }) == (s, Seq::<
            SliderAction<G>,
        >::empty()),
{
}

/// Releasing shift during a granular drag snaps back to the pointer and ends the granular drag
/// (the drag goes on); in any other state, and for any other key, a released key is ignored.
pub proof fn lemma_key_release<G>(s: SliderModel<G>, key: Key)
    ensures
        (key == Key::Shift && s.drag_active && s.granular_start is Some) ==> transition(
            s,
            SliderInput::KeyUp { key },
        ) == (SliderModel { granular_start: None::<G>, ..s }, seq![
            SliderAction::<G>::SnapToPointer,
        ]),
        !(key == Key::Shift && s.drag_active && s.granular_start is Some) ==> transition(
            s,
            SliderInput::KeyUp { key },
        ) == (s, Seq::<SliderAction<G>>::empty()),
{
}

/// A submitted text closes the text box in any state; a value that parses is set inside its own
/// gesture, and one that does not changes nothing else.
pub proof fn lemma_text_input<G>(s: SliderModel<G>, parsed: bool)
    ensures
        transition(s, SliderInput::TextInput { parsed }).0 == (SliderModel {
            text_input_active: false,
            ..s
        }),
        parsed ==> transition(s, SliderInput::TextInput { parsed }).1 == seq![
            SliderAction::<G>::BeginSetParameter,
            SliderAction::SetFromText,
            SliderAction::EndSetParameter,
            SliderAction::Consume,
        ],
        !parsed ==> transition(s, SliderInput::TextInput { parsed }).1 == seq![
            SliderAction::<G>::Consume,
        ],
{
}

/// Cancelling the text box closes it and makes the slider inactive, in any state.
pub proof fn lemma_cancel_text_input<G>(s: SliderModel<G>)
    ensures
        transition(s, SliderInput::CancelTextInput).0 == (SliderModel {
            text_input_active: false,
            ..s
        }),
        transition(s, SliderInput::CancelTextInput).1 == seq![
            SliderAction::<G>::SetActive(false),
            SliderAction::Consume,
        ],
{
}

/// Other events are ignored in any state.
pub proof fn lemma_other_events_ignored<G>(s: SliderModel<G>)
    ensures
        transition(s, SliderInput::Other) == (s, Seq::<SliderAction<G>>::empty()),
{
}

/// How each action sets the value, for every style and step count: a granular drag always moves
/// from its own start point and a plain drag or snap from the pointer; drags are remapped over
/// the steps exactly for the even stepped styles of a discrete parameter (and both kinds of drag
/// alike), a snap back to the pointer and a typed value are never remapped; a reset sends the
/// default as it is, every other value only if it changes the plain value; and the actions that
/// do not set the value have no update.
pub proof fn lemma_value_updates<G>(style: ParamSliderStyle, step_count: Option<usize>, start: G)
    ensures
        ({
            let remap = if is_even_stepped(style) {
                step_count
            } else {
                None
            };
            &&& spec_value_update(SliderAction::DragFromStart(start), style, step_count) == Some(
                ValueUpdate {
                    source: ValueSource::GranularFrom(start),
                    remap_steps: remap,
                    only_if_changed: true,
                },
            )
            &&& spec_value_update(SliderAction::<G>::DragToPointer, style, step_count) == Some(
                ValueUpdate::<G> {
                    source: ValueSource::Pointer,
                    remap_steps: remap,
                    only_if_changed: true,
                },
            )
            &&& spec_value_update(SliderAction::<G>::SnapToPointer, style, step_count) == Some(
                ValueUpdate::<G> {
                    source: ValueSource::Pointer,
                    remap_steps: None,
                    only_if_changed: true,
                },
            )
            &&& spec_value_update(SliderAction::<G>::SetFromText, style, step_count) == Some(
                ValueUpdate::<G> {
                    source: ValueSource::Text,
                    remap_steps: None,
                    only_if_changed: true,
                },
            )
            &&& spec_value_update(SliderAction::<G>::ResetToDefault, style, step_count) == Some(
                ValueUpdate::<G> {
                    source: ValueSource::Default,
                    remap_steps: None,
                    only_if_changed: false,
                },
            )
        }),
        spec_value_update(SliderAction::<G>::BeginSetParameter, style, step_count) is None,
        spec_value_update(SliderAction::<G>::EndSetParameter, style, step_count) is None,
        spec_value_update(SliderAction::<G>::Capture, style, step_count) is None,
        spec_value_update(SliderAction::<G>::Release, style, step_count) is None,
        spec_value_update(SliderAction::<G>::Focus, style, step_count) is None,
        spec_value_update(SliderAction::<G>::Consume, style, step_count) is None,
        forall|b: bool| spec_value_update(SliderAction::<G>::SetActive(b), style, step_count) is None,
{
}

} // verus!
