//! The slider's interaction state and how it reacts to events.
//!
//! A slider is dragged with the left mouse button. Holding shift while dragging makes the drag
//! granular: the value then moves relative to where the granular drag started instead of
//! following the pointer. Alt+click opens a text box to type a value into, and ctrl+click
//! (command+click) or a double click resets the parameter to its default value.
//!
//! The reaction to an event is a list of [`SliderAction`]s, which the caller performs in order:
//! emitting parameter gestures and values to the host, and capturing or releasing the pointer.

use vstd::prelude::*;

use crate::style::{spec_even_steps, even_step_count, ParamSliderStyle};

verus! {

/// A mouse button, as far as the slider tells them apart.
#[derive(Debug, Clone, Copy, PartialEq, Eq, Structural)]
pub enum MouseButton {
    Left,
    Right,
    Middle,
    Other,
}

/// A released key, as far as the slider tells them apart.
#[derive(Debug, Clone, Copy, PartialEq, Eq, Structural)]
pub enum Key {
    Shift,
    Other,
}

/// The modifier keys held while an event happened. `command` is ctrl, or cmd on macOS.
#[derive(Debug, Clone, Copy, PartialEq, Eq, Structural)]
pub struct Modifiers {
    pub shift: bool,
    pub command: bool,
    pub alt: bool,
}

/// An event that reaches the slider.
///
/// `G` is the start point of a granular drag as the caller measures it: the pointer position and
/// the parameter's unmodulated normalized value at the moment of the event. The slider keeps it
/// only where a granular drag starts.
#[derive(Debug, Clone, Copy, PartialEq, Eq)]
pub enum SliderInput<G> {
    /// The text box was closed without submitting a value.
    CancelTextInput,
    /// A value was submitted in the text box; `parsed` says whether the parameter could turn the
    /// text into a normalized value.
    TextInput { parsed: bool },
    /// A mouse button was pressed.
    MouseDown { button: MouseButton, modifiers: Modifiers, fresh_start: G },
    /// A third click in quick succession; it acts as a plain press.
    MouseTripleClick { button: MouseButton, modifiers: Modifiers, fresh_start: G },
    /// A double click.
    MouseDoubleClick { button: MouseButton },
    /// A mouse button was released.
    MouseUp { button: MouseButton },
    /// The pointer moved.
    MouseMove { modifiers: Modifiers, fresh_start: G },
    /// A key was released.
    KeyUp { key: Key },
    /// Any other event; the slider ignores it.
    Other,
}

/// What the slider asks its caller to do in reaction to an event.
#[derive(Debug, Clone, Copy, PartialEq, Eq)]
pub enum SliderAction<G> {
    /// Tell the host that a parameter gesture begins.
    BeginSetParameter,
    /// Tell the host that the parameter gesture ends.
    EndSetParameter,
    /// Set the parameter to its default normalized value.
    ResetToDefault,
    /// Set the parameter to the value parsed from the text box (snapped to a plain value, and only
    /// if that changes the plain value).
    SetFromText,
    /// Set the parameter to the value under the pointer, as a drag sets it.
    DragToPointer,
    /// Set the parameter from a granular drag that started at the given point.
    DragFromStart(G),
    /// Set the parameter to the value under the pointer, without the drag remapping.
    SnapToPointer,
    /// Mark the slider as the active element, or not.
    SetActive(bool),
    /// Capture the pointer.
    Capture,
    /// Release the pointer.
    Release,
    /// Give the slider the keyboard focus.
    Focus,
    /// Mark the event as handled.
    Consume,
}

/// Where the value that an action sets the parameter to comes from.
#[derive(Debug, Clone, Copy, PartialEq, Eq)]
pub enum ValueSource<G> {
    /// The normalized value under the pointer's position for the event.
    Pointer,
    /// A granular drag from the given start point to the pointer's position for the event.
    GranularFrom(G),
    /// The value parsed from the text box.
    Text,
    /// The parameter's default normalized value.
    Default,
}

/// How an action sets the parameter's value.
#[derive(Debug, Clone, Copy, PartialEq, Eq)]
pub struct ValueUpdate<G> {
    /// Where the value comes from.
    pub source: ValueSource<G>,
    /// The number of evenly spread steps that the value is remapped over before it is set, where
    /// it is remapped.
    pub remap_steps: Option<usize>,
    /// Whether the value is snapped to the parameter's plain value and only sent when that
    /// changes the plain value (else it is sent as it is).
    pub only_if_changed: bool,
}

/// How an action sets the value of a parameter with `step_count` steps shown in `style`; `None`
/// for an action that does not set the value. Drags are remapped over the evenly spread steps of
/// the even stepped styles; a reset sends the default as it is; every other value is snapped and
/// sent only if it changes the plain value.
pub open spec fn spec_value_update<G>(
    action: SliderAction<G>,
    style: ParamSliderStyle,
    step_count: Option<usize>,
) -> Option<ValueUpdate<G>> {
    match action {
        SliderAction::ResetToDefault => Some(
            ValueUpdate { source: ValueSource::Default, remap_steps: None, only_if_changed: false },
        ),
        SliderAction::SetFromText => Some(
            ValueUpdate { source: ValueSource::Text, remap_steps: None, only_if_changed: true },
        ),
        SliderAction::DragToPointer => Some(
            ValueUpdate {
                source: ValueSource::Pointer,
                remap_steps: spec_even_steps(style, step_count),
                only_if_changed: true,
            },
        ),
        SliderAction::DragFromStart(start) => Some(
            ValueUpdate {
                source: ValueSource::GranularFrom(start),
                remap_steps: spec_even_steps(style, step_count),
                only_if_changed: true,
            },
        ),
        SliderAction::SnapToPointer => Some(
            ValueUpdate { source: ValueSource::Pointer, remap_steps: None, only_if_changed: true },
        ),
        _ => None,
    }
}

/// How an action sets the value of a parameter with `step_count` steps shown in `style`, or
/// `None` for an action that does not set the value.
pub fn value_update<G: Copy>(
    action: SliderAction<G>,
    style: ParamSliderStyle,
    step_count: Option<usize>,
) -> (r: Option<ValueUpdate<G>>)
    ensures
        r == spec_value_update(action, style, step_count),
{
    match action {
        SliderAction::ResetToDefault => Some(
            ValueUpdate { source: ValueSource::Default, remap_steps: None, only_if_changed: false },
        ),
        SliderAction::SetFromText => Some(
            ValueUpdate { source: ValueSource::Text, remap_steps: None, only_if_changed: true },
        ),
        SliderAction::DragToPointer => Some(
            ValueUpdate {
                source: ValueSource::Pointer,
                remap_steps: even_step_count(style, step_count),
                only_if_changed: true,
            },
        ),
        SliderAction::DragFromStart(start) => Some(
            ValueUpdate {
                source: ValueSource::GranularFrom(start),
                remap_steps: even_step_count(style, step_count),
                only_if_changed: true,
            },
        ),
        SliderAction::SnapToPointer => Some(
            ValueUpdate { source: ValueSource::Pointer, remap_steps: None, only_if_changed: true },
        ),
        _ => None,
    }
}

/// The abstract state of a slider.
pub struct SliderModel<G> {
    /// Whether the parameter is being dragged.
    pub drag_active: bool,
    /// The start point of the granular drag, where one was recorded.
    pub granular_start: Option<G>,
    /// How the slider displays its value.
    pub style: ParamSliderStyle,
    /// Whether the text box replaces the label.
    pub text_input_active: bool,
}

/// A slider for a plugin parameter: the state that decides how it reacts to events.
pub struct ParamSlider<G> {
    /// Set to `true` while the parameter is dragged. Resetting the parameter or entering a text
    /// value does not start a drag.
    drag_active: bool,
    /// The start coordinate and normalized value of a granular (shift) drag.
    granular_drag_start: Option<G>,
    /// What style to use for the slider.
    style: ParamSliderStyle,
    /// Set to `true` when the slider gets Alt+Click'ed, which replaces the label with a text box.
    text_input_active: bool,
}

impl<G> ParamSlider<G> {
    pub closed spec fn model(&self) -> SliderModel<G> {
        SliderModel {
            drag_active: self.drag_active,
            granular_start: self.granular_drag_start,
            style: self.style,
            text_input_active: self.text_input_active,
        }
    }
}

impl<G> View for ParamSlider<G> {
    type V = SliderModel<G>;

    open spec fn view(&self) -> SliderModel<G> {
        self.model()
    }
}

/// The state of a slider that was just created: idle, centered, with its label shown.
pub open spec fn initial_model<G>() -> SliderModel<G> {
    SliderModel {
        drag_active: false,
        granular_start: None,
        style: ParamSliderStyle::Centered,
        text_input_active: false,
    }
}

/// The reaction to a left press (or triple click): alt opens the text box, command resets the
/// parameter, and otherwise a drag starts, granular with shift held (which records the start
/// point and leaves the value where it is) or else jumping to the value under the pointer.
pub open spec fn press<G>(s: SliderModel<G>, modifiers: Modifiers, fresh_start: G) -> (
    SliderModel<G>,
    Seq<SliderAction<G>>,
) {
    if modifiers.alt {
        (
            SliderModel { text_input_active: true, ..s },
            seq![SliderAction::SetActive(true), SliderAction::Consume],
        )
    } else if modifiers.command {
        (
            s,
            seq![
                SliderAction::BeginSetParameter,
                SliderAction::ResetToDefault,
                SliderAction::EndSetParameter,
                SliderAction::Consume,
            ],
        )
    } else if modifiers.shift {
        (
            SliderModel { drag_active: true, granular_start: Some(fresh_start), ..s },
            seq![
                SliderAction::Capture,
                SliderAction::Focus,
                SliderAction::SetActive(true),
                SliderAction::BeginSetParameter,
                SliderAction::Consume,
            ],
        )
    } else {
        (
            SliderModel { drag_active: true, granular_start: None, ..s },
            seq![
                SliderAction::Capture,
                SliderAction::Focus,
                SliderAction::SetActive(true),
                SliderAction::BeginSetParameter,
                SliderAction::DragToPointer,
                SliderAction::Consume,
            ],
        )
    }
}

/// The state after an event, and the actions that the slider asks for, in order.
pub open spec fn transition<G>(s: SliderModel<G>, input: SliderInput<G>) -> (
    SliderModel<G>,
    Seq<SliderAction<G>>,
) {
    match input {
        SliderInput::CancelTextInput => (
            SliderModel { text_input_active: false, ..s },
            seq![SliderAction::SetActive(false), SliderAction::Consume],
        ),
        SliderInput::TextInput { parsed } => (
            SliderModel { text_input_active: false, ..s },
            if parsed {
                seq![
                    SliderAction::BeginSetParameter,
                    SliderAction::SetFromText,
                    SliderAction::EndSetParameter,
                    SliderAction::Consume,
                ]
            } else {
                seq![SliderAction::Consume]
            },
        ),
        SliderInput::MouseDown { button, modifiers, fresh_start }
        | SliderInput::MouseTripleClick { button, modifiers, fresh_start } => {
            if button is Left {
                press(s, modifiers, fresh_start)
            } else {
                (s, seq![])
            }
        },
        SliderInput::MouseDoubleClick { button } => {
            if button is Left {
                (
                    s,
                    seq![
                        SliderAction::BeginSetParameter,
                        SliderAction::ResetToDefault,
                        SliderAction::EndSetParameter,
                        SliderAction::Consume,
                    ],
                )
            } else {
                (s, seq![])
            }
        },
        SliderInput::MouseUp { button } => {
            if button is Left && s.drag_active {
                (
                    SliderModel { drag_active: false, granular_start: None, ..s },
                    seq![
                        SliderAction::Release,
                        SliderAction::SetActive(false),
                        SliderAction::EndSetParameter,
                        SliderAction::Consume,
                    ],
                )
            } else {
                (s, seq![])
            }
        },
        SliderInput::MouseMove { modifiers, fresh_start } => {
            if !s.drag_active {
                (s, seq![])
            } else if modifiers.shift {
                let start = match s.granular_start {
                    Some(g) => g,
                    None => fresh_start,
                };
                (
                    SliderModel { granular_start: Some(start), ..s },
                    seq![SliderAction::DragFromStart(start)],
                )
            } else {
                (SliderModel { granular_start: None, ..s }, seq![SliderAction::DragToPointer])
            }
        },
        SliderInput::KeyUp { key } => {
            if key is Shift && s.drag_active && s.granular_start is Some {
                (SliderModel { granular_start: None, ..s }, seq![SliderAction::SnapToPointer])
            } else {
                (s, seq![])
            }
        },
        SliderInput::Other => (s, seq![]),
    }
}

impl<G: Copy> ParamSlider<G> {
    /// Creates the state of a new slider: not dragging, centered style, label shown.
    pub fn new() -> (r: Self)
        ensures
            r@ == initial_model::<G>(),
            !r@.drag_active,
            r@.granular_start is None,
            r@.style == ParamSliderStyle::Centered,
            !r@.text_input_active,
    {
        ParamSlider {
            drag_active: false,
            granular_drag_start: None,
            style: ParamSliderStyle::Centered,
            text_input_active: false,
        }
    }

    /// The element name that style sheets select the slider by.
    pub fn element(&self) -> (r: Option<&'static str>)
        ensures
            r matches Some(name) && name@ == "param-slider"@,
    {
        Some("param-slider")
    }

    /// Whether the parameter is being dragged.
    pub fn drag_active(&self) -> (r: bool)
        ensures
            r == self@.drag_active,
    {
        self.drag_active
    }

    /// The start point of the granular drag, where one is recorded.
    pub fn granular_drag_start(&self) -> (r: Option<G>)
        ensures
            r == self@.granular_start,
    {
        self.granular_drag_start
    }

    /// How the slider displays its value.
    pub fn style(&self) -> (r: ParamSliderStyle)
        ensures
            r == self@.style,
    {
        self.style
    }

    /// Whether the text box replaces the label.
    pub fn text_input_active(&self) -> (r: bool)
        ensures
            r == self@.text_input_active,
    {
        self.text_input_active
    }

    /// A left press or triple click.
    fn press(&mut self, modifiers: Modifiers, fresh_start: G) -> (actions: Vec<SliderAction<G>>)
        ensures
            final(self)@ == press(old(self)@, modifiers, fresh_start).0,
            actions@ == press(old(self)@, modifiers, fresh_start).1,
    {
        let mut actions: Vec<SliderAction<G>> = Vec::new();
        if modifiers.alt {
            // Alt+click brings up a text entry box
            self.text_input_active = true;
            actions.push(SliderAction::SetActive(true));
        } else if modifiers.command {
            // Ctrl+click resets the parameter instead of starting a drag
            actions.push(SliderAction::BeginSetParameter);
            actions.push(SliderAction::ResetToDefault);
            actions.push(SliderAction::EndSetParameter);
        } else {
            self.drag_active = true;
            actions.push(SliderAction::Capture);
            // Otherwise no key up events arrive
            actions.push(SliderAction::Focus);
            actions.push(SliderAction::SetActive(true));
            actions.push(SliderAction::BeginSetParameter);
            if modifiers.shift {
                // A shift press edits granularly from the current value, without jumping
                self.granular_drag_start = Some(fresh_start);
            } else {
                self.granular_drag_start = None;
                actions.push(SliderAction::DragToPointer);
            }
        }
        actions.push(SliderAction::Consume);
        assert(actions@ =~= press(old(self)@, modifiers, fresh_start).1);
        actions
    }

    /// Reacts to an event: updates the state and returns the actions to perform, in order.
    pub fn event(&mut self, input: SliderInput<G>) -> (actions: Vec<SliderAction<G>>)
        ensures
            final(self)@ == transition(old(self)@, input).0,
            actions@ == transition(old(self)@, input).1,
            final(self)@.style == old(self)@.style,
    {
        let mut actions: Vec<SliderAction<G>> = Vec::new();
        match input {
            SliderInput::CancelTextInput => {
                self.text_input_active = false;
                actions.push(SliderAction::SetActive(false));
                actions.push(SliderAction::Consume);
            },
            SliderInput::TextInput { parsed } => {
                if parsed {
                    actions.push(SliderAction::BeginSetParameter);
                    actions.push(SliderAction::SetFromText);
                    actions.push(SliderAction::EndSetParameter);
                }
                self.text_input_active = false;
                actions.push(SliderAction::Consume);
            },
            SliderInput::MouseDown { button, modifiers, fresh_start }
            | SliderInput::MouseTripleClick { button, modifiers, fresh_start } => {
                // A triple click acts as a press, so that a double click followed by a drag works
                if button == MouseButton::Left {
                    actions = self.press(modifiers, fresh_start);
                }
            },
            SliderInput::MouseDoubleClick { button } => {
                // A double click resets the parameter instead of starting a drag
                if button == MouseButton::Left {
                    actions.push(SliderAction::BeginSetParameter);
                    actions.push(SliderAction::ResetToDefault);
                    actions.push(SliderAction::EndSetParameter);
                    actions.push(SliderAction::Consume);
                }
            },
            SliderInput::MouseUp { button } => {
                if button == MouseButton::Left && self.drag_active {
                    // The drag ends, and with it any granular drag
                    self.drag_active = false;
                    self.granular_drag_start = None;
                    actions.push(SliderAction::Release);
                    actions.push(SliderAction::SetActive(false));
                    actions.push(SliderAction::EndSetParameter);
                    actions.push(SliderAction::Consume);
                }
            },
            SliderInput::MouseMove { modifiers, fresh_start } => {
                if self.drag_active {
                    if modifiers.shift {
                        // With shift held the drag is granular, relative to where it started
                        let start = match self.granular_drag_start {
                            Some(g) => g,
                            None => fresh_start,
                        };
                        self.granular_drag_start = Some(start);
                        actions.push(SliderAction::DragFromStart(start));
                    } else {
                        self.granular_drag_start = None;
                        actions.push(SliderAction::DragToPointer);
                    }
                }
            },
            SliderInput::KeyUp { key } => {
                // Releasing shift during a granular drag snaps back to the pointer's position
                if key == Key::Shift && self.drag_active && self.granular_drag_start.is_some() {
                    self.granular_drag_start = None;
                    actions.push(SliderAction::SnapToPointer);
                }
            },
            SliderInput::Other => {},
        }
        assert(actions@ =~= transition(old(self)@, input).1);
        actions
    }
}

/// Extension methods for sliders.
pub trait ParamSliderExt: Sized {
    /// The style that the slider displays its value with.
    spec fn display_style(&self) -> ParamSliderStyle;

    /// Change how the slider visualizes the current value.
    fn set_style(self, style: ParamSliderStyle) -> (r: Self)
        ensures
            r.display_style() == style,
    ;
}

impl<G> ParamSliderExt for ParamSlider<G> {
    open spec fn display_style(&self) -> ParamSliderStyle {
        self@.style
    }

    /// Changes the style and nothing else.
    fn set_style(self, style: ParamSliderStyle) -> (r: Self)
        ensures
            r@ == (SliderModel { style, ..self@ }),
    {
        let mut slider = self;
        slider.style = style;
        slider
    }
}

} // verus!
