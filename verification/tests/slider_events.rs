use param_slider::slider::value_update;
use param_slider::{
    Key, Modifiers, MouseButton, ParamSlider, ParamSliderExt, ParamSliderStyle, SliderAction,
    SliderInput, ValueSource, ValueUpdate,
};

type Start = (f32, f32);
type Action = SliderAction<Start>;

const NONE: Modifiers = Modifiers { shift: false, command: false, alt: false };
const SHIFT: Modifiers = Modifiers { shift: true, command: false, alt: false };
const ALT: Modifiers = Modifiers { shift: false, command: false, alt: true };
const COMMAND: Modifiers = Modifiers { shift: false, command: true, alt: false };

fn down(modifiers: Modifiers, start: Start) -> SliderInput<Start> {
    SliderInput::MouseDown { button: MouseButton::Left, modifiers, fresh_start: start }
}

fn moved(modifiers: Modifiers, start: Start) -> SliderInput<Start> {
    SliderInput::MouseMove { modifiers, fresh_start: start }
}

fn up() -> SliderInput<Start> {
    SliderInput::MouseUp { button: MouseButton::Left }
}

fn open_gestures(actions: &[Action]) -> i64 {
    let mut depth: i64 = 0;
    for a in actions {
        match a {
            SliderAction::BeginSetParameter => depth += 1,
            SliderAction::EndSetParameter => depth -= 1,
            _ => {}
        }
        assert!(depth >= 0);
    }
    depth
}

#[test]
fn new_slider_is_idle() {
    let slider: ParamSlider<Start> = ParamSlider::new();
    assert!(!slider.drag_active());
    assert_eq!(slider.granular_drag_start(), None);
    assert_eq!(slider.style(), ParamSliderStyle::Centered);
    assert!(!slider.text_input_active());
    assert_eq!(slider.element(), Some("param-slider"));
}

#[test]
fn set_style_changes_only_the_style() {
    let slider: ParamSlider<Start> = ParamSlider::new();
    let slider = slider.set_style(ParamSliderStyle::CurrentStepLabeled { even: true });
    assert_eq!(slider.style(), ParamSliderStyle::CurrentStepLabeled { even: true });
    assert!(!slider.drag_active());
    assert!(!slider.text_input_active());
}

#[test]
fn plain_press_starts_a_drag_at_the_pointer() {
    let mut slider: ParamSlider<Start> = ParamSlider::new();
    let actions = slider.event(down(NONE, (10.0, 0.5)));
    assert_eq!(
        actions,
        vec![
            Action::Capture,
            Action::Focus,
            Action::SetActive(true),
            Action::BeginSetParameter,
            Action::DragToPointer,
            Action::Consume,
        ]
    );
    assert!(slider.drag_active());
    assert_eq!(slider.granular_drag_start(), None);
}

#[test]
fn shift_press_records_the_start_without_jumping() {
    let mut slider: ParamSlider<Start> = ParamSlider::new();
    let actions = slider.event(down(SHIFT, (10.0, 0.5)));
    assert_eq!(
        actions,
        vec![
            Action::Capture,
            Action::Focus,
            Action::SetActive(true),
            Action::BeginSetParameter,
            Action::Consume,
        ]
    );
    assert!(slider.drag_active());
    assert_eq!(slider.granular_drag_start(), Some((10.0, 0.5)));
}

#[test]
fn triple_click_acts_as_a_press() {
    let mut slider: ParamSlider<Start> = ParamSlider::new();
    let actions = slider.event(SliderInput::MouseTripleClick {
        button: MouseButton::Left,
        modifiers: NONE,
        fresh_start: (1.0, 0.0),
    });
    assert_eq!(actions.len(), 6);
    assert!(slider.drag_active());
}

#[test]
fn alt_press_opens_the_text_box() {
    let mut slider: ParamSlider<Start> = ParamSlider::new();
    let actions = slider.event(down(ALT, (0.0, 0.0)));
    assert_eq!(actions, vec![Action::SetActive(true), Action::Consume]);
    assert!(slider.text_input_active());
    assert!(!slider.drag_active());
}

#[test]
fn command_press_resets_without_dragging() {
    let mut slider: ParamSlider<Start> = ParamSlider::new();
    let actions = slider.event(down(COMMAND, (0.0, 0.0)));
    assert_eq!(
        actions,
        vec![
            Action::BeginSetParameter,
            Action::ResetToDefault,
            Action::EndSetParameter,
            Action::Consume,
        ]
    );
    assert!(!slider.drag_active());
}

#[test]
fn double_click_resets() {
    let mut slider: ParamSlider<Start> = ParamSlider::new();
    let actions = slider.event(SliderInput::MouseDoubleClick { button: MouseButton::Left });
    assert_eq!(
        actions,
        vec![
            Action::BeginSetParameter,
            Action::ResetToDefault,
            Action::EndSetParameter,
            Action::Consume,
        ]
    );
    assert!(!slider.drag_active());
}

#[test]
fn other_buttons_are_ignored() {
    let mut slider: ParamSlider<Start> = ParamSlider::new();
    let press = SliderInput::MouseDown {
        button: MouseButton::Right,
        modifiers: NONE,
        fresh_start: (0.0, 0.0),
    };
    assert!(slider.event(press).is_empty());
    assert!(slider.event(SliderInput::MouseDoubleClick { button: MouseButton::Middle }).is_empty());
    assert!(!slider.drag_active());
}

#[test]
fn release_ends_the_drag_only_while_dragging() {
    let mut slider: ParamSlider<Start> = ParamSlider::new();
    assert!(slider.event(up()).is_empty());
    slider.event(down(NONE, (0.0, 0.0)));
    let actions = slider.event(up());
    assert_eq!(
        actions,
        vec![
            Action::Release,
            Action::SetActive(false),
            Action::EndSetParameter,
            Action::Consume,
        ]
    );
    assert!(!slider.drag_active());
    assert!(slider.event(up()).is_empty());
}

#[test]
fn moves_without_a_drag_are_ignored() {
    let mut slider: ParamSlider<Start> = ParamSlider::new();
    assert!(slider.event(moved(NONE, (3.0, 0.2))).is_empty());
    assert!(slider.event(moved(SHIFT, (3.0, 0.2))).is_empty());
    assert_eq!(slider.granular_drag_start(), None);
}

#[test]
fn granular_drag_keeps_its_start_point() {
    let mut slider: ParamSlider<Start> = ParamSlider::new();
    slider.event(down(NONE, (10.0, 0.5)));
    // shift pressed during the drag: the first shifted move records the start
    let actions = slider.event(moved(SHIFT, (12.0, 0.6)));
    assert_eq!(actions, vec![Action::DragFromStart((12.0, 0.6))]);
    let actions = slider.event(moved(SHIFT, (20.0, 0.7)));
    assert_eq!(actions, vec![Action::DragFromStart((12.0, 0.6))]);
    assert_eq!(slider.granular_drag_start(), Some((12.0, 0.6)));
    // a move without shift goes back to absolute dragging
    let actions = slider.event(moved(NONE, (25.0, 0.8)));
    assert_eq!(actions, vec![Action::DragToPointer]);
    assert_eq!(slider.granular_drag_start(), None);
}

#[test]
fn releasing_shift_snaps_to_the_pointer() {
    let mut slider: ParamSlider<Start> = ParamSlider::new();
    slider.event(down(SHIFT, (10.0, 0.5)));
    assert!(slider.event(SliderInput::KeyUp { key: Key::Other }).is_empty());
    let actions = slider.event(SliderInput::KeyUp { key: Key::Shift });
    assert_eq!(actions, vec![Action::SnapToPointer]);
    assert_eq!(slider.granular_drag_start(), None);
    assert!(slider.drag_active());
    // a second release has nothing to snap
    assert!(slider.event(SliderInput::KeyUp { key: Key::Shift }).is_empty());
}

#[test]
fn release_clears_the_granular_start() {
    let mut slider: ParamSlider<Start> = ParamSlider::new();
    slider.event(down(SHIFT, (10.0, 0.5)));
    assert_eq!(slider.granular_drag_start(), Some((10.0, 0.5)));
    slider.event(up());
    assert!(!slider.drag_active());
    assert_eq!(slider.granular_drag_start(), None);
    // without a drag, releasing shift does nothing
    assert!(slider.event(SliderInput::KeyUp { key: Key::Shift }).is_empty());
}

#[test]
fn shift_release_sets_the_value_as_a_plain_move_does() {
    let style = ParamSliderStyle::FromLeft;
    let mut released: ParamSlider<Start> = ParamSlider::new().set_style(style);
    let mut moved_plain: ParamSlider<Start> = ParamSlider::new().set_style(style);
    released.event(down(SHIFT, (10.0, 0.5)));
    moved_plain.event(down(SHIFT, (10.0, 0.5)));
    let a = released.event(SliderInput::KeyUp { key: Key::Shift });
    let b = moved_plain.event(moved(NONE, (12.0, 0.6)));
    assert_eq!(a.len(), 1);
    assert_eq!(b.len(), 1);
    let ua = value_update(a[0], style, Some(3));
    let ub = value_update(b[0], style, Some(3));
    assert_eq!(ua, ub);
    assert_eq!(
        ua,
        Some(ValueUpdate { source: ValueSource::Pointer, remap_steps: None, only_if_changed: true })
    );
    assert_eq!(released.drag_active(), moved_plain.drag_active());
    assert_eq!(released.granular_drag_start(), moved_plain.granular_drag_start());
}

#[test]
fn value_updates_of_each_action() {
    let even = ParamSliderStyle::CurrentStep { even: true };
    assert_eq!(
        value_update(Action::ResetToDefault, even, Some(4)),
        Some(ValueUpdate { source: ValueSource::Default, remap_steps: None, only_if_changed: false })
    );
    assert_eq!(
        value_update(Action::SetFromText, even, Some(4)),
        Some(ValueUpdate { source: ValueSource::Text, remap_steps: None, only_if_changed: true })
    );
    assert_eq!(
        value_update(Action::DragToPointer, even, Some(4)),
        Some(ValueUpdate { source: ValueSource::Pointer, remap_steps: Some(4), only_if_changed: true })
    );
    assert_eq!(
        value_update(Action::DragFromStart((1.0, 0.25)), even, Some(4)),
        Some(ValueUpdate {
            source: ValueSource::GranularFrom((1.0, 0.25)),
            remap_steps: Some(4),
            only_if_changed: true,
        })
    );
    assert_eq!(
        value_update(Action::DragToPointer, even, None),
        Some(ValueUpdate { source: ValueSource::Pointer, remap_steps: None, only_if_changed: true })
    );
    assert_eq!(
        value_update(Action::SnapToPointer, even, Some(4)),
        Some(ValueUpdate { source: ValueSource::Pointer, remap_steps: None, only_if_changed: true })
    );
    for action in [
        Action::BeginSetParameter,
        Action::EndSetParameter,
        Action::SetActive(true),
        Action::Capture,
        Action::Release,
        Action::Focus,
        Action::Consume,
    ] {
        assert_eq!(value_update(action, even, Some(4)), None);
    }
}

#[test]
fn text_input_sets_the_value_in_a_gesture() {
    let mut slider: ParamSlider<Start> = ParamSlider::new();
    slider.event(down(ALT, (0.0, 0.0)));
    let actions = slider.event(SliderInput::TextInput { parsed: true });
    assert_eq!(
        actions,
        vec![
            Action::BeginSetParameter,
            Action::SetFromText,
            Action::EndSetParameter,
            Action::Consume,
        ]
    );
    assert!(!slider.text_input_active());
}

#[test]
fn unparsable_text_only_closes_the_box() {
    let mut slider: ParamSlider<Start> = ParamSlider::new();
    slider.event(down(ALT, (0.0, 0.0)));
    let actions = slider.event(SliderInput::TextInput { parsed: false });
    assert_eq!(actions, vec![Action::Consume]);
    assert!(!slider.text_input_active());
}

#[test]
fn cancelled_text_input_closes_the_box() {
    let mut slider: ParamSlider<Start> = ParamSlider::new();
    slider.event(down(ALT, (0.0, 0.0)));
    let actions = slider.event(SliderInput::CancelTextInput);
    assert_eq!(actions, vec![Action::SetActive(false), Action::Consume]);
    assert!(!slider.text_input_active());
}

#[test]
fn other_events_are_ignored() {
    let mut slider: ParamSlider<Start> = ParamSlider::new();
    slider.event(down(NONE, (0.0, 0.0)));
    assert!(slider.event(SliderInput::Other).is_empty());
    assert!(slider.drag_active());
}

#[test]
fn a_session_keeps_gestures_bracketed() {
    let mut slider: ParamSlider<Start> = ParamSlider::new();
    let inputs = vec![
        down(NONE, (0.0, 0.1)),
        moved(NONE, (1.0, 0.2)),
        moved(SHIFT, (2.0, 0.3)),
        SliderInput::KeyUp { key: Key::Shift },
        up(),
        SliderInput::MouseDoubleClick { button: MouseButton::Left },
        down(ALT, (0.0, 0.0)),
        SliderInput::TextInput { parsed: true },
        down(SHIFT, (5.0, 0.5)),
        moved(SHIFT, (6.0, 0.5)),
    ];
    let mut all: Vec<Action> = Vec::new();
    for input in inputs {
        all.extend(slider.event(input));
    }
    assert!(slider.drag_active());
    assert_eq!(open_gestures(&all), 1);
    all.extend(slider.event(up()));
    assert_eq!(open_gestures(&all), 0);
    assert_eq!(slider.style(), ParamSliderStyle::Centered);
}

#[test]
fn a_press_during_a_drag_opens_a_second_gesture() {
    let mut slider: ParamSlider<Start> = ParamSlider::new();
    let mut all: Vec<Action> = Vec::new();
    all.extend(slider.event(down(NONE, (0.0, 0.0))));
    all.extend(slider.event(down(NONE, (0.0, 0.0))));
    all.extend(slider.event(up()));
    assert!(!slider.drag_active());
    assert_eq!(open_gestures(&all), 1);
}
