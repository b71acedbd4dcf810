# param_slider

The decision logic of a parameter slider widget, verified with Verus.

- `src/style.rs`: the display styles, and what each decides about drawing (which span the fill
  bar covers, whether modulation is shown, which steps get labels, over how many steps a drag is
  remapped).
- `src/slider.rs`: the slider's interaction state and its reaction to events, as a transition
  from state and event to the next state and a list of actions.
- `src/gestures.rs`: laws over any sequence of events (parameter gestures stay bracketed, resets
  and text entry never start a drag, granular drags keep their start point).
- `app/`: the VIZIA widget around the library, for NIH-plug parameters: it measures the pointer,
  draws, and performs the actions. Floating-point geometry and the parameter's own conversions
  stay there.
