//! The decision logic of a slider widget for plugin parameters: how the slider draws its value
//! for each display style, and how it reacts to pointer, keyboard and text-entry events.

pub mod gestures;
pub mod reactions;
pub mod slider;
pub mod style;

pub use slider::{
    Key, Modifiers, MouseButton, ParamSlider, ParamSliderExt, SliderAction, SliderInput,
    ValueSource, ValueUpdate,
};
pub use style::{FillSpan, ParamSliderStyle};
