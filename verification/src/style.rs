//! Display styles of the slider and what each one decides about drawing.

use vstd::prelude::*;

verus! {

/// How a parameter slider should display its values.
#[derive(Debug, Clone, Copy, PartialEq, Eq, Structural)]
pub enum ParamSliderStyle {
    /// Visualize the offset from the default value for continuous parameters with a default value
    /// at around half of its range, fill the bar from the left for discrete parameters and
    /// continuous parameters without centered default values.
    Centered,
    /// Always fill the bar starting from the left.
    FromLeft,
    /// Show the current step instead of filling a portion of the bar, useful for discrete
    /// parameters. Set `even` to `true` to distribute the ticks evenly instead of following the
    /// parameter's distribution.
    CurrentStep { even: bool },
    /// The same as `CurrentStep`, but overlay the labels over the steps instead of showing the
    /// active value.
    CurrentStepLabeled { even: bool },
}

/// Whether the modulation overlay is drawn for this style: stepped styles never show it.
pub fn shows_modulation(style: ParamSliderStyle) -> (r: bool)
    ensures
        r <==> (style is Centered || style is FromLeft),
{
    match style {
        ParamSliderStyle::CurrentStep { .. } | ParamSliderStyle::CurrentStepLabeled { .. } => false,
        ParamSliderStyle::Centered | ParamSliderStyle::FromLeft => true,
    }
}


/// Which portion of the bar is filled, as chosen from the style and the parameter.
/// The widths and offsets themselves are computed from normalized values by the caller.
#[derive(Debug, Clone, Copy, PartialEq, Eq, Structural)]
pub enum FillSpan {
    /// From the default value to the current value (a signed offset, centered styles only).
    FromDefault,
    /// From the left edge to the current value.
    FromLeft,
    /// One of `step_count + 1` equally wide cells, the one that holds the current value.
    EvenStep { step_count: usize },
    /// Halfway from the previous step to halfway to the next step around the current value.
    AroundStep,
}

/// Whether a centered slider fills from the default value: only for continuous parameters
/// (no step count) whose default value lies near the middle of the range.
pub open spec fn spec_fills_from_default(
    style: ParamSliderStyle,
    step_count: Option<usize>,
    default_near_center: bool,
) -> bool {
    style is Centered && step_count is None && default_near_center
}

/// Whether a stepped style spreads its steps evenly over the bar, and over how many steps.
pub open spec fn spec_even_steps(style: ParamSliderStyle, step_count: Option<usize>) -> Option<usize> {
    match (style, step_count) {
        (ParamSliderStyle::CurrentStep { even: true }, Some(n)) => Some(n),
        (ParamSliderStyle::CurrentStepLabeled { even: true }, Some(n)) => Some(n),
        _ => None,
    }
}

/// Whether a centered slider fills from the default value. `default_near_center` says whether
/// the default normalized value lies in `0.45..=0.55`.
pub fn fills_from_default(
    style: ParamSliderStyle,
    step_count: Option<usize>,
    default_near_center: bool,
) -> (r: bool)
    ensures
        r == spec_fills_from_default(style, step_count, default_near_center),
{
    match style {
        ParamSliderStyle::Centered => step_count.is_none() && default_near_center,
        _ => false,
    }
}

/// The span that the filled bar covers: from the default value for a centered continuous
/// parameter with a default near the middle, from the left for the other centered and the
/// left-filled sliders, and around the current step for the stepped styles (in evenly wide
/// cells when the style asks for it and the parameter is discrete).
pub open spec fn spec_fill_span(
    style: ParamSliderStyle,
    step_count: Option<usize>,
    default_near_center: bool,
) -> FillSpan {
    if spec_fills_from_default(style, step_count, default_near_center) {
        FillSpan::FromDefault
    } else if style is Centered || style is FromLeft {
        FillSpan::FromLeft
    } else {
        match spec_even_steps(style, step_count) {
            Some(n) => FillSpan::EvenStep { step_count: n },
            None => FillSpan::AroundStep,
        }
    }
}

/// The span that the filled bar covers for a style. `default_near_center` says whether the
/// default normalized value lies in `0.45..=0.55`.
pub fn fill_span(
    style: ParamSliderStyle,
    step_count: Option<usize>,
    default_near_center: bool,
) -> (r: FillSpan)
    ensures
        r == spec_fill_span(style, step_count, default_near_center),
{
    if fills_from_default(style, step_count, default_near_center) {
        return FillSpan::FromDefault;
    }
    match style {
        ParamSliderStyle::Centered | ParamSliderStyle::FromLeft => FillSpan::FromLeft,
        ParamSliderStyle::CurrentStep { .. } | ParamSliderStyle::CurrentStepLabeled { .. } => {
            match even_step_count(style, step_count) {
                Some(n) => FillSpan::EvenStep { step_count: n },
                None => FillSpan::AroundStep,
            }
        },
    }
}

/// The number of steps that an even stepped style spreads over the bar, each value in a cell of
/// equal width; a drag over such a slider is remapped over the same steps. `None` when the style
/// is not an even stepped one or the parameter is continuous: then a drag sets the normalized
/// value under the pointer as it is.
pub fn even_step_count(style: ParamSliderStyle, step_count: Option<usize>) -> (r: Option<usize>)
    ensures
        r == spec_even_steps(style, step_count),
{
    match (style, step_count) {
        (
            ParamSliderStyle::CurrentStep { even: true }
            | ParamSliderStyle::CurrentStepLabeled { even: true },
            Some(n),
        ) => Some(n),
        _ => None,
    }
}

/// The number of steps whose labels are drawn over the slider: `Some(n)` for the labeled style
/// of a discrete parameter with `n` steps (so `n + 1` labels), else `None` and a single label
/// shows the current value.
pub fn labeled_step_count(style: ParamSliderStyle, step_count: Option<usize>) -> (r: Option<usize>)
    ensures
        r == (if style is CurrentStepLabeled { step_count } else { None }),
{
    match (style, step_count) {
        (ParamSliderStyle::CurrentStepLabeled { .. }, Some(n)) => Some(n),
        _ => None,
    }
}

/// A drag is remapped exactly when the bar is drawn as evenly spread steps, and over the same
/// number of steps, so that the value under the pointer is the cell drawn under it.
pub proof fn lemma_drag_remap_matches_fill(
    style: ParamSliderStyle,
    step_count: Option<usize>,
    default_near_center: bool,
)
    ensures
        forall|n: usize|
            spec_even_steps(style, step_count) == Some(n) <==> #[trigger] spec_fill_span(
                style,
                step_count,
                default_near_center,
            ) == (FillSpan::EvenStep { step_count: n }),
{
}

/// Whether a style spreads its steps evenly: the stepped styles with their `even` flag set.
pub open spec fn is_even_stepped(style: ParamSliderStyle) -> bool {
    style == ParamSliderStyle::CurrentStep { even: true } || style
        == ParamSliderStyle::CurrentStepLabeled { even: true }
}

/// A centered slider fills from the default value exactly for a continuous parameter whose
/// default lies near the middle; no other style ever does.
pub proof fn lemma_fills_from_default(
    style: ParamSliderStyle,
    step_count: Option<usize>,
    default_near_center: bool,
)
    ensures
        spec_fills_from_default(style, step_count, default_near_center) <==> (style
            == ParamSliderStyle::Centered && step_count is None && default_near_center),
{
}

/// Only the even stepped styles spread steps evenly, over the parameter's own step count: for
/// the centered and left-filled styles, and for the stepped styles without the `even` flag,
/// there are no even steps whatever the step count; for a continuous parameter there are none
/// either.
pub proof fn lemma_even_steps(style: ParamSliderStyle, step_count: Option<usize>)
    ensures
        spec_even_steps(style, step_count) == (if is_even_stepped(style) {
            step_count
        } else {
            None
        }),
{
}

/// Which span is filled, for every style, step count and default position: the centered and
/// left-filled styles fill from the default or from the left, from the default exactly for a
/// centered continuous parameter whose default lies near the middle; the stepped styles fill a
/// cell, an even one over the parameter's steps exactly for the even stepped styles of a discrete
/// parameter, else the span around the current step.
pub proof fn lemma_fill_span_cases(
    style: ParamSliderStyle,
    step_count: Option<usize>,
    default_near_center: bool,
)
    ensures
        ({
            let fill = spec_fill_span(style, step_count, default_near_center);
            &&& (style == ParamSliderStyle::Centered || style == ParamSliderStyle::FromLeft) ==> (
            fill == FillSpan::FromDefault || fill == FillSpan::FromLeft)
            &&& fill == FillSpan::FromDefault <==> (style == ParamSliderStyle::Centered
                && step_count is None && default_near_center)
            &&& fill == FillSpan::FromLeft <==> (style == ParamSliderStyle::FromLeft || (style
                == ParamSliderStyle::Centered && !(step_count is None && default_near_center)))
            &&& forall|n: usize|
                fill == (FillSpan::EvenStep { step_count: n }) <==> (is_even_stepped(style)
                    && step_count == Some(n))
            &&& fill == FillSpan::AroundStep <==> ((style is CurrentStep
                || style is CurrentStepLabeled) && !(is_even_stepped(style) && step_count is Some))
        }),
{
}

} // verus!
