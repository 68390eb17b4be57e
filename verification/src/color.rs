use vstd::prelude::*;

verus! {

/// Pointer-interaction signal reported for a title bar on one frame.
///
/// `Idle` is the explicit "no interaction" report; a frame with no report at
/// all (the element is not tracked for pointer interaction) is handed to the
/// mapper as `None` and treated exactly like `Idle`.
#[derive(Clone, Copy, Debug, PartialEq, Eq, Structural)]
pub enum InteractionState {
    Idle,
    Hovered,
    Pressed,
}

/// A normalized RGB color with each channel stored in hundredths of the
/// [0, 1] channel unit, so `r: 35` stands for a red channel of 0.35.
#[derive(Clone, Copy, Debug, PartialEq, Eq, Structural)]
pub struct Rgb {
    pub r: u8,
    pub g: u8,
    pub b: u8,
}

/// The color owed to each interaction report: light green while pressed, a
/// lighter gray while hovered, and a dark gray when idle or unreported.
pub open spec fn color_for(state: Option<InteractionState>) -> Rgb {
    match state {
        Some(InteractionState::Pressed) => Rgb { r: 35, g: 75, b: 35 },
        Some(InteractionState::Hovered) => Rgb { r: 25, g: 25, b: 25 },
        Some(InteractionState::Idle) => Rgb { r: 15, g: 15, b: 15 },
        None => Rgb { r: 15, g: 15, b: 15 },
    }
}

/// Maps the interaction signal of one frame to the title-bar color.
///
/// Total and memoryless: the result depends on this frame's report alone,
/// never on any earlier state, and an absent report maps like `Idle`.
pub fn interaction_color(state: Option<InteractionState>) -> (c: Rgb)
    ensures
        c == color_for(state),
{
    match state {
        Some(InteractionState::Pressed) => Rgb { r: 35, g: 75, b: 35 },
        Some(InteractionState::Hovered) => Rgb { r: 25, g: 25, b: 25 },
        Some(InteractionState::Idle) => Rgb { r: 15, g: 15, b: 15 },
        None => Rgb { r: 15, g: 15, b: 15 },
    }
}

} // verus!
