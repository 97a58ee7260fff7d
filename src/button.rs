use vstd::prelude::*;

verus! {

/// How the pointer is interacting with the quit button.
#[derive(Clone, Copy, Debug, PartialEq, Eq, Structural)]
pub enum ButtonState {
    Idle,
    Hovered,
    Pressed,
}

/// The button's background colour.
#[derive(Clone, Copy, Debug, PartialEq, Eq, Structural)]
pub enum ButtonColor {
    Gray,
    OrangeRed,
    Black,
}

/// What the quit button shows, and whether the window must be closed.
#[derive(Debug)]
pub struct ButtonLook {
    pub label: String,
    pub color: ButtonColor,
    pub close_window: bool,
}

/// The label shown in each state.
pub open spec fn label_of(state: ButtonState) -> Seq<char> {
    match state {
        ButtonState::Pressed => "Quitting"@,
        _ => "Quit"@,
    }
}

/// The background shown in each state.
pub open spec fn color_of(state: ButtonState) -> ButtonColor {
    match state {
        ButtonState::Idle => ButtonColor::Gray,
        ButtonState::Hovered => ButtonColor::OrangeRed,
        ButtonState::Pressed => ButtonColor::Black,
    }
}

/// The quit button's response to a change of its interaction state: its
/// label and background, and a close request when it is pressed.
pub fn button_response(state: ButtonState) -> (r: ButtonLook)
    ensures
        r.label@ == label_of(state),
        r.color == color_of(state),
        r.close_window == (state == ButtonState::Pressed),
{
    match state {
        ButtonState::Pressed => ButtonLook {
            label: "Quitting".to_string(),
            color: ButtonColor::Black,
            close_window: true,
        },
        ButtonState::Hovered => ButtonLook {
            label: "Quit".to_string(),
            color: ButtonColor::OrangeRed,
            close_window: false,
        },
        ButtonState::Idle => ButtonLook {
            label: "Quit".to_string(),
            color: ButtonColor::Gray,
            close_window: false,
        },
    }
}

} // verus!
