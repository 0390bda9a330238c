//! The decisions of the hand-drawn window frame: which command the title bar
//! and its buttons send to the host window.

use vstd::prelude::*;

verus! {

/// A request to the host's windowing layer.
#[derive(Clone, Copy, Debug, PartialEq, Eq, Structural)]
pub enum WindowCommand {
    Close,
    Maximized(bool),
    Minimized(bool),
    /// Begin moving the window with the pointer; the host does the moving.
    StartDrag,
}

/// What the pointer did to the title strip in one frame, with the host's
/// maximized state as read in that frame.
pub open spec fn title_bar_spec(double_clicked: bool, held: bool, is_maximized: bool) -> Option<WindowCommand> {
    if double_clicked {
        Some(WindowCommand::Maximized(!is_maximized))
    } else if held {
        Some(WindowCommand::StartDrag)
    } else {
        None
    }
}

/// The title strip: a double click toggles maximized against the host's
/// current state; otherwise a press held on it drags the window, every frame
/// while it is held.
pub fn title_bar_command(double_clicked: bool, held: bool, is_maximized: bool) -> (r: Option<WindowCommand>)
    ensures
        r == title_bar_spec(double_clicked, held, is_maximized),
{
    if double_clicked {
        Some(WindowCommand::Maximized(!is_maximized))
    } else if held {
        Some(WindowCommand::StartDrag)
    } else {
        None
    }
}

/// The clicks on the frame's three buttons in one frame.
#[derive(Clone, Copy, Debug, PartialEq, Eq, Structural)]
pub struct ButtonClicks {
    pub close: bool,
    pub maximize: bool,
    pub minimize: bool,
}

pub open spec fn when(clicked: bool, c: WindowCommand) -> Seq<WindowCommand> {
    if clicked {
        seq![c]
    } else {
        Seq::empty()
    }
}

pub open spec fn buttons_spec(clicks: ButtonClicks, is_maximized: bool) -> Seq<WindowCommand> {
    when(clicks.close, WindowCommand::Close)
        + when(clicks.maximize, WindowCommand::Maximized(!is_maximized))
        + when(clicks.minimize, WindowCommand::Minimized(true))
}

/// One command per clicked button, in the order close, maximize or restore,
/// minimize. The maximize button restores a maximized window and maximizes
/// any other, by the host's state as read in this frame.
pub fn button_commands(clicks: ButtonClicks, is_maximized: bool) -> (r: Vec<WindowCommand>)
    ensures
        r@ == buttons_spec(clicks, is_maximized),
{
    let mut r: Vec<WindowCommand> = Vec::new();
    if clicks.close {
        r.push(WindowCommand::Close);
    }
    if clicks.maximize {
        r.push(WindowCommand::Maximized(!is_maximized));
    }
    if clicks.minimize {
        r.push(WindowCommand::Minimized(true));
    }
    assert(r@ =~= buttons_spec(clicks, is_maximized));
    r
}

} // verus!
