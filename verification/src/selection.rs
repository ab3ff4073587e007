use vstd::prelude::*;
use crate::geom::{Point, Rect};

verus! {

/// Whether the overlay keeps running after a tick or terminates.
#[derive(Debug, Clone, Copy, PartialEq, Eq, Structural)]
pub enum Status {
    Running,
    Quit,
}

/// Everything the selection state machine reads from one tick's input.
#[derive(Debug, Clone, Copy)]
pub struct InputSnapshot {
    /// The overlay window has input focus during this tick.
    pub focused: bool,
    /// Escape was pressed during this tick.
    pub escape_pressed: bool,
    /// The pointer's position while a button is held, if one is.
    pub pointer: Option<Point>,
}

/// The selection state machine.
///
/// A drag starts a selection at the pointer-down position, each move while
/// the button is held drags the far corner, and releasing the button
/// finalizes: the normalized rectangle is kept and the machine quits
/// (drag-release-to-confirm). Escape and focus loss cancel: they quit with
/// the selection cleared. The machine is total: it never fails, and a tick
/// with no recognizable input changes nothing.
pub struct App {
    /// The selection in drag order: `min` is the anchor (pointer-down
    /// position), `max` the latest pointer position. Normalized only once
    /// the drag is released.
    pub selection: Option<Rect>,
    /// Whether the overlay had focus as of the previous tick.
    pub focus: bool,
}

impl App {
    /// The state before any tick: no selection, focus not yet seen.
    pub open spec fn initial() -> App {
        App { selection: None, focus: false }
    }

    /// A tick reports the window unfocused after the overlay had focus.
    pub open spec fn focus_lost(self, input: InputSnapshot) -> bool {
        self.focus && !input.focused
    }

    /// One tick of the state machine, as a pure function of the previous
    /// state and the input snapshot: the new state and the status.
    pub open spec fn step(pre: App, input: InputSnapshot) -> (App, Status) {
        if pre.focus_lost(input) {
            (App { selection: None, focus: false }, Status::Quit)
        } else if input.escape_pressed {
            (App { selection: None, focus: input.focused }, Status::Quit)
        } else {
            match input.pointer {
                Some(pos) => {
                    let sel = match pre.selection {
                        Some(sel) => Rect { min: sel.min, max: pos },
                        None => Rect { min: pos, max: pos },
                    };
                    (App { selection: Some(sel), focus: input.focused }, Status::Running)
                },
                None => {
                    match pre.selection {
                        Some(sel) => (
                            App {
                                selection: Some(Rect::normalized_of(sel.min, sel.max)),
                                focus: input.focused,
                            },
                            Status::Quit,
                        ),
                        None => (App { selection: None, focus: input.focused }, Status::Running),
                    }
                },
            }
        }
    }

    /// The current selection; between pointer-down and release it is the
    /// raw drag rectangle, after release the normalized one.
    pub fn selection(&self) -> (r: Option<Rect>)
        ensures
            r == self.selection,
    {
        self.selection
    }

    /// Drive the state machine one tick.
    ///
    /// Pointer-down starts a zero-size selection; pointer-move while held
    /// drags the far corner; pointer-release finalizes the normalized
    /// rectangle and quits (drag-release-to-confirm is this library's
    /// resolution policy). Escape or focus loss quits with the selection
    /// cleared; anything else is a no-op that keeps running.
    pub fn update(&mut self, input: &InputSnapshot) -> (status: Status)
        ensures
            *final(self) == App::step(*old(self), *input).0,
            status == App::step(*old(self), *input).1,
    {
        if self.focus != input.focused {
            self.focus = input.focused;
            if !input.focused {
                self.selection = None;
                return Status::Quit;
            }
        }

        if input.escape_pressed {
            self.selection = None;
            return Status::Quit;
        }

        match input.pointer {
            Some(pos) => {
                match self.selection {
                    Some(sel) => {
                        self.selection = Some(Rect::from_min_max(sel.min, pos));
                    },
                    None => {
                        self.selection = Some(Rect::from_min_max(pos, pos));
                    },
                }
                Status::Running
            },
            None => {
                match self.selection {
                    Some(sel) => {
                        self.selection = Some(Rect::from_two_pos(sel.min, sel.max));
                        Status::Quit
                    },
                    None => Status::Running,
                }
            },
        }
    }
}

impl Default for App {
    /// The machine starts with no selection and focus not yet seen.
    fn default() -> (a: App)
        ensures
            a == App::initial(),
    {
        App { selection: None, focus: false }
    }
}

/// Reading the selection twice without an intervening tick returns
/// identical values: each read returns exactly the stored selection.
pub proof fn lemma_selection_read_idempotent(a: App, r1: Option<Rect>, r2: Option<Rect>)
    requires
        r1 == a.selection,
        r2 == a.selection,
    ensures
        r1 == r2,
{
}

/// Escape always cancels: a tick whose input reports an Escape key-press
/// quits with the selection cleared, regardless of the prior state.
pub proof fn lemma_escape_always_cancels(pre: App, input: InputSnapshot)
    requires
        input.escape_pressed,
    ensures
        App::step(pre, input).1 == Status::Quit,
        App::step(pre, input).0.selection is None,
{
}

/// Focus loss always cancels: a tick that reports the window unfocused
/// while the overlay had focus quits with the selection cleared, regardless
/// of the prior selection.
pub proof fn lemma_focus_loss_always_cancels(pre: App, input: InputSnapshot)
    requires
        pre.focus,
        !input.focused,
    ensures
        App::step(pre, input).1 == Status::Quit,
        App::step(pre, input).0.selection is None,
{
}

/// A finalized selection is normalized: whenever a tick quits with the
/// selection still present (a drag released), that rectangle's corners are
/// ordered component-wise.
pub proof fn lemma_finalized_selection_normalized(pre: App, input: InputSnapshot)
    ensures
        App::step(pre, input).0.selection matches Some(r) ==> (App::step(pre, input).1
            == Status::Quit ==> r.is_normalized()),
{
}

} // verus!
