use vstd::prelude::*;
use crate::selection::{App, InputSnapshot, Status};

verus! {

/// A platform event, as the render loop controller sees it. Window-level
/// variants carry `repaint`: whether the UI adapter asked for a repaint
/// after seeing the event.
#[derive(Debug, Clone, Copy)]
pub enum LoopEvent {
    /// The platform asked for the window to be repainted.
    RedrawRequested,
    /// The user asked the window to close.
    CloseRequested { repaint: bool },
    /// The window was destroyed.
    Destroyed { repaint: bool },
    /// The window was resized to the given physical size.
    Resized { width: u32, height: u32, repaint: bool },
    /// The window's scale factor changed, with the new physical size.
    ScaleFactorChanged { width: u32, height: u32, repaint: bool },
    /// Any other window-level event (pointer, keyboard, focus).
    WindowInput { repaint: bool },
    /// A scheduled sleep-until wake was reached.
    WakeReached,
    /// The event loop itself is being torn down.
    LoopDestroyed,
    /// Anything else; a no-op.
    Other,
}

/// What the loop's shell must do in response to one event: each field is one
/// effect, performed in declaration order.
#[derive(Debug, Clone, Copy)]
pub struct Directive {
    /// Build, paint and present a frame now.
    pub redraw: bool,
    /// Reconfigure the surface to this physical size.
    pub resize: Option<(u32, u32)>,
    /// Ask the platform to schedule another redraw.
    pub request_redraw: bool,
    /// Leave the event loop after this event.
    pub exit: bool,
    /// Release the graphics surface; issued at most once, on teardown.
    pub destroy: bool,
}

/// The render loop controller's state: the selection state machine it
/// drives, and whether the graphics surface has already been torn down.
pub struct Controller {
    /// The selection state machine.
    pub app: App,
    /// Whether the graphics surface has already been released.
    pub torn_down: bool,
}

/// The directive for one event, given whether teardown already happened.
/// Close and destroy events exit; resizes and scale changes reconfigure the
/// surface; a reached wake or a UI repaint wish requests a redraw; loop
/// teardown destroys the surface — only the first time — and exits.
pub open spec fn spec_directive(e: LoopEvent, already_torn_down: bool) -> Directive {
    match e {
        LoopEvent::RedrawRequested => Directive {
            redraw: true,
            resize: None,
            request_redraw: false,
            exit: false,
            destroy: false,
        },
        LoopEvent::CloseRequested { repaint } => Directive {
            redraw: false,
            resize: None,
            request_redraw: repaint,
            exit: true,
            destroy: false,
        },
        LoopEvent::Destroyed { repaint } => Directive {
            redraw: false,
            resize: None,
            request_redraw: repaint,
            exit: true,
            destroy: false,
        },
        LoopEvent::Resized { width, height, repaint } => Directive {
            redraw: false,
            resize: Some((width, height)),
            request_redraw: repaint,
            exit: false,
            destroy: false,
        },
        LoopEvent::ScaleFactorChanged { width, height, repaint } => Directive {
            redraw: false,
            resize: Some((width, height)),
            request_redraw: repaint,
            exit: false,
            destroy: false,
        },
        LoopEvent::WindowInput { repaint } => Directive {
            redraw: false,
            resize: None,
            request_redraw: repaint,
            exit: false,
            destroy: false,
        },
        LoopEvent::WakeReached => Directive {
            redraw: false,
            resize: None,
            request_redraw: true,
            exit: false,
            destroy: false,
        },
        LoopEvent::LoopDestroyed => Directive {
            redraw: false,
            resize: None,
            request_redraw: false,
            exit: true,
            destroy: !already_torn_down,
        },
        LoopEvent::Other => Directive {
            redraw: false,
            resize: None,
            request_redraw: false,
            exit: false,
            destroy: false,
        },
    }
}

impl Controller {
    /// A fresh controller: initial state machine, surface not yet torn down.
    pub fn new() -> (c: Controller)
        ensures
            c.app == App::initial(),
            !c.torn_down,
    {
        Controller { app: App::default(), torn_down: false }
    }

    /// Route one platform event: the returned directive lists the effects
    /// the shell must perform. The selection state machine is untouched;
    /// teardown is recorded so that the destroy effect is issued at most
    /// once over the controller's lifetime.
    pub fn handle_event(&mut self, e: &LoopEvent) -> (d: Directive)
        ensures
            d == spec_directive(*e, old(self).torn_down),
            final(self).app == old(self).app,
            final(self).torn_down == (old(self).torn_down
                || *e matches LoopEvent::LoopDestroyed),
    {
        match e {
            LoopEvent::RedrawRequested => Directive {
                redraw: true,
                resize: None,
                request_redraw: false,
                exit: false,
                destroy: false,
            },
            LoopEvent::CloseRequested { repaint } => Directive {
                redraw: false,
                resize: None,
                request_redraw: *repaint,
                exit: true,
                destroy: false,
            },
            LoopEvent::Destroyed { repaint } => Directive {
                redraw: false,
                resize: None,
                request_redraw: *repaint,
                exit: true,
                destroy: false,
            },
            LoopEvent::Resized { width, height, repaint } => Directive {
                redraw: false,
                resize: Some((*width, *height)),
                request_redraw: *repaint,
                exit: false,
                destroy: false,
            },
            LoopEvent::ScaleFactorChanged { width, height, repaint } => Directive {
                redraw: false,
                resize: Some((*width, *height)),
                request_redraw: *repaint,
                exit: false,
                destroy: false,
            },
            LoopEvent::WindowInput { repaint } => Directive {
                redraw: false,
                resize: None,
                request_redraw: *repaint,
                exit: false,
                destroy: false,
            },
            LoopEvent::WakeReached => Directive {
                redraw: false,
                resize: None,
                request_redraw: true,
                exit: false,
                destroy: false,
            },
            LoopEvent::LoopDestroyed => {
                let first = !self.torn_down;
                self.torn_down = true;
                Directive {
                    redraw: false,
                    resize: None,
                    request_redraw: false,
                    exit: true,
                    destroy: first,
                }
            },
            LoopEvent::Other => Directive {
                redraw: false,
                resize: None,
                request_redraw: false,
                exit: false,
                destroy: false,
            },
        }
    }

    /// Drive the selection state machine one tick; the redraw path calls
    /// this once per frame with the input snapshot it drained.
    pub fn tick(&mut self, input: &InputSnapshot) -> (status: Status)
        ensures
            final(self).app == App::step(old(self).app, *input).0,
            status == App::step(old(self).app, *input).1,
            final(self).torn_down == old(self).torn_down,
    {
        self.app.update(input)
    }
}

/// The surface is destroyed exactly once: a destroy directive is issued only
/// on the terminal transition (it always comes with `exit`), and once an
/// event has carried it, no event routed from the resulting state — where
/// teardown is recorded, as `handle_event` ensures — carries it again.
pub proof fn lemma_destroy_issued_at_most_once(torn_down: bool, e1: LoopEvent, e2: LoopEvent)
    ensures
        spec_directive(e1, torn_down).destroy ==> spec_directive(e1, torn_down).exit,
        spec_directive(e1, torn_down).destroy ==> !spec_directive(
            e2,
            torn_down || e1 is LoopDestroyed,
        ).destroy,
{
}

} // verus!
