use vstd::prelude::*;
use crate::surface::{Extent, FramePlan, State, SurfaceConfig, resized, frame_of};

verus! {

/// The title of the window that the controller asks for.
pub const WINDOW_TITLE: &'static str = "Minecraft Launcher";

/// In a browser, the id of the canvas element that the window is bound to.
pub const CANVAS_ID: &'static str = "canvas";

/// The width of the window that the controller asks for, in pixels.
pub const WINDOW_WIDTH: u32 = 400;

/// The height of the window that the controller asks for, in pixels.
pub const WINDOW_HEIGHT: u32 = 400;

/// How the manager's asynchronous initialization is driven.
#[derive(Clone, Copy, Debug, PartialEq, Eq, Structural)]
pub enum Bootstrap {
    /// Awaited to completion before the event loop goes on (a blocking loop).
    Blocking,
    /// Run as background work whose completion comes back as an event
    /// (a cooperative loop, as in a browser).
    Deferred,
}

/// Where the controller stands.
#[derive(Clone, Copy, Debug)]
pub enum Phase {
    /// Nothing exists yet.
    NoWindow,
    /// The window has been asked for.
    WindowCreated,
    /// The manager's initialization has started and not yet completed.
    ManagerPending,
    /// The manager is installed and receives window events.
    ManagerReady(State),
}

/// What the host environment reports to the controller.
#[derive(Clone, Copy, Debug)]
pub enum Event {
    /// The host is ready to show a window.
    Resumed,
    /// The window that was asked for exists.
    WindowOpened,
    /// The user asked to close the window.
    CloseRequested,
    /// The window's client area has a new size.
    Resized(Extent),
    /// The window should be drawn.
    RedrawRequested,
    /// The manager's initialization completed with this state.
    ManagerInitialized(State),
    /// Any other window event; it is ignored.
    Other,
}

/// What the caller must do after an event.
#[derive(Clone, Copy, Debug)]
pub enum Action {
    Nothing,
    /// Create the window with `WINDOW_TITLE` and this size.
    CreateWindow(Extent),
    /// Begin the manager's initialization, driven as given.
    StartInitialization(Bootstrap),
    /// Apply this configuration to the surface.
    Reconfigure(SurfaceConfig),
    /// Render this frame and present it.
    Render(FramePlan),
    /// Ask the window for a redraw.
    RequestRedraw,
    /// Leave the event loop.
    Exit,
}

/// The controller of the application: it owns the manager once it is ready,
/// and turns window events into actions. Once closing is requested no
/// further event has an effect; the manager, if installed, is kept until the
/// application ends.
#[derive(Clone, Copy, Debug)]
pub struct Controller {
    pub bootstrap: Bootstrap,
    pub phase: Phase,
    pub closed: bool,
}

/// The controller's transitions: the next controller and the action for an event.
pub open spec fn step(c: Controller, e: Event) -> (Controller, Action) {
    if c.closed {
        (c, Action::Nothing)
    } else {
        match e {
            Event::CloseRequested => (Controller { closed: true, ..c }, Action::Exit),
            Event::Resumed => match c.phase {
                Phase::NoWindow => (
                    Controller { phase: Phase::WindowCreated, ..c },
                    Action::CreateWindow(Extent { width: WINDOW_WIDTH, height: WINDOW_HEIGHT }),
                ),
                _ => (c, Action::Nothing),
            },
            Event::WindowOpened => match c.phase {
                Phase::WindowCreated => (
                    Controller { phase: Phase::ManagerPending, ..c },
                    Action::StartInitialization(c.bootstrap),
                ),
                _ => (c, Action::Nothing),
            },
            Event::ManagerInitialized(s) => match c.phase {
                Phase::ManagerPending => (
                    Controller { phase: Phase::ManagerReady(s), ..c },
                    if c.bootstrap == Bootstrap::Deferred {
                        Action::RequestRedraw
                    } else {
                        Action::Nothing
                    },
                ),
                _ => (c, Action::Nothing),
            },
            Event::Resized(size) => match c.phase {
                Phase::ManagerReady(s) => (
                    Controller { phase: Phase::ManagerReady(resized(s, size)), ..c },
                    if size.is_drawable() {
                        Action::Reconfigure(resized(s, size).config)
                    } else {
                        Action::Nothing
                    },
                ),
                _ => (c, Action::Nothing),
            },
            Event::RedrawRequested => match c.phase {
                Phase::ManagerReady(s) => (c, Action::Render(frame_of(s))),
                _ => (c, Action::Nothing),
            },
            Event::Other => (c, Action::Nothing),
        }
    }
}

impl Controller {
    /// A controller with no window yet, whose manager will be initialized as
    /// `bootstrap` says.
    pub fn new(bootstrap: Bootstrap) -> (r: Controller)
        ensures
            r.bootstrap == bootstrap,
            r.phase is NoWindow,
            !r.closed,
    {
        Controller { bootstrap, phase: Phase::NoWindow, closed: false }
    }

    /// Handles one event: moves to the next phase and returns what the caller
    /// must do.
    pub fn handle(&mut self, event: Event) -> (r: Action)
        ensures
            (*final(self), r) == step(*old(self), event),
    {
        if self.closed {
            return Action::Nothing;
        }
        match event {
            Event::CloseRequested => {
                self.closed = true;
                Action::Exit
            },
            Event::Resumed => {
                if let Phase::NoWindow = self.phase {
                    self.phase = Phase::WindowCreated;
                    Action::CreateWindow(Extent { width: WINDOW_WIDTH, height: WINDOW_HEIGHT })
                } else {
                    Action::Nothing
                }
            },
            Event::WindowOpened => {
                if let Phase::WindowCreated = self.phase {
                    self.phase = Phase::ManagerPending;
                    Action::StartInitialization(self.bootstrap)
                } else {
                    Action::Nothing
                }
            },
            Event::ManagerInitialized(s) => {
                if let Phase::ManagerPending = self.phase {
                    self.phase = Phase::ManagerReady(s);
                    match self.bootstrap {
                        Bootstrap::Deferred => Action::RequestRedraw,
                        Bootstrap::Blocking => Action::Nothing,
                    }
                } else {
                    Action::Nothing
                }
            },
            Event::Resized(size) => {
                if let Phase::ManagerReady(s) = self.phase {
                    let mut next = s;
                    let apply = next.resize(size);
                    self.phase = Phase::ManagerReady(next);
                    if apply {
                        Action::Reconfigure(next.config)
                    } else {
                        Action::Nothing
                    }
                } else {
                    Action::Nothing
                }
            },
            Event::RedrawRequested => {
                if let Phase::ManagerReady(s) = self.phase {
                    Action::Render(s.render())
                } else {
                    Action::Nothing
                }
            },
            Event::Other => Action::Nothing,
        }
    }

    /// Whether the manager is installed.
    pub fn is_ready(&self) -> (r: bool)
        ensures
            r == self.phase is ManagerReady,
    {
        if let Phase::ManagerReady(_) = self.phase {
            true
        } else {
            false
        }
    }

    /// Whether closing was requested.
    pub fn is_closed(&self) -> (r: bool)
        ensures
            r == self.closed,
    {
        self.closed
    }
}

/// While the manager is absent, no event leads to rendering or to a
/// reconfiguration of the surface, and the controller stays without a manager.
pub proof fn lemma_no_render_before_ready(c: Controller, e: Event)
    requires
        !(c.phase is ManagerReady),
    ensures
        !(step(c, e).1 is Render),
        !(step(c, e).1 is Reconfigure),
        e matches Event::RedrawRequested ==> step(c, e) == (c, Action::Nothing),
        !(e is ManagerInitialized) ==> !(step(c, e).0.phase is ManagerReady),
{
}

/// No window event installs or removes the manager: only the completion of
/// its initialization installs it, and once installed it stays, closing
/// included, with every later event.
pub proof fn lemma_manager_is_kept(c: Controller, e: Event)
    requires
        c.phase is ManagerReady || !(e is ManagerInitialized),
    ensures
        step(c, e).0.phase is ManagerReady == c.phase is ManagerReady,
        step(c, e).0.bootstrap == c.bootstrap,
        c.closed ==> step(c, e) == (c, Action::Nothing),
        e is CloseRequested ==> step(c, e).0 == (Controller { closed: true, ..c }),
{
}

} // verus!
