//! What the program does when the window system reports an event, and what it
//! does with the outcome of acquiring a frame.
//!
//! Nothing here touches a window or a device. A handler takes what happened
//! and says what must be done; the program around it does that and comes back
//! with what happened next.

use vstd::prelude::*;
use crate::renderer::Renderer;
use crate::surface::SurfaceConfig;

verus! {

/// What the window system reports. Events that belong to a window carry its
/// identity.
#[derive(Clone, Copy, Debug, PartialEq, Eq)]
pub enum Event {
    /// The window must be drawn again.
    RedrawRequested { window: u64 },
    /// The client area of the window now has this size, in pixels.
    Resized { window: u64, width: u32, height: u32 },
    /// The user asked to close the window.
    CloseRequested { window: u64 },
    /// Anything else.
    Other,
}

/// How an attempt to acquire the next presentable frame ended.
#[derive(Clone, Copy, Debug, PartialEq, Eq)]
pub enum FrameOutcome {
    /// A frame is there to draw into.
    Ready,
    /// The surface was lost. `width` and `height` are the size of the window
    /// as it is now.
    Lost { width: u32, height: u32 },
    /// No memory was left for the frame.
    OutOfMemory,
    /// The frame did not arrive in time.
    Timeout,
    /// Any other failure that may be gone at the next attempt.
    Other,
}

/// Anything a handler of the loop takes: an event of the window system, or
/// the outcome of acquiring a frame.
#[derive(Clone, Copy, Debug, PartialEq, Eq)]
pub enum Input {
    Event(Event),
    Frame(FrameOutcome),
}

/// Why a frame was given up.
#[derive(Clone, Copy, Debug, PartialEq, Eq)]
pub enum SkipReason {
    Timeout,
    Other,
}

/// Why the loop ends.
#[derive(Clone, Copy, Debug, PartialEq, Eq)]
pub enum ExitReason {
    CloseRequested,
    OutOfMemory,
}

/// What the program must do next.
#[derive(Clone, Copy, Debug, PartialEq, Eq)]
pub enum Action {
    /// Nothing.
    Idle,
    /// Try to acquire the next presentable frame and report the outcome.
    AcquireFrame,
    /// Apply `config` to the surface, without drawing; then, if `redraw`, ask
    /// the window system for a redraw.
    Reconfigure { config: SurfaceConfig, redraw: bool },
    /// Record the renderer's pass into the acquired frame, submit it, and
    /// present the frame.
    Draw,
    /// Give the frame up and try again at the next redraw.
    SkipFrame(SkipReason),
    /// Leave the event loop.
    Exit(ExitReason),
}

/// Whether the loop still runs.
#[derive(Clone, Copy, Debug, PartialEq, Eq)]
pub enum Phase {
    Running,
    /// Terminal: nothing is asked of the program any more.
    Stopped,
}

/// The state of the application between two events: the window it serves,
/// the configuration its surface has, its renderer, and whether it still
/// runs.
#[derive(Clone, Copy, Debug, PartialEq, Eq)]
pub struct FrameLoop {
    pub window: u64,
    pub config: SurfaceConfig,
    pub renderer: Renderer,
    pub phase: Phase,
}

impl FrameLoop {
    /// The renderer is well formed and follows the same configuration as the
    /// surface.
    pub open spec fn wf(self) -> bool {
        self.renderer.wf() && self.renderer.config == self.config
    }

    /// The state a program starts in, once the surface of `window` has been
    /// configured with `config`.
    pub open spec fn start(window: u64, config: SurfaceConfig) -> FrameLoop {
        FrameLoop { window, config, renderer: Renderer::for_config(config), phase: Phase::Running }
    }

    /// This state after surface and renderer took the size `width` by
    /// `height`.
    pub open spec fn reconfigured(self, width: u32, height: u32) -> FrameLoop {
        FrameLoop {
            config: self.config.with_size(width, height),
            renderer: self.renderer.resized(width, height),
            ..self
        }
    }

    /// This state, stopped.
    pub open spec fn stopped(self) -> FrameLoop {
        FrameLoop { phase: Phase::Stopped, ..self }
    }

    /// The state after `event`. A stopped loop stays as it is, and so does
    /// any loop at an event of another window.
    pub open spec fn after_event(self, event: Event) -> FrameLoop {
        if self.phase is Stopped {
            self
        } else {
            match event {
                Event::Resized { window, width, height } if window == self.window =>
                    self.reconfigured(width, height),
                Event::CloseRequested { window } if window == self.window => self.stopped(),
                _ => self,
            }
        }
    }

    /// What `event` asks of the program.
    pub open spec fn action_for_event(self, event: Event) -> Action {
        if self.phase is Stopped {
            Action::Idle
        } else {
            match event {
                Event::RedrawRequested { window } if window == self.window => Action::AcquireFrame,
                Event::Resized { window, width, height } if window == self.window =>
                    Action::Reconfigure {
                        config: self.config.with_size(width, height),
                        redraw: true,
                    },
                Event::CloseRequested { window } if window == self.window => Action::Exit(
                    ExitReason::CloseRequested,
                ),
                _ => Action::Idle,
            }
        }
    }

    /// The state after an attempt to acquire a frame ended in `outcome`.
    pub open spec fn after_frame(self, outcome: FrameOutcome) -> FrameLoop {
        if self.phase is Stopped {
            self
        } else {
            match outcome {
                FrameOutcome::Lost { width, height } => self.reconfigured(width, height),
                FrameOutcome::OutOfMemory => self.stopped(),
                _ => self,
            }
        }
    }

    /// What `outcome` asks of the program.
    pub open spec fn action_for_frame(self, outcome: FrameOutcome) -> Action {
        if self.phase is Stopped {
            Action::Idle
        } else {
            match outcome {
                FrameOutcome::Ready => Action::Draw,
                FrameOutcome::Lost { width, height } => Action::Reconfigure {
                    config: self.config.with_size(width, height),
                    redraw: false,
                },
                FrameOutcome::OutOfMemory => Action::Exit(ExitReason::OutOfMemory),
                FrameOutcome::Timeout => Action::SkipFrame(SkipReason::Timeout),
                FrameOutcome::Other => Action::SkipFrame(SkipReason::Other),
            }
        }
    }

    /// The state after `input`, of either kind.
    pub open spec fn after_input(self, input: Input) -> FrameLoop {
        match input {
            Input::Event(event) => self.after_event(event),
            Input::Frame(outcome) => self.after_frame(outcome),
        }
    }

    /// What `input`, of either kind, asks of the program.
    pub open spec fn action_for(self, input: Input) -> Action {
        match input {
            Input::Event(event) => self.action_for_event(event),
            Input::Frame(outcome) => self.action_for_frame(outcome),
        }
    }

    /// Starts the loop for `window`, whose surface has been configured with
    /// `config`. The renderer is made for that configuration.
    pub fn new(window: u64, config: SurfaceConfig) -> (state: FrameLoop)
        ensures
            state == FrameLoop::start(window, config),
            state.wf(),
    {
        FrameLoop { window, config, renderer: Renderer::new(&config), phase: Phase::Running }
    }

    /// Whether the loop has stopped.
    pub fn is_stopped(&self) -> (stopped: bool)
        ensures
            stopped == (self.phase is Stopped),
    {
        match self.phase {
            Phase::Stopped => true,
            Phase::Running => false,
        }
    }

    /// Gives configuration and renderer the size `width` by `height` and
    /// returns the configuration that must now be applied to the surface.
    /// Format, modes and pipeline stay as they are.
    pub fn reconfigure(&mut self, width: u32, height: u32) -> (config: SurfaceConfig)
        ensures
            *final(self) == old(self).reconfigured(width, height),
            config == final(self).config,
            old(self).wf() ==> final(self).wf(),
    {
        self.config.set_size(width, height);
        self.renderer.resize(width, height);
        self.config
    }

    /// Handles one event of the window system.
    ///
    /// While the loop runs, and for its own window: a redraw request asks for
    /// a frame; a new size is taken over at once and must be applied to the
    /// surface before anything else, followed by a redraw; a close request
    /// stops the loop. Everything else is ignored, and a stopped loop
    /// ignores everything.
    pub fn on_event(&mut self, event: Event) -> (action: Action)
        ensures
            *final(self) == old(self).after_event(event),
            action == old(self).action_for_event(event),
            old(self).wf() ==> final(self).wf(),
    {
        if self.is_stopped() {
            return Action::Idle;
        }
        match event {
            Event::RedrawRequested { window } => {
                if window == self.window {
                    Action::AcquireFrame
                } else {
                    Action::Idle
                }
            },
            Event::Resized { window, width, height } => {
                if window == self.window {
                    let config = self.reconfigure(width, height);
                    Action::Reconfigure { config, redraw: true }
                } else {
                    Action::Idle
                }
            },
            Event::CloseRequested { window } => {
                if window == self.window {
                    self.phase = Phase::Stopped;
                    Action::Exit(ExitReason::CloseRequested)
                } else {
                    Action::Idle
                }
            },
            Event::Other => Action::Idle,
        }
    }

    /// Handles the outcome of an attempt to acquire a frame.
    ///
    /// While the loop runs: a frame that is there is drawn into and
    /// presented; a lost surface is configured anew for the size the window
    /// has now, and nothing is drawn; without memory the loop stops; any
    /// other failure costs this frame only. A stopped loop asks for nothing.
    pub fn on_frame(&mut self, outcome: FrameOutcome) -> (action: Action)
        ensures
            *final(self) == old(self).after_frame(outcome),
            action == old(self).action_for_frame(outcome),
            old(self).wf() ==> final(self).wf(),
    {
        if self.is_stopped() {
            return Action::Idle;
        }
        match outcome {
            FrameOutcome::Ready => Action::Draw,
            FrameOutcome::Lost { width, height } => {
                let config = self.reconfigure(width, height);
                Action::Reconfigure { config, redraw: false }
            },
            FrameOutcome::OutOfMemory => {
                self.phase = Phase::Stopped;
                Action::Exit(ExitReason::OutOfMemory)
            },
            FrameOutcome::Timeout => Action::SkipFrame(SkipReason::Timeout),
            FrameOutcome::Other => Action::SkipFrame(SkipReason::Other),
        }
    }

    /// Handles one input, of either kind, with the handler that is made for it.
    pub fn step(&mut self, input: Input) -> (action: Action)
        ensures
            *final(self) == old(self).after_input(input),
            action == old(self).action_for(input),
            old(self).wf() ==> final(self).wf(),
    {
        match input {
            Input::Event(event) => self.on_event(event),
            Input::Frame(outcome) => self.on_frame(outcome),
        }
    }
}

} // verus!
