//! The event dispatcher: a state machine that sequences application
//! creation, redraw, resize and error recovery over platform events.

use vstd::prelude::*;

use crate::application::Application;
use crate::errors::InvariantViolation;
use crate::errors::SurfaceError;
use crate::frame::GpuOp;
use crate::frame::spec_frame_plan;
use crate::surface::SurfaceConfig;
use crate::window::PhysicalSize;
use crate::window::WindowId;

verus! {

/// A window-scoped event, as far as the dispatcher distinguishes events.
#[derive(Clone, Copy, PartialEq, Eq, Structural, Debug)]
pub enum WindowEvent {
    /// The platform asks for the window to be redrawn.
    RedrawRequested,
    /// The window was resized to the given physical size.
    Resized(PhysicalSize),
    /// Any other window-scoped event; logged only.
    Other,
}

/// An action the host program must carry out after an event was
/// dispatched, in the order returned.
#[derive(Clone, PartialEq, Eq, Debug)]
pub enum Effect {
    /// Execute the given frame steps on the acquired surface texture.
    RunFrame(Vec<GpuOp>),
    /// Apply the given configuration to the surface.
    ConfigureSurface(SurfaceConfig),
    /// Ask the window to schedule another redraw.
    RequestRedraw,
    /// Report a non-recoverable render failure; no redraw is requested,
    /// so the loop stalls until the next externally triggered event.
    LogError(SurfaceError),
}

/// A wrapper around the application state to handle creation of the
/// application once the platform allows it. Manages and dispatches
/// events; it is the sole decision point for recover-vs-log-vs-abort.
#[derive(Clone, Copy, PartialEq, Eq, Debug)]
pub struct AppWrapper {
    /// The application; `None` while uninitialized.
    pub app: Option<Application>,
}

impl AppWrapper {
    /// Creates a new, uninitialized dispatcher.
    pub fn new() -> (w: AppWrapper)
        ensures
            w.app is None,
    {
        AppWrapper { app: None }
    }

    /// True until a resume signal has installed an application.
    pub fn needs_initialization(&self) -> (r: bool)
        ensures
            r == (self.app is None),
    {
        self.app.is_none()
    }

    /// Handles the platform's resume signal, given the application the
    /// host program constructed for the newly created window. The only
    /// transition out of the uninitialized state: it installs the
    /// application. Already initialized, the signal is an idempotent
    /// no-op and the existing application is kept.
    pub fn resumed(&mut self, app: Application)
        ensures
            old(self).app is None ==> final(self).app == Some(app),
            old(self).app is Some ==> *final(self) == *old(self),
    {
        if self.app.is_none() {
            self.app = Some(app);
        }
    }

    /// Dispatches one window-scoped event.
    ///
    /// `acquired` is the outcome of acquiring the next surface texture,
    /// which the host program obtains only for a redraw request (for any
    /// other event it passes success); `current_size` is the window's
    /// current physical size, used to recover from a lost surface.
    ///
    /// While uninitialized, every window event is ignored. Initialized,
    /// an event for any window but the bound one is an invariant
    /// violation, raised before anything is mutated. A redraw request
    /// updates and renders; when the frame was run, or the lost surface
    /// was recovered by resizing to the window's current size, the next
    /// redraw is requested, while any other render failure is only
    /// reported. A resize takes the new size; the platform never reports
    /// a zero dimension, so a zero dimension is an invariant violation.
    pub fn window_event(
        &mut self,
        window_id: WindowId,
        event: WindowEvent,
        acquired: Result<(), SurfaceError>,
        current_size: PhysicalSize,
    ) -> (r: Result<Vec<Effect>, InvariantViolation>)
        ensures
            (match old(self).app {
                None => *final(self) == *old(self) && (r matches Ok(effects) && effects@.len()
                    == 0),
                Some(a) => {
                    if window_id != a.window {
                        &&& *final(self) == *old(self)
                        &&& r == Err::<Vec<Effect>, InvariantViolation>(
                            InvariantViolation::WrongWindow,
                        )
                    } else {
                        match event {
                            WindowEvent::RedrawRequested => (match acquired {
                                Ok(()) => {
                                    &&& *final(self) == *old(self)
                                    &&& r matches Ok(effects) && effects@.len() == 2 && (
                                    effects@[0] matches Effect::RunFrame(ops) && ops@
                                        == spec_frame_plan()) && effects@[1]
                                        == Effect::RequestRedraw
                                },
                                Err(e) => {
                                    if e == SurfaceError::Lost {
                                        if current_size.wf() {
                                            &&& final(self).app == Some(
                                                Application {
                                                    config: a.config.resized(current_size),
                                                    ..a
                                                },
                                            )
                                            &&& r matches Ok(effects) && effects@.len() == 2
                                                && effects@[0] == Effect::ConfigureSurface(
                                                a.config.resized(current_size),
                                            ) && effects@[1] == Effect::RequestRedraw
                                        } else {
                                            &&& *final(self) == *old(self)
                                            &&& r == Err::<Vec<Effect>, InvariantViolation>(
                                                InvariantViolation::InvalidResize,
                                            )
                                        }
                                    } else {
                                        &&& *final(self) == *old(self)
                                        &&& r matches Ok(effects) && effects@.len() == 1
                                            && effects@[0] == Effect::LogError(e)
                                    }
                                },
                            }),
                            WindowEvent::Resized(new_size) => {
                                if new_size.wf() {
                                    &&& final(self).app == Some(
                                        Application { config: a.config.resized(new_size), ..a },
                                    )
                                    &&& r matches Ok(effects) && effects@.len() == 1 && effects@[0]
                                        == Effect::ConfigureSurface(a.config.resized(new_size))
                                } else {
                                    &&& *final(self) == *old(self)
                                    &&& r == Err::<Vec<Effect>, InvariantViolation>(
                                        InvariantViolation::InvalidResize,
                                    )
                                }
                            },
                            WindowEvent::Other => *final(self) == *old(self) && (r matches Ok(
                                effects,
                            ) && effects@.len() == 0),
                        }
                    }
                },
            }),
    {
        let cur = self.app;
        match cur {
            None => Ok(Vec::new()),
            Some(mut a) => {
                if window_id != a.window {
                    return Err(InvariantViolation::WrongWindow);
                }
                match event {
                    WindowEvent::RedrawRequested => {
                        a.update();
                        match a.render(acquired) {
                            Ok(ops) => {
                                let mut effects: Vec<Effect> = Vec::new();
                                effects.push(Effect::RunFrame(ops));
                                effects.push(Effect::RequestRedraw);
                                Ok(effects)
                            },
                            Err(SurfaceError::Lost) => {
                                match a.resize(current_size) {
                                    Ok(()) => {
                                        self.app = Some(a);
                                        let mut effects: Vec<Effect> = Vec::new();
                                        effects.push(Effect::ConfigureSurface(a.config));
                                        effects.push(Effect::RequestRedraw);
                                        Ok(effects)
                                    },
                                    Err(_) => Err(InvariantViolation::InvalidResize),
                                }
                            },
                            Err(e) => {
                                let mut effects: Vec<Effect> = Vec::new();
                                effects.push(Effect::LogError(e));
                                Ok(effects)
                            },
                        }
                    },
                    WindowEvent::Resized(new_size) => {
                        match a.resize(new_size) {
                            Ok(()) => {
                                self.app = Some(a);
                                let mut effects: Vec<Effect> = Vec::new();
                                effects.push(Effect::ConfigureSurface(a.config));
                                Ok(effects)
                            },
                            Err(_) => Err(InvariantViolation::InvalidResize),
                        }
                    },
                    WindowEvent::Other => Ok(Vec::new()),
                }
            },
        }
    }

    /// A user event arrived. The dispatcher defines no producer of user
    /// events, so receiving one is an invariant violation; nothing
    /// changes.
    pub fn user_event(&mut self) -> (r: Result<(), InvariantViolation>)
        ensures
            *final(self) == *old(self),
            r == Err::<(), InvariantViolation>(InvariantViolation::UnexpectedUserEvent),
    {
        Err(InvariantViolation::UnexpectedUserEvent)
    }

    /// A new batch of OS events begins; logged only, nothing changes.
    pub fn new_events(&mut self)
        ensures
            *final(self) == *old(self),
    {
    }

    /// A device-scoped event arrived; logged only, nothing changes.
    pub fn device_event(&mut self)
        ensures
            *final(self) == *old(self),
    {
    }

    /// The loop is about to wait for events; nothing to do.
    pub fn about_to_wait(&mut self)
        ensures
            *final(self) == *old(self),
    {
    }

    /// The platform suspended the application; all state is retained.
    pub fn suspended(&mut self)
        ensures
            *final(self) == *old(self),
    {
    }

    /// The event loop is exiting; logged only, nothing changes.
    pub fn exiting(&mut self)
        ensures
            *final(self) == *old(self),
    {
    }

    /// The platform warns of memory pressure; logged only, nothing
    /// changes.
    pub fn memory_warning(&mut self)
        ensures
            *final(self) == *old(self),
    {
    }
}

} // verus!
