//! The application: the negotiated surface configuration bound to one
//! window, with the resize and frame contracts.

use vstd::prelude::*;

use crate::errors::AppError;
use crate::errors::ResizeError;
use crate::errors::SurfaceError;
use crate::frame::GpuOp;
use crate::frame::background_color;
use crate::frame::spec_frame_plan;
use crate::surface::SurfaceCaps;
use crate::surface::SurfaceConfig;
use crate::surface::caps_complete;
use crate::surface::negotiate_config;
use crate::surface::negotiated;
use crate::surface::negotiation_error;
use crate::window::PhysicalSize;
use crate::window::WindowId;

verus! {

/// The application state of the render loop: the negotiated surface
/// configuration together with the identity of the window the surface is
/// bound to. The backend objects themselves (instance, device, queue,
/// surface) live with the host program, which applies every configuration
/// this type computes and executes every frame plan it returns.
#[derive(Clone, Copy, PartialEq, Eq, Structural, Debug)]
pub struct Application {
    /// Configuration for the surface.
    pub config: SurfaceConfig,
    /// The window rendered to.
    pub window: WindowId,
}

impl Application {
    /// The surface configuration is fit to apply: both dimensions are
    /// strictly positive.
    pub open spec fn wf(self) -> bool {
        self.config.wf()
    }

    /// Creates a new application for the given window by negotiating the
    /// surface configuration from the reported capabilities and the
    /// window's current size. The host program acquires the backend
    /// objects around this call and applies the returned configuration to
    /// the surface; on any error no application is returned.
    pub fn new(window: WindowId, size: PhysicalSize, caps: &SurfaceCaps) -> (r: Result<
        Application,
        AppError,
    >)
        requires
            size.wf(),
        ensures
            (r is Ok) <==> caps_complete(*caps),
            (match r {
                Ok(app) => app.window == window && app.wf() && negotiated(*caps, size, app.config),
                Err(e) => negotiation_error(*caps, e),
            }),
    {
        match negotiate_config(caps, size) {
            Ok(config) => Ok(Application { config, window }),
            Err(e) => Err(e),
        }
    }

    /// Attempts to resize the surface. With both dimensions positive the
    /// configuration takes exactly the new extent, keeping format and
    /// modes, and the host program must reconfigure the surface; resizing
    /// to the current size is a valid no-op that still reconfigures. With
    /// a zero dimension it fails and nothing is touched.
    pub fn resize(&mut self, new_size: PhysicalSize) -> (r: Result<(), ResizeError>)
        ensures
            new_size.wf() ==> r == Ok::<(), ResizeError>(()) && *final(self) == (Application {
                config: old(self).config.resized(new_size),
                ..*old(self)
            }),
            !new_size.wf() ==> r == Err::<(), ResizeError>(ResizeError::ZeroDimension)
                && *final(self) == *old(self),
    {
        if new_size.width > 0 && new_size.height > 0 {
            self.config.width = new_size.width;
            self.config.height = new_size.height;
            Ok(())
        } else {
            Err(ResizeError::ZeroDimension)
        }
    }

    /// Advances per-frame state. The loop carries none yet: this is the
    /// extension point for future simulation logic and changes nothing.
    pub fn update(&mut self)
        ensures
            *final(self) == *old(self),
    {
    }

    /// Returns the identity of the window this application renders to.
    pub fn window(&self) -> (w: WindowId)
        ensures
            w == self.window,
    {
        self.window
    }

    /// Runs one frame of the protocol, given the outcome of acquiring the
    /// next surface texture from the backend. A failed acquisition is
    /// returned as is. A successful one yields the steps the host program
    /// must execute in order: one pass clearing the whole view to the
    /// fixed background color, one queue submission, one present.
    pub fn render(&mut self, acquired: Result<(), SurfaceError>) -> (r: Result<
        Vec<GpuOp>,
        SurfaceError,
    >)
        ensures
            *final(self) == *old(self),
            (match acquired {
                Ok(()) => r matches Ok(ops) && ops@ == spec_frame_plan(),
                Err(e) => r == Err::<Vec<GpuOp>, SurfaceError>(e),
            }),
    {
        match acquired {
            Ok(()) => {
                let mut ops: Vec<GpuOp> = Vec::new();
                ops.push(GpuOp::ClearPass(background_color()));
                ops.push(GpuOp::Submit);
                ops.push(GpuOp::Present);
                proof {
                    assert(ops@ =~= spec_frame_plan());
                }
                Ok(ops)
            },
            Err(e) => Err(e),
        }
    }
}

/// Resizing is idempotent: resizing twice to the same size leaves the
/// same configuration as resizing once.
pub proof fn lemma_resize_idempotent(config: SurfaceConfig, size: PhysicalSize)
    ensures
        config.resized(size).resized(size) == config.resized(size),
{
}

} // verus!
