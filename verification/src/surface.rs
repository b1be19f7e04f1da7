//! Surface capabilities and the negotiated presentation configuration.

use vstd::prelude::*;

use crate::errors::AppError;
use crate::window::PhysicalSize;

verus! {

/// One texture format reported for the surface: an opaque code chosen by
/// the host program, and whether the format is sRGB-encoded.
#[derive(Clone, Copy, PartialEq, Eq, Structural, Debug)]
pub struct FormatDesc {
    /// Opaque code that lets the host program recover the backend's own
    /// format value.
    pub code: u32,
    /// Whether the format is sRGB-encoded.
    pub srgb: bool,
}

/// What the backend reports as supported for a surface: texture formats,
/// present modes and alpha modes, each in reported order. Present and
/// alpha modes are opaque codes chosen by the host program.
#[derive(Clone, PartialEq, Eq, Debug)]
pub struct SurfaceCaps {
    pub formats: Vec<FormatDesc>,
    pub present_modes: Vec<u32>,
    pub alpha_modes: Vec<u32>,
}

/// The negotiated presentation configuration of the surface.
/// Render-target usage and the empty extra-view-format list are fixed by
/// policy and carry no field.
#[derive(Clone, Copy, PartialEq, Eq, Structural, Debug)]
pub struct SurfaceConfig {
    pub format: FormatDesc,
    pub width: u32,
    pub height: u32,
    pub present_mode: u32,
    pub alpha_mode: u32,
    pub desired_maximum_frame_latency: u32,
}

impl SurfaceConfig {
    /// A configuration may be applied to the surface only with both
    /// dimensions strictly positive.
    pub open spec fn wf(self) -> bool {
        self.width > 0 && self.height > 0
    }

    /// The configuration after a resize: the new extent, everything else
    /// unchanged.
    pub open spec fn resized(self, size: PhysicalSize) -> SurfaceConfig {
        SurfaceConfig { width: size.width, height: size.height, ..self }
    }
}

/// Whether some reported format is sRGB-encoded.
pub open spec fn has_srgb(formats: Seq<FormatDesc>) -> bool {
    exists|i: int| 0 <= i < formats.len() && (#[trigger] formats[i]).srgb
}

/// The format-selection policy: the first sRGB-encoded entry if one
/// exists, otherwise the first reported entry.
pub open spec fn is_chosen_format(formats: Seq<FormatDesc>, f: FormatDesc) -> bool {
    if has_srgb(formats) {
        exists|i: int|
            0 <= i < formats.len() && (#[trigger] formats[i]).srgb && f == formats[i]
                && (forall|j: int| 0 <= j < i ==> !(#[trigger] formats[j]).srgb)
    } else {
        formats.len() > 0 && f == formats[0]
    }
}

/// The capability lists are complete enough to negotiate a configuration:
/// none of them is empty.
pub open spec fn caps_complete(caps: SurfaceCaps) -> bool {
    caps.formats@.len() > 0 && caps.present_modes@.len() > 0 && caps.alpha_modes@.len() > 0
}

/// What a negotiated configuration is: the chosen format, the window's
/// current extent, the first reported present and alpha modes, and a
/// queued-frame latency of two.
pub open spec fn negotiated(caps: SurfaceCaps, size: PhysicalSize, config: SurfaceConfig) -> bool {
    &&& is_chosen_format(caps.formats@, config.format)
    &&& config.width == size.width
    &&& config.height == size.height
    &&& config.present_mode == caps.present_modes@[0]
    &&& config.alpha_mode == caps.alpha_modes@[0]
    &&& config.desired_maximum_frame_latency == 2
}

/// Which error negotiation reports for which missing capability; format
/// availability is checked first, then present modes, then alpha modes.
pub open spec fn negotiation_error(caps: SurfaceCaps, e: AppError) -> bool {
    match e {
        AppError::NoSurfaceFormats => caps.formats@.len() == 0,
        AppError::NoPresentMode => caps.formats@.len() > 0 && caps.present_modes@.len() == 0,
        AppError::NoAlphaMode => caps.formats@.len() > 0 && caps.present_modes@.len() > 0
            && caps.alpha_modes@.len() == 0,
        _ => false,
    }
}

/// Chooses the texture format: the first sRGB-encoded entry, else the
/// first reported entry; fails when none was reported.
pub fn choose_format(formats: &Vec<FormatDesc>) -> (r: Result<FormatDesc, AppError>)
    ensures
        formats@.len() == 0 ==> r == Err::<FormatDesc, AppError>(AppError::NoSurfaceFormats),
        formats@.len() > 0 ==> (r matches Ok(f) && is_chosen_format(formats@, f)),
{
    let n = formats.len();
    let mut i: usize = 0;
    while i < n
        invariant
            n == formats@.len(),
            0 <= i <= n,
            forall|j: int| 0 <= j < i ==> !(#[trigger] formats@[j]).srgb,
        decreases n - i,
    {
        if formats[i].srgb {
            proof {
                assert(has_srgb(formats@));
            }
            return Ok(formats[i]);
        }
        i += 1;
    }
    if n > 0 {
        proof {
            assert(!has_srgb(formats@));
        }
        Ok(formats[0])
    } else {
        Err(AppError::NoSurfaceFormats)
    }
}

/// Builds the surface configuration from the reported capabilities and
/// the window's current size. Fails exactly when a capability list is
/// empty, reporting the first missing one; on success the configuration
/// is the negotiated one.
pub fn negotiate_config(caps: &SurfaceCaps, size: PhysicalSize) -> (r: Result<
    SurfaceConfig,
    AppError,
>)
    ensures
        (r is Ok) <==> caps_complete(*caps),
        (match r {
            Ok(config) => negotiated(*caps, size, config),
            Err(e) => negotiation_error(*caps, e),
        }),
{
    let format = match choose_format(&caps.formats) {
        Ok(f) => f,
        Err(e) => {
            return Err(e);
        },
    };
    if caps.present_modes.len() == 0 {
        return Err(AppError::NoPresentMode);
    }
    if caps.alpha_modes.len() == 0 {
        return Err(AppError::NoAlphaMode);
    }
    Ok(
        SurfaceConfig {
            format,
            width: size.width,
            height: size.height,
            present_mode: caps.present_modes[0],
            alpha_mode: caps.alpha_modes[0],
            desired_maximum_frame_latency: 2,
        },
    )
}

/// Format-selection policy: over capabilities with at least one
/// sRGB-encoded format the chosen format is sRGB-encoded; with none, it
/// is the first reported format.
pub proof fn lemma_format_choice(formats: Seq<FormatDesc>, f: FormatDesc)
    requires
        is_chosen_format(formats, f),
    ensures
        has_srgb(formats) ==> f.srgb,
        !has_srgb(formats) && formats.len() > 0 ==> f == formats[0],
{
}

} // verus!
