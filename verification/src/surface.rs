use vstd::prelude::*;

verus! {

#[verifier::external_type_specification]
#[verifier::external_body]
pub struct ExSurfaceError(wgpu::SurfaceError);

/// Why one frame's surface acquisition failed, as the renderer's
/// rules see it: the crate's own mirror of the GPU backend's error.
#[derive(Clone, Copy, PartialEq, Eq, Structural, Debug)]
pub enum SurfaceFailure {
    /// Acquiring the next frame timed out.
    Timeout,
    /// The surface no longer matches the window and must be
    /// reconfigured before the next frame.
    Outdated,
    /// The swap chain was lost and must be recreated.
    Lost,
    /// The backend has no memory left for another frame.
    OutOfMemory,
}

/// Relies on wgpu::SurfaceError, the error of
/// wgpu::Surface::get_current_texture: it has exactly the four
/// variants mirrored by `SurfaceFailure`, and this maps each onto
/// its mirror, moving nothing else.
#[verifier::external_body]
pub(crate) fn surface_failure_of(e: &wgpu::SurfaceError) -> SurfaceFailure {
    match e {
        wgpu::SurfaceError::Timeout => SurfaceFailure::Timeout,
        wgpu::SurfaceError::Outdated => SurfaceFailure::Outdated,
        wgpu::SurfaceError::Lost => SurfaceFailure::Lost,
        wgpu::SurfaceError::OutOfMemory => SurfaceFailure::OutOfMemory,
    }
}

} // verus!
