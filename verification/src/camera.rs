use vstd::prelude::*;

verus! {

/// Camera view parameters, reduced to what the renderer's rules
/// constrain: the projection aspect ratio, kept as the exact
/// width/height pair it was computed from so that "aspect equals
/// width divided by height" needs no rounding, and a count of the
/// controller motion steps applied to the eye so far.
#[derive(Clone, Copy, PartialEq, Eq, Structural, Debug)]
pub struct Camera {
    /// Surface width the aspect ratio was last computed from.
    pub aspect_w: u32,
    /// Surface height the aspect ratio was last computed from.
    pub aspect_h: u32,
    /// How many controller motion steps have been applied.
    pub moves: u64,
}

impl Camera {
    /// Whether the aspect ratio is well defined.
    pub open spec fn wf(self) -> bool {
        self.aspect_w > 0 && self.aspect_h > 0
    }

    /// A camera for a fresh surface of the given size, before any
    /// controller motion.
    pub fn new(width: u32, height: u32) -> (c: Camera)
        requires
            width > 0,
            height > 0,
        ensures
            c == (Camera { aspect_w: width, aspect_h: height, moves: 0 }),
    {
        Camera { aspect_w: width, aspect_h: height, moves: 0 }
    }
}

/// What the GPU-resident camera uniform buffer holds: the
/// view-projection matrix derived from some camera state, or the
/// identity matrix the buffer is created with before the first
/// update writes to it.
#[derive(Clone, Copy, PartialEq, Eq, Debug)]
pub struct CameraUniform {
    /// The camera state the buffered matrix was derived from; `None`
    /// while the buffer still holds its initial identity matrix.
    pub derived_from: Option<Camera>,
}

impl CameraUniform {
    /// The uniform as first uploaded, before any update.
    pub fn new() -> (u: CameraUniform)
        ensures
            u.derived_from is None,
    {
        CameraUniform { derived_from: None }
    }
}

} // verus!
