use vstd::prelude::*;
use crate::camera::{Camera, CameraUniform};
use crate::instances::{build_instances, instance_at, Instance, GRID_SIDE};
use crate::model::{
    accepted_model, rejection_reported, sources_valid, validate_model, LoadError, MaterialSource,
    MeshSource, ModelSpec,
};
use crate::surface::{surface_failure_of, SurfaceFailure};

verus! {

/// Where a frame stands in the render loop's cycle.
#[derive(Clone, Copy, PartialEq, Eq, Structural, Debug)]
pub enum Phase {
    /// Between frames, waiting for the next redraw request.
    Idle,
    /// The camera has been moved and its matrix staged for upload;
    /// the frame may now be drawn.
    Updated,
    /// The frame was drawn and presented; the next redraw request
    /// starts the cycle again.
    Rendered,
    /// A fatal error ended the loop; no further frame runs.
    Terminated,
}

/// How one render attempt went, with any surface error already
/// classified.
#[derive(Clone, Copy, PartialEq, Eq, Structural, Debug)]
pub enum FrameOutcome {
    /// The frame was drawn, submitted and presented.
    Presented,
    /// Acquiring the surface image failed; nothing was presented.
    Failed(SurfaceFailure),
}

/// What the application shell must do once a frame's outcome has
/// been applied. After every action but `Exit` the shell requests
/// the next redraw, keeping the loop running.
#[derive(Clone, Copy, PartialEq, Eq, Structural, Debug)]
pub enum FrameAction {
    /// The frame is on screen; carry on.
    Present,
    /// The surface was lost or outdated: the state was re-sized at
    /// the carried, previously stored, size; reconfigure the surface
    /// and depth buffer and skip this frame.
    Recover(u32, u32),
    /// A transient error: report it and carry on.
    Report,
    /// The backend ran out of memory: terminate the application.
    Exit,
}

/// One indexed, instanced draw of a frame's render pass.
#[derive(Clone, Copy, PartialEq, Eq, Structural, Debug)]
pub struct DrawCall {
    /// Which sub-mesh is drawn.
    pub mesh: usize,
    /// Which material — and so which texture bind group — it is
    /// drawn with; always in the model's material list.
    pub material: usize,
    /// How many indices the draw covers: all of the sub-mesh's.
    pub index_count: u32,
    /// How many instances it covers: the whole grid.
    pub instance_count: usize,
}

/// The renderer's state, reduced to what its rules constrain: the
/// stored surface size, the surface configuration's copy of it, the
/// depth buffer's dimensions, the camera and the staged uniform, the
/// frame cycle's phase, the count of presented frames, the instance
/// grid and the accepted model. The GPU handles these values
/// describe live with the application shell.
#[derive(Clone, PartialEq, Eq, Debug)]
pub struct RenderState {
    /// Stored surface width, as of the last accepted resize.
    pub width: u32,
    /// Stored surface height, as of the last accepted resize.
    pub height: u32,
    /// Width recorded in the surface configuration.
    pub config_width: u32,
    /// Height recorded in the surface configuration.
    pub config_height: u32,
    /// Width of the depth buffer, recreated on every accepted resize.
    pub depth_width: u32,
    /// Height of the depth buffer.
    pub depth_height: u32,
    /// The camera's constrained view parameters.
    pub camera: Camera,
    /// What the GPU-side camera uniform buffer holds.
    pub uniform: CameraUniform,
    /// Where the current frame stands.
    pub phase: Phase,
    /// How many frames have been presented.
    pub presented: u64,
    /// The fixed instance grid, derived once at construction.
    pub instances: Vec<Instance>,
    /// The accepted model.
    pub model: ModelSpec,
}

/// The parts of the state a frame outcome may never touch: the
/// stored sizes, the camera, the staged uniform, the instances and
/// the model.
pub open spec fn same_scene(a: RenderState, b: RenderState) -> bool {
    &&& b.width == a.width
    &&& b.height == a.height
    &&& b.config_width == a.config_width
    &&& b.config_height == a.config_height
    &&& b.depth_width == a.depth_width
    &&& b.depth_height == a.depth_height
    &&& b.camera == a.camera
    &&& b.uniform == a.uniform
    &&& b.instances == a.instances
    &&& b.model == a.model
}

impl RenderState {
    /// The state's standing invariant: the surface size is never
    /// degenerate; the surface configuration and the depth buffer
    /// always carry exactly the stored size; the camera's aspect
    /// ratio is exactly the stored width over the stored height; the
    /// model is well formed; and the instance grid is exactly the
    /// one derived at construction.
    pub open spec fn inv(self) -> bool {
        &&& self.width > 0
        &&& self.height > 0
        &&& self.config_width == self.width
        &&& self.config_height == self.height
        &&& self.depth_width == self.width
        &&& self.depth_height == self.height
        &&& self.camera.aspect_w == self.width
        &&& self.camera.aspect_h == self.height
        &&& self.model.wf()
        &&& self.instances@.len() == GRID_SIDE * GRID_SIDE * GRID_SIDE
        &&& forall|i: int|
            0 <= i < self.instances@.len() ==> self.instances@[i] == instance_at(
                GRID_SIDE as int,
                i,
            )
    }

    /// The staged uniform reflects the camera exactly as it now
    /// stands: nothing stale will reach the next draw.
    pub open spec fn uniform_fresh(self) -> bool {
        self.uniform.derived_from == Some(self.camera)
    }

    /// Builds the renderer's state for a surface of the given size
    /// around what the external loader produced: the fixed instance
    /// grid, a camera whose aspect ratio is exactly width over
    /// height, an untouched uniform, and the model — accepted as a
    /// whole, or rejected as a whole so that no partial state exists.
    pub fn new(
        width: u32,
        height: u32,
        meshes: &Vec<MeshSource>,
        materials: &Vec<MaterialSource>,
    ) -> (r: Result<RenderState, LoadError>)
        requires
            width > 0,
            height > 0,
        ensures
            r is Ok <==> sources_valid(meshes@, materials@),
            r matches Ok(s) ==> {
                &&& s.inv()
                &&& s.width == width
                &&& s.height == height
                &&& s.camera == (Camera { aspect_w: width, aspect_h: height, moves: 0 })
                &&& s.uniform.derived_from is None
                &&& s.phase == Phase::Idle
                &&& s.presented == 0
                &&& accepted_model(meshes@, materials@, s.model)
            },
            r matches Err(e) ==> rejection_reported(meshes@, materials@, e),
    {
        let model = match validate_model(meshes, materials) {
            Ok(m) => m,
            Err(e) => {
                return Err(e);
            },
        };
        let camera = Camera::new(width, height);
        let uniform = CameraUniform::new();
        let instances = build_instances(GRID_SIDE);
        Ok(
            RenderState {
                width,
                height,
                config_width: width,
                config_height: height,
                depth_width: width,
                depth_height: height,
                camera,
                uniform,
                phase: Phase::Idle,
                presented: 0,
                instances,
                model,
            },
        )
    }

    /// Applies a window resize. A degenerate size — either side zero
    /// — changes nothing at all; any other size becomes the stored
    /// size, is written into the surface configuration, becomes the
    /// camera's exact aspect ratio, and sizes the recreated depth
    /// buffer. Safe to repeat, and the designated recovery path for
    /// a lost surface.
    pub fn resize(&mut self, new_width: u32, new_height: u32)
        requires
            old(self).inv(),
        ensures
            final(self).inv(),
            new_width == 0 || new_height == 0 ==> *final(self) == *old(self),
            new_width > 0 && new_height > 0 ==> {
                &&& final(self).width == new_width
                &&& final(self).height == new_height
                &&& final(self).config_width == new_width
                &&& final(self).config_height == new_height
                &&& final(self).depth_width == new_width
                &&& final(self).depth_height == new_height
                &&& final(self).camera.aspect_w == new_width
                &&& final(self).camera.aspect_h == new_height
                &&& final(self).camera.moves == old(self).camera.moves
                &&& final(self).uniform == old(self).uniform
                &&& final(self).phase == old(self).phase
                &&& final(self).presented == old(self).presented
                &&& final(self).instances == old(self).instances
                &&& final(self).model == old(self).model
            },
    {
        if new_width > 0 && new_height > 0 {
            self.config_width = new_width;
            self.config_height = new_height;
            self.width = new_width;
            self.height = new_height;
            self.camera.aspect_w = new_width;
            self.camera.aspect_h = new_height;
            self.depth_width = new_width;
            self.depth_height = new_height;
        }
    }

    /// One CPU-side frame update: the controller's pending motion is
    /// applied to the camera as one step, and the view-projection
    /// matrix derived from the camera as it now stands is staged for
    /// the GPU buffer — so the next draw can never read a stale
    /// matrix. Nothing else moves.
    pub fn update(&mut self)
        requires
            old(self).inv(),
            old(self).phase == Phase::Idle,
            old(self).camera.moves < u64::MAX,
        ensures
            final(self).inv(),
            final(self).phase == Phase::Updated,
            final(self).camera.moves == old(self).camera.moves + 1,
            final(self).camera.aspect_w == old(self).camera.aspect_w,
            final(self).camera.aspect_h == old(self).camera.aspect_h,
            final(self).uniform_fresh(),
            final(self).width == old(self).width,
            final(self).height == old(self).height,
            final(self).config_width == old(self).config_width,
            final(self).config_height == old(self).config_height,
            final(self).depth_width == old(self).depth_width,
            final(self).depth_height == old(self).depth_height,
            final(self).presented == old(self).presented,
            final(self).instances == old(self).instances,
            final(self).model == old(self).model,
    {
        self.camera.moves = self.camera.moves + 1;
        self.uniform = CameraUniform { derived_from: Some(self.camera) };
        self.phase = Phase::Updated;
    }

    /// Applies the outcome of one render attempt. A presented frame
    /// advances the presented count; a lost or outdated surface
    /// re-runs the resize at the stored size and skips the frame; an
    /// out-of-memory report terminates the cycle; a timeout is
    /// reported and the loop carries on. In every case the scene —
    /// sizes, camera, uniform, instances, model — is untouched.
    pub fn finish_frame(&mut self, outcome: FrameOutcome) -> (action: FrameAction)
        requires
            old(self).inv(),
            old(self).phase == Phase::Updated,
            old(self).uniform_fresh(),
            old(self).presented < u64::MAX,
        ensures
            final(self).inv(),
            same_scene(*old(self), *final(self)),
            outcome == FrameOutcome::Presented ==> {
                &&& final(self).presented == old(self).presented + 1
                &&& final(self).phase == Phase::Rendered
                &&& action == FrameAction::Present
            },
            outcome == FrameOutcome::Failed(SurfaceFailure::Lost) || outcome
                == FrameOutcome::Failed(SurfaceFailure::Outdated) ==> {
                &&& final(self).presented == old(self).presented
                &&& final(self).phase == Phase::Idle
                &&& action == FrameAction::Recover(old(self).width, old(self).height)
            },
            outcome == FrameOutcome::Failed(SurfaceFailure::OutOfMemory) ==> {
                &&& final(self).presented == old(self).presented
                &&& final(self).phase == Phase::Terminated
                &&& action == FrameAction::Exit
            },
            outcome == FrameOutcome::Failed(SurfaceFailure::Timeout) ==> {
                &&& final(self).presented == old(self).presented
                &&& final(self).phase == Phase::Idle
                &&& action == FrameAction::Report
            },
    {
        match outcome {
            FrameOutcome::Presented => {
                self.presented = self.presented + 1;
                self.phase = Phase::Rendered;
                FrameAction::Present
            },
            FrameOutcome::Failed(SurfaceFailure::Lost) | FrameOutcome::Failed(
                SurfaceFailure::Outdated,
            ) => {
                let w = self.width;
                let h = self.height;
                self.resize(w, h);
                self.phase = Phase::Idle;
                FrameAction::Recover(w, h)
            },
            FrameOutcome::Failed(SurfaceFailure::OutOfMemory) => {
                self.phase = Phase::Terminated;
                FrameAction::Exit
            },
            FrameOutcome::Failed(SurfaceFailure::Timeout) => {
                self.phase = Phase::Idle;
                FrameAction::Report
            },
        }
    }

    /// Applies the result of one render attempt as the GPU surface
    /// reported it, classifying the outside error first. Whatever
    /// came back: the scene is untouched, the presented count
    /// advances exactly on success, and only a terminated state
    /// demands an exit.
    pub fn handle_render_result(&mut self, r: Result<(), wgpu::SurfaceError>) -> (action:
        FrameAction)
        requires
            old(self).inv(),
            old(self).phase == Phase::Updated,
            old(self).uniform_fresh(),
            old(self).presented < u64::MAX,
        ensures
            final(self).inv(),
            same_scene(*old(self), *final(self)),
            r is Ok ==> {
                &&& final(self).presented == old(self).presented + 1
                &&& final(self).phase == Phase::Rendered
                &&& action == FrameAction::Present
            },
            r is Err ==> final(self).presented == old(self).presented,
            r is Err ==> final(self).phase == Phase::Idle || final(self).phase
                == Phase::Terminated,
            action == FrameAction::Exit <==> final(self).phase == Phase::Terminated,
            action matches FrameAction::Recover(w, h) ==> w == old(self).width && h == old(
                self,
            ).height,
    {
        match r {
            Ok(()) => self.finish_frame(FrameOutcome::Presented),
            Err(e) => {
                let failure = surface_failure_of(&e);
                self.finish_frame(FrameOutcome::Failed(failure))
            },
        }
    }

    /// The command sequence of one successful frame's single render
    /// pass: one indexed, instanced draw per sub-mesh, in the model's
    /// order, each bound to its own material and covering every index
    /// of the mesh and the whole instance grid.
    pub fn draw_plan(&self) -> (calls: Vec<DrawCall>)
        requires
            self.inv(),
        ensures
            calls@.len() == self.model.meshes@.len(),
            forall|i: int|
                0 <= i < calls@.len() ==> calls@[i] == (DrawCall {
                    mesh: i as usize,
                    material: self.model.meshes@[i].material,
                    index_count: self.model.meshes@[i].index_count,
                    instance_count: self.instances@.len() as usize,
                }),
            forall|i: int|
                0 <= i < calls@.len() ==> (#[trigger] calls@[i]).material
                    < self.model.material_count,
    {
        let n_instances = self.instances.len();
        let mut calls: Vec<DrawCall> = Vec::new();
        let mut i: usize = 0;
        while i < self.model.meshes.len()
            invariant
                self.inv(),
                i <= self.model.meshes@.len(),
                calls@.len() == i,
                n_instances == self.instances@.len(),
                forall|j: int|
                    0 <= j < i ==> calls@[j] == (DrawCall {
                        mesh: j as usize,
                        material: self.model.meshes@[j].material,
                        index_count: self.model.meshes@[j].index_count,
                        instance_count: self.instances@.len() as usize,
                    }),
            decreases self.model.meshes@.len() - i,
        {
            calls.push(
                DrawCall {
                    mesh: i,
                    material: self.model.meshes[i].material,
                    index_count: self.model.meshes[i].index_count,
                    instance_count: n_instances,
                },
            );
            i = i + 1;
        }
        calls
    }

    /// The redraw request that closes a presented frame's cycle.
    pub fn next_frame(&mut self)
        requires
            old(self).inv(),
            old(self).phase == Phase::Rendered,
        ensures
            final(self).inv(),
            same_scene(*old(self), *final(self)),
            final(self).presented == old(self).presented,
            final(self).phase == Phase::Idle,
    {
        self.phase = Phase::Idle;
    }
}

/// One motion step never leaves a stale matrix behind: a state whose
/// uniform was staged from its own camera, one step past another
/// state's camera, cannot be holding the matrix of that earlier
/// camera.
pub proof fn lemma_uniform_not_stale(pre: RenderState, post: RenderState)
    requires
        post.uniform_fresh(),
        post.camera.moves == pre.camera.moves + 1,
    ensures
        post.uniform.derived_from != Some(pre.camera),
{
}

} // verus!
