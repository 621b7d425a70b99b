//! The fixed-function settings of the render pipelines: which faces are
//! culled, whether depth is written, and which bind groups each pipeline
//! binds.
use vstd::prelude::*;

verus! {

/// A face of a triangle, by its winding.
#[derive(Debug, Copy, Clone, PartialEq, Eq, Hash)]
pub enum Face {
    Front,
    Back,
}

/// The settings of a pipeline that do not depend on the device.
#[derive(Debug, Copy, Clone, PartialEq, Eq)]
pub struct PipelineFlags {
    pub cull_mode: Option<Face>,
    pub depth_write_enabled: bool,
}

/// The single pipeline of the 2D renderer.
#[derive(Debug, Copy, Clone, PartialEq, Eq, Hash)]
pub struct RenderType2d;

impl RenderType2d {
    /// Every 2D pipeline: the one.
    pub fn entries() -> (r: Vec<RenderType2d>)
        ensures
            r@ == seq![RenderType2d],
    {
        let r = vec![RenderType2d];
        assert(r@ =~= seq![RenderType2d]);
        r
    }

    /// Flat sprites are drawn with back faces culled and without writing
    /// depth.
    pub fn pipeline_flags(&self) -> (r: PipelineFlags)
        ensures
            r == (PipelineFlags { cull_mode: Some(Face::Back), depth_write_enabled: false }),
    {
        PipelineFlags { cull_mode: Some(Face::Back), depth_write_enabled: false }
    }

    /// The camera and texture bind groups are both bound.
    pub fn bind_groups(&self) -> (r: [bool; 2])
        ensures
            r[0] && r[1],
    {
        [true, true]
    }
}

/// The pipelines of the 3D renderer.
#[derive(Debug, Copy, Clone, PartialEq, Eq, Hash)]
pub enum RenderType3d {
    Terrain,
    Sky,
}

/// Terrain is seen from outside, so its front faces are culled and it writes
/// depth; the sky is seen from inside, so its back faces are culled and it
/// writes no depth.
pub open spec fn spec_flags_3d(r: RenderType3d) -> PipelineFlags {
    match r {
        RenderType3d::Terrain => PipelineFlags { cull_mode: Some(Face::Front), depth_write_enabled: true },
        RenderType3d::Sky => PipelineFlags { cull_mode: Some(Face::Back), depth_write_enabled: false },
    }
}

impl RenderType3d {
    /// Every 3D pipeline, terrain first.
    pub fn entries() -> (r: Vec<RenderType3d>)
        ensures
            r@ == seq![RenderType3d::Terrain, RenderType3d::Sky],
    {
        let r = vec![RenderType3d::Terrain, RenderType3d::Sky];
        assert(r@ =~= seq![RenderType3d::Terrain, RenderType3d::Sky]);
        r
    }

    /// The culling and depth settings of this pipeline.
    pub fn pipeline_flags(&self) -> (r: PipelineFlags)
        ensures
            r == spec_flags_3d(*self),
    {
        PipelineFlags {
            cull_mode: Some(
                match self {
                    RenderType3d::Terrain => Face::Front,
                    RenderType3d::Sky => Face::Back,
                },
            ),
            depth_write_enabled: match self {
                RenderType3d::Terrain => true,
                RenderType3d::Sky => false,
            },
        }
    }

    /// The camera, world and texture bind groups are all bound.
    pub fn bind_groups(&self) -> (r: [bool; 3])
        ensures
            r[0] && r[1] && r[2],
    {
        [true, true, true]
    }
}

/// Exactly one 3D pipeline writes depth, and the two cull opposite faces.
pub proof fn lemma_one_depth_writer()
    ensures
        spec_flags_3d(RenderType3d::Terrain).depth_write_enabled,
        !spec_flags_3d(RenderType3d::Sky).depth_write_enabled,
        spec_flags_3d(RenderType3d::Terrain).cull_mode != spec_flags_3d(RenderType3d::Sky).cull_mode,
{
}

} // verus!
