//! The five compute stages, their fixed buffer-binding schema, and the
//! command sequence one frame records: dispatches in dependency order
//! with a barrier at every read-after-write boundary.

use vstd::prelude::*;
use crate::Config;

verus! {

/// One compute dispatch with a fixed input/output binding schema.
#[derive(Clone, Copy, PartialEq, Eq, Structural, Debug)]
pub enum StageKind {
    CameraRayGenerator,
    VertexSkinner,
    AabbCalculator,
    RayTriangleIntersector,
    Accumulator,
}

/// The GPU buffers of the store that stages read and write.  The
/// swapchain image the Accumulator writes is not a store buffer and is
/// tracked separately by the engine.
#[derive(Clone, Copy, PartialEq, Eq, Structural, Debug)]
pub enum BufferId {
    Camera,
    Ray,
    VertexIn,
    VertexOut,
    Indices,
    Intersection,
    Aabb,
}

/// The read half of the binding schema, exactly as the shaders bind it.
pub open spec fn stage_reads(s: StageKind, b: BufferId) -> bool {
    match s {
        StageKind::CameraRayGenerator => b is Camera,
        StageKind::VertexSkinner => b is Camera || b is VertexIn,
        StageKind::AabbCalculator => b is VertexOut,
        StageKind::RayTriangleIntersector =>
            b is Ray || b is VertexOut || b is Indices || b is Aabb,
        StageKind::Accumulator => b is Intersection,
    }
}

/// The write half of the binding schema.  The Accumulator writes the
/// swapchain image, not a store buffer.
pub open spec fn stage_writes(s: StageKind) -> Option<BufferId> {
    match s {
        StageKind::CameraRayGenerator => Some(BufferId::Ray),
        StageKind::VertexSkinner => Some(BufferId::VertexOut),
        StageKind::AabbCalculator => Some(BufferId::Aabb),
        StageKind::RayTriangleIntersector => Some(BufferId::Intersection),
        StageKind::Accumulator => None,
    }
}

/// A dispatch extent in workgroups.
#[derive(Clone, Copy, PartialEq, Eq, Structural, Debug)]
pub struct Dims {
    pub x: u32,
    pub y: u32,
    pub z: u32,
}

/// How large each stage's dispatch is: the tiled stages cover the image
/// grid, the skinner runs once per vertex, and the bound reduction is a
/// single global workgroup.
pub open spec fn spec_dispatch_dims(s: StageKind, cfg: Config, vertex_count: u32) -> Dims {
    match s {
        StageKind::VertexSkinner => Dims { x: vertex_count, y: 1, z: 1 },
        StageKind::AabbCalculator => Dims { x: 1, y: 1, z: 1 },
        _ => Dims {
            x: (cfg.width / cfg.workgroup) as u32,
            y: (cfg.height / cfg.workgroup) as u32,
            z: 1,
        },
    }
}

pub fn dispatch_dims(s: StageKind, cfg: &Config, vertex_count: u32) -> (d: Dims)
    requires
        cfg.wf(),
    ensures
        d == spec_dispatch_dims(s, *cfg, vertex_count),
{
    match s {
        StageKind::VertexSkinner => Dims { x: vertex_count, y: 1, z: 1 },
        StageKind::AabbCalculator => Dims { x: 1, y: 1, z: 1 },
        _ => Dims { x: cfg.width / cfg.workgroup, y: cfg.height / cfg.workgroup, z: 1 },
    }
}

/// One recorded command: a stage dispatch, or a write-to-read barrier
/// making a buffer's writes visible to later dispatches.
#[derive(Clone, Copy, PartialEq, Eq, Structural, Debug)]
pub enum Cmd {
    Dispatch { stage: StageKind, dims: Dims },
    Barrier { buffer: BufferId },
}

pub open spec fn cmd_writes(c: Cmd) -> Option<BufferId> {
    match c {
        Cmd::Dispatch { stage, .. } => stage_writes(stage),
        Cmd::Barrier { .. } => None,
    }
}

pub open spec fn cmd_reads(c: Cmd, b: BufferId) -> bool {
    match c {
        Cmd::Dispatch { stage, .. } => stage_reads(stage, b),
        Cmd::Barrier { .. } => false,
    }
}

pub open spec fn is_barrier_on(c: Cmd, b: BufferId) -> bool {
    match c {
        Cmd::Barrier { buffer } => buffer == b,
        Cmd::Dispatch { .. } => false,
    }
}

/// No data race between dispatches: wherever an earlier dispatch writes
/// a buffer that a later dispatch reads, a barrier on that buffer
/// stands in between.
pub open spec fn hazard_free(cs: Seq<Cmd>) -> bool {
    forall|i: int, j: int|
        0 <= i < j < cs.len() && #[trigger] cmd_writes(cs[i]) is Some
            && #[trigger] cmd_reads(cs[j], cmd_writes(cs[i]).unwrap())
            ==> exists|k: int| i < k < j && is_barrier_on(#[trigger] cs[k], cmd_writes(cs[i]).unwrap())
}

/// The buffers whose contents exist before the frame's first dispatch:
/// the camera upload of the current frame and the immutable mesh data
/// staged in at setup.
pub open spec fn preinitialized(b: BufferId) -> bool {
    b is Camera || b is VertexIn || b is Indices
}

/// No uninitialized read: every buffer a dispatch reads was either
/// uploaded before the frame or written by an earlier dispatch of the
/// same frame.
pub open spec fn reads_initialized(cs: Seq<Cmd>) -> bool {
    forall|j: int, b: BufferId|
        0 <= j < cs.len() && #[trigger] cmd_reads(cs[j], b) ==> preinitialized(b)
            || exists|i: int| 0 <= i < j && #[trigger] cmd_writes(cs[i]) == Some(b)
}

/// The command sequence of one frame, in recording order.
pub open spec fn frame_cmds(cfg: Config, vertex_count: u32) -> Seq<Cmd> {
    seq![
        Cmd::Dispatch {
            stage: StageKind::CameraRayGenerator,
            dims: spec_dispatch_dims(StageKind::CameraRayGenerator, cfg, vertex_count),
        },
        Cmd::Dispatch {
            stage: StageKind::VertexSkinner,
            dims: spec_dispatch_dims(StageKind::VertexSkinner, cfg, vertex_count),
        },
        Cmd::Barrier { buffer: BufferId::VertexOut },
        Cmd::Barrier { buffer: BufferId::Ray },
        Cmd::Dispatch {
            stage: StageKind::AabbCalculator,
            dims: spec_dispatch_dims(StageKind::AabbCalculator, cfg, vertex_count),
        },
        Cmd::Barrier { buffer: BufferId::Aabb },
        Cmd::Dispatch {
            stage: StageKind::RayTriangleIntersector,
            dims: spec_dispatch_dims(StageKind::RayTriangleIntersector, cfg, vertex_count),
        },
        Cmd::Barrier { buffer: BufferId::Intersection },
        Cmd::Dispatch {
            stage: StageKind::Accumulator,
            dims: spec_dispatch_dims(StageKind::Accumulator, cfg, vertex_count),
        },
    ]
}

/// Records one frame's command buffer from the binding schema.
pub fn record_frame(cfg: &Config, vertex_count: u32) -> (cs: Vec<Cmd>)
    requires
        cfg.wf(),
    ensures
        cs@ == frame_cmds(*cfg, vertex_count),
{
    let mut cs: Vec<Cmd> = Vec::new();
    cs.push(Cmd::Dispatch {
        stage: StageKind::CameraRayGenerator,
        dims: dispatch_dims(StageKind::CameraRayGenerator, cfg, vertex_count),
    });
    cs.push(Cmd::Dispatch {
        stage: StageKind::VertexSkinner,
        dims: dispatch_dims(StageKind::VertexSkinner, cfg, vertex_count),
    });
    cs.push(Cmd::Barrier { buffer: BufferId::VertexOut });
    cs.push(Cmd::Barrier { buffer: BufferId::Ray });
    cs.push(Cmd::Dispatch {
        stage: StageKind::AabbCalculator,
        dims: dispatch_dims(StageKind::AabbCalculator, cfg, vertex_count),
    });
    cs.push(Cmd::Barrier { buffer: BufferId::Aabb });
    cs.push(Cmd::Dispatch {
        stage: StageKind::RayTriangleIntersector,
        dims: dispatch_dims(StageKind::RayTriangleIntersector, cfg, vertex_count),
    });
    cs.push(Cmd::Barrier { buffer: BufferId::Intersection });
    cs.push(Cmd::Dispatch {
        stage: StageKind::Accumulator,
        dims: dispatch_dims(StageKind::Accumulator, cfg, vertex_count),
    });
    proof {
        assert(cs@ =~= frame_cmds(*cfg, vertex_count));
    }
    cs
}

/// The recorded frame has a barrier at every read-after-write boundary:
/// no two dispatches race on any buffer.
pub proof fn lemma_frame_hazard_free(cfg: Config, vertex_count: u32)
    ensures
        hazard_free(frame_cmds(cfg, vertex_count)),
{
    let cs = frame_cmds(cfg, vertex_count);
    assert forall|i: int, j: int|
        0 <= i < j < cs.len() && #[trigger] cmd_writes(cs[i]) is Some
            && #[trigger] cmd_reads(cs[j], cmd_writes(cs[i]).unwrap())
        implies exists|k: int| i < k < j && is_barrier_on(#[trigger] cs[k], cmd_writes(cs[i]).unwrap()) by {
        let b = cmd_writes(cs[i]).unwrap();
        if b is Ray {
            assert(i == 0 && j == 6);
            assert(is_barrier_on(cs[3], b));
        } else if b is VertexOut {
            assert(i == 1 && (j == 4 || j == 6));
            assert(is_barrier_on(cs[2], b));
        } else if b is Aabb {
            assert(i == 4 && j == 6);
            assert(is_barrier_on(cs[5], b));
        } else {
            assert(b is Intersection);
            assert(i == 6 && j == 8);
            assert(is_barrier_on(cs[7], b));
        }
    }
}

/// No dispatch of the recorded frame reads a buffer that is neither
/// uploaded before the frame nor written by an earlier dispatch.
pub proof fn lemma_frame_reads_initialized(cfg: Config, vertex_count: u32)
    ensures
        reads_initialized(frame_cmds(cfg, vertex_count)),
{
    let cs = frame_cmds(cfg, vertex_count);
    assert forall|j: int, b: BufferId|
        0 <= j < cs.len() && #[trigger] cmd_reads(cs[j], b)
        implies preinitialized(b)
            || exists|i: int| 0 <= i < j && #[trigger] cmd_writes(cs[i]) == Some(b) by {
        if !preinitialized(b) {
            if b is Ray {
                assert(cmd_writes(cs[0]) == Some(b));
            } else if b is VertexOut {
                assert(cmd_writes(cs[1]) == Some(b));
            } else if b is Aabb {
                assert(cmd_writes(cs[4]) == Some(b));
            } else {
                assert(b is Intersection);
                assert(cmd_writes(cs[6]) == Some(b));
            }
        }
    }
}

} // verus!
