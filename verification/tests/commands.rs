use pathtracer::stages::{dispatch_dims, record_frame, BufferId, Cmd, Dims, StageKind};
use pathtracer::Config;

fn quad_config() -> Config {
    Config { width: 256, height: 256, workgroup: 16, frames_in_flight: 2 }
}

#[test]
fn tiled_stages_cover_the_image_grid() {
    let d = dispatch_dims(StageKind::CameraRayGenerator, &quad_config(), 4);
    assert_eq!(d, Dims { x: 16, y: 16, z: 1 });
    let d = dispatch_dims(StageKind::RayTriangleIntersector, &quad_config(), 4);
    assert_eq!(d, Dims { x: 16, y: 16, z: 1 });
    let d = dispatch_dims(StageKind::Accumulator, &quad_config(), 4);
    assert_eq!(d, Dims { x: 16, y: 16, z: 1 });
}

#[test]
fn skinner_dispatches_once_per_vertex() {
    let d = dispatch_dims(StageKind::VertexSkinner, &quad_config(), 4);
    assert_eq!(d, Dims { x: 4, y: 1, z: 1 });
}

#[test]
fn bound_reduction_is_a_single_workgroup() {
    let d = dispatch_dims(StageKind::AabbCalculator, &quad_config(), 4);
    assert_eq!(d, Dims { x: 1, y: 1, z: 1 });
}

#[test]
fn recorded_frame_interleaves_barriers_with_dispatches() {
    let cfg = quad_config();
    let cs = record_frame(&cfg, 4);
    let tile = Dims { x: 16, y: 16, z: 1 };
    let expected = vec![
        Cmd::Dispatch { stage: StageKind::CameraRayGenerator, dims: tile },
        Cmd::Dispatch { stage: StageKind::VertexSkinner, dims: Dims { x: 4, y: 1, z: 1 } },
        Cmd::Barrier { buffer: BufferId::VertexOut },
        Cmd::Barrier { buffer: BufferId::Ray },
        Cmd::Dispatch { stage: StageKind::AabbCalculator, dims: Dims { x: 1, y: 1, z: 1 } },
        Cmd::Barrier { buffer: BufferId::Aabb },
        Cmd::Dispatch { stage: StageKind::RayTriangleIntersector, dims: tile },
        Cmd::Barrier { buffer: BufferId::Intersection },
        Cmd::Dispatch { stage: StageKind::Accumulator, dims: tile },
    ];
    assert_eq!(cs, expected);
}
