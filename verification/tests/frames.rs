use pathtracer::engine::{
    AcquireOutcome, FenceWait, FrameEvents, Pathtracer, RenderError, SceneData,
};
use pathtracer::resources::MemoryType;
use pathtracer::Config;

fn both_kinds() -> Vec<MemoryType> {
    vec![
        MemoryType { host_visible: true, device_local: false },
        MemoryType { host_visible: false, device_local: true },
    ]
}

fn quad_scene() -> SceneData {
    // A two-triangle quad: four vertices of four words each, six
    // triangle indices.
    SceneData {
        camera: vec![0, 0, 0, 0],
        vertices: vec![
            0, 0, 0, 1, //
            10, 0, 0, 1, //
            10, 10, 0, 1, //
            0, 10, 0, 1,
        ],
        indices: vec![0, 1, 2, 2, 3, 0],
    }
}

fn quad_config() -> Config {
    Config { width: 256, height: 256, workgroup: 16, frames_in_flight: 2 }
}

fn quad_engine() -> Pathtracer {
    Pathtracer::new(quad_config(), both_kinds(), 3, quad_scene()).unwrap()
}

fn ok_events(index: usize) -> FrameEvents {
    FrameEvents { acquire: AcquireOutcome::Image { index }, fence_wait: FenceWait::Signaled }
}

#[test]
fn construction_uploads_mesh_through_staging() {
    let p = quad_engine();
    assert_eq!(p.frame, 0);
    assert_eq!(p.store.read_back(p.vertex_in_buf).unwrap(), quad_scene().vertices);
    assert_eq!(p.store.read_back(p.index_buf).unwrap(), quad_scene().indices);
    assert_eq!(p.store.read_back(p.camera_buf).unwrap(), quad_scene().camera);
}

#[test]
fn construction_fails_without_device_local_memory() {
    let mts = vec![MemoryType { host_visible: true, device_local: false }];
    let r = Pathtracer::new(quad_config(), mts, 3, quad_scene());
    assert!(r.is_err());
}

#[test]
fn construction_fails_without_host_visible_memory() {
    let mts = vec![MemoryType { host_visible: false, device_local: true }];
    let r = Pathtracer::new(quad_config(), mts, 3, quad_scene());
    assert!(r.is_err());
}

#[test]
fn three_frames_advance_the_counter_to_three() {
    // The quad scenario: two frames in flight, workgroup 16, a
    // 256 by 256 image, three frame ticks.
    let mut p = quad_engine();
    let camera = vec![1, 2, 3, 4];
    for n in 0..3u64 {
        let r = p.render(&camera, ok_events((n % 3) as usize));
        assert_eq!(r, Ok(()));
    }
    assert_eq!(p.frame, 3);
    assert_eq!(p.presented, vec![0, 1, 2]);
    assert!(p.pending.len() <= 2);
}

#[test]
fn submission_order_matches_frame_order() {
    let mut p = quad_engine();
    let camera = vec![1, 2, 3, 4];
    for _ in 0..3 {
        p.render(&camera, ok_events(0)).unwrap();
    }
    assert_eq!(p.submitted, vec![0, 1, 2]);
}

#[test]
fn no_slot_is_pending_twice() {
    let mut p = quad_engine();
    let camera = vec![1, 2, 3, 4];
    for n in 0..3usize {
        p.render(&camera, ok_events(n)).unwrap();
        for a in 0..p.pending.len() {
            for b in (a + 1)..p.pending.len() {
                assert_ne!(p.pending[a].slot, p.pending[b].slot);
            }
        }
    }
}

#[test]
fn recording_waits_for_the_slot_fence() {
    let mut p = quad_engine();
    let camera = vec![1, 2, 3, 4];
    p.render(&camera, ok_events(0)).unwrap();
    // Frame zero's submission still occupies slot zero.
    assert!(!p.slot_fence_signaled(0));
    assert!(p.slot_fence_signaled(1));
    p.render(&camera, ok_events(1)).unwrap();
    // Frame two reuses slot zero, so its fence is waited first: after
    // the third tick slot zero holds only frame two's submission.
    p.render(&camera, ok_events(2)).unwrap();
    assert_eq!(p.pending.iter().filter(|s| s.slot == 0).count(), 1);
    assert_eq!(p.pending.iter().filter(|s| s.frame_no == 0).count(), 0);
}

#[test]
fn out_of_date_acquire_propagates_without_advancing() {
    let mut p = quad_engine();
    let camera = vec![1, 2, 3, 4];
    let events =
        FrameEvents { acquire: AcquireOutcome::OutOfDate, fence_wait: FenceWait::Signaled };
    let r = p.render(&camera, events);
    assert_eq!(r, Err(RenderError::SwapchainOutOfDate));
    assert_eq!(p.frame, 0);
    assert!(p.submitted.is_empty());
    assert!(p.presented.is_empty());
}

#[test]
fn lost_surface_propagates_without_advancing() {
    let mut p = quad_engine();
    let camera = vec![1, 2, 3, 4];
    let events = FrameEvents { acquire: AcquireOutcome::Lost, fence_wait: FenceWait::Signaled };
    assert_eq!(p.render(&camera, events), Err(RenderError::SurfaceLost));
    assert_eq!(p.frame, 0);
}

#[test]
fn fence_timeout_is_device_lost() {
    let mut p = quad_engine();
    let camera = vec![1, 2, 3, 4];
    let events = FrameEvents {
        acquire: AcquireOutcome::Image { index: 0 },
        fence_wait: FenceWait::TimedOut,
    };
    assert_eq!(p.render(&camera, events), Err(RenderError::DeviceLost));
    assert_eq!(p.frame, 0);
    assert!(p.submitted.is_empty());
}

#[test]
fn acquire_semaphores_rotate_at_the_image_index() {
    let mut p = quad_engine();
    let free_before = p.free_acquire_semaphore;
    let stored_before = p.image_acquire_semaphores[1];
    let camera = vec![1, 2, 3, 4];
    p.render(&camera, ok_events(1)).unwrap();
    assert_eq!(p.image_acquire_semaphores[1], free_before);
    assert_eq!(p.free_acquire_semaphore, stored_before);
    assert_eq!(p.pending[0].wait_semaphore, free_before);
}

#[test]
fn identical_camera_frames_give_identical_intersections() {
    let mut p = quad_engine();
    let camera = vec![5, 6, 7, 8];
    p.render(&camera, ok_events(0)).unwrap();
    p.wait_idle();
    let first = p.store.read_back(p.intersection_buf).unwrap();
    p.render(&camera, ok_events(1)).unwrap();
    p.wait_idle();
    let second = p.store.read_back(p.intersection_buf).unwrap();
    assert_eq!(first, second);
    assert_eq!(first.len(), 256 * 256);
}

#[test]
fn changed_camera_changes_the_rays() {
    let mut p = quad_engine();
    p.render(&vec![5, 6, 7, 8], ok_events(0)).unwrap();
    p.wait_idle();
    let first = p.store.read_back(p.ray_buf).unwrap();
    p.render(&vec![5, 6, 7, 9], ok_events(1)).unwrap();
    p.wait_idle();
    let second = p.store.read_back(p.ray_buf).unwrap();
    assert_ne!(first, second);
}

#[test]
fn render_updates_the_camera_buffer() {
    let mut p = quad_engine();
    let camera = vec![9, 9, 9, 9];
    p.render(&camera, ok_events(0)).unwrap();
    assert_eq!(p.store.read_back(p.camera_buf).unwrap(), camera);
}

#[test]
fn presented_image_holds_the_accumulated_frame() {
    let mut p = quad_engine();
    let camera = vec![1, 2, 3, 4];
    p.render(&camera, ok_events(2)).unwrap();
    p.wait_idle();
    let inter = p.store.read_back(p.intersection_buf).unwrap();
    assert_eq!(p.images[2], inter);
}
