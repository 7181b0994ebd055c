//! The Frame Engine: per-frame orchestration of the five stages over
//! the Resource Store, with the frames-in-flight fence protocol, the
//! acquire-semaphore indirection keyed by swapchain image index, and
//! in-order queue submission.
//!
//! The GPU and the swapchain are external collaborators.  Their
//! answers (the acquired image index or its failure, the fence wait's
//! outcome) enter `render` as events; the driving shell performs the
//! real calls and hands the outcomes in.  The GPU timeline itself is
//! modelled: a submission's dispatches take effect as the modelled
//! stage functions, and a slot's fence counts as signalled exactly
//! when no submission of that slot is still pending on the queue.

use vstd::prelude::*;
use vstd::arithmetic::div_mod::lemma_add_mod_noop;
use vstd::arithmetic::div_mod::lemma_mod_sub_multiples_vanish;
use vstd::arithmetic::div_mod::lemma_small_mod;
use vstd::arithmetic::div_mod::lemma_mod_bound;
use crate::Config;
use crate::resources::Store;
use crate::resources::BufferDesc;
use crate::resources::MemoryKind;
use crate::resources::MemoryType;
use crate::resources::StoreError;
use crate::resources::Usage;
use crate::resources::has_compatible;
use crate::resources::lemma_splice_round_trip;
use crate::stages::Cmd;
use crate::stages::frame_cmds;
use crate::stages::record_frame;
use crate::gpu::spec_gen_rays;
use crate::gpu::spec_skin;
use crate::gpu::spec_aabb;
use crate::gpu::frame_intersections;
use crate::gpu::gen_rays;
use crate::gpu::skin;
use crate::gpu::aabb_reduce;
use crate::gpu::intersect;

verus! {

/// What `render` can fail with; all of these surface synchronously and
/// none is retried internally.
#[derive(Clone, Copy, PartialEq, Eq, Structural, Debug)]
pub enum RenderError {
    /// The swapchain must be rebuilt by the caller before the loop can
    /// re-enter.
    SwapchainOutOfDate,
    /// The surface is gone; recoverable only by the caller.
    SurfaceLost,
    /// A fence wait ran out: fatal at this layer.
    DeviceLost,
}

/// The swapchain's answer to the acquire call.
#[derive(Clone, Copy, PartialEq, Eq, Structural, Debug)]
pub enum AcquireOutcome {
    Image { index: usize },
    OutOfDate,
    Lost,
}

/// The outcome the device reports for the slot-fence wait.
#[derive(Clone, Copy, PartialEq, Eq, Structural, Debug)]
pub enum FenceWait {
    Signaled,
    TimedOut,
}

/// The collaborators' answers for one frame, gathered by the driving
/// shell.
#[derive(Clone, Copy, PartialEq, Eq, Structural, Debug)]
pub struct FrameEvents {
    pub acquire: AcquireOutcome,
    pub fence_wait: FenceWait,
}

/// One queue submission not yet retired by the GPU.
#[derive(Clone, Copy, PartialEq, Eq, Structural, Debug)]
pub struct PendingSubmission {
    pub frame_no: u64,
    pub slot: usize,
    pub image_index: usize,
    pub wait_semaphore: u32,
    pub signal_semaphore: u32,
}

/// Scene-derived setup inputs: camera data, rest-pose vertices (four
/// words each), and triangle indices.
pub struct SceneData {
    pub camera: Vec<u32>,
    pub vertices: Vec<u32>,
    pub indices: Vec<u32>,
}

/// The engine.  It owns the Resource Store, the per-slot
/// synchronization objects, and the modelled swapchain images, and is
/// driven one frame at a time through `render`.
pub struct Pathtracer {
    pub config: Config,
    pub store: Store,
    pub camera_buf: usize,
    pub ray_buf: usize,
    pub intersection_buf: usize,
    pub index_buf: usize,
    pub vertex_in_buf: usize,
    pub vertex_out_buf: usize,
    pub aabb_buf: usize,
    pub camera_len: usize,
    pub index_count: usize,
    pub vertex_count: usize,
    /// Monotonically increasing frame counter.
    pub frame: u64,
    /// The acquire semaphore currently associated with no in-flight
    /// image, handed to the next acquire call.
    pub free_acquire_semaphore: u32,
    /// Acquire semaphores indexed by *swapchain image index* — not by
    /// frame slot: acquisition order need not match submission order.
    pub image_acquire_semaphores: Vec<u32>,
    /// Completion semaphores indexed by frame slot.
    pub submission_complete_semaphores: Vec<u32>,
    /// Per-slot command buffer as last recorded.
    pub recorded: Vec<Vec<Cmd>>,
    /// Queue submissions the GPU has not finished, oldest first.
    pub pending: Vec<PendingSubmission>,
    /// Frame numbers in queue-submission order.
    pub submitted: Vec<u64>,
    /// Image indices in presentation order.
    pub presented: Vec<usize>,
    /// Modelled swapchain image contents, one per image.
    pub images: Vec<Vec<u32>>,
}

pub open spec fn storage_usage() -> Usage {
    Usage { storage: true, vertex: false, index: false, transfer_src: false, transfer_dst: false }
}

pub open spec fn index_usage() -> Usage {
    Usage { storage: false, vertex: false, index: true, transfer_src: false, transfer_dst: true }
}

pub open spec fn vertex_in_usage() -> Usage {
    Usage { storage: false, vertex: true, index: false, transfer_src: false, transfer_dst: true }
}

pub open spec fn vertex_out_usage() -> Usage {
    Usage { storage: false, vertex: true, index: false, transfer_src: false, transfer_dst: false }
}

impl Pathtracer {
    /// The seven buffer handles, for stating that they never collide.
    pub open spec fn handle_list(self) -> Seq<int> {
        seq![
            self.camera_buf as int,
            self.ray_buf as int,
            self.intersection_buf as int,
            self.index_buf as int,
            self.vertex_in_buf as int,
            self.vertex_out_buf as int,
            self.aabb_buf as int,
        ]
    }

    pub open spec fn desc_of(self, h: int) -> BufferDesc {
        self.store.buffers@[h].desc
    }

    /// Contents of a store buffer.
    pub open spec fn data_of(self, h: int) -> Seq<u32> {
        self.store.buffers@[h].data@
    }

    pub open spec fn fif(self) -> int {
        self.config.frames_in_flight as int
    }

    pub open spec fn pixel_words(self) -> int {
        self.config.spec_pixel_count()
    }

    /// No semaphore id is used twice across the free acquire
    /// semaphore, the image-indexed acquire semaphores, and the
    /// slot-indexed completion semaphores.
    pub open spec fn sems_distinct(self) -> bool {
        let img = self.image_acquire_semaphores@;
        let cpl = self.submission_complete_semaphores@;
        &&& forall|i: int, j: int|
            #![trigger img[i], img[j]]
            0 <= i < j < img.len() ==> img[i] != img[j]
        &&& forall|i: int, j: int|
            #![trigger cpl[i], cpl[j]]
            0 <= i < j < cpl.len() ==> cpl[i] != cpl[j]
        &&& forall|i: int, j: int|
            #![trigger img[i], cpl[j]]
            0 <= i < img.len() && 0 <= j < cpl.len() ==> img[i] != cpl[j]
        &&& forall|i: int| 0 <= i < img.len() ==> self.free_acquire_semaphore != #[trigger] img[i]
        &&& forall|j: int| 0 <= j < cpl.len() ==> self.free_acquire_semaphore != #[trigger] cpl[j]
    }

    /// The pending queue is the contiguous window of the most recent
    /// frames: submissions retire in order, every submitted frame sits
    /// in its own slot, and the queue never holds more than
    /// `frames_in_flight` entries.
    pub open spec fn pending_wf(self) -> bool {
        &&& self.pending@.len() <= self.fif()
        &&& self.pending@.len() <= self.frame
        &&& forall|k: int|
            0 <= k < self.pending@.len() ==> (#[trigger] self.pending@[k]).frame_no == self.frame
                - self.pending@.len() + k
        &&& forall|k: int|
            0 <= k < self.pending@.len() ==> (#[trigger] self.pending@[k]).slot == (self.frame
                - self.pending@.len() + k) % self.fif()
        &&& forall|k: int|
            0 <= k < self.pending@.len() ==> (#[trigger] self.pending@[k]).image_index
                < self.images@.len()
    }

    /// The engine's invariant: configuration and store well-formed,
    /// handles valid and distinct, buffer descriptors exactly as setup
    /// created them, synchronization arrays sized to their index
    /// spaces, and the queue in frame order.
    pub open spec fn wf(self) -> bool {
        &&& self.config.wf()
        &&& self.store.wf()
        &&& self.vertex_count >= 1
        &&& self.vertex_count <= u32::MAX
        &&& 4 * self.vertex_count <= usize::MAX
        &&& forall|i: int|
            0 <= i < self.handle_list().len() ==> 0 <= #[trigger] self.handle_list()[i]
                < self.store.buffers@.len()
        &&& forall|i: int, j: int|
            #![trigger self.handle_list()[i], self.handle_list()[j]]
            0 <= i < j < self.handle_list().len() ==> self.handle_list()[i]
                != self.handle_list()[j]
        &&& self.desc_of(self.camera_buf as int) == BufferDesc {
            kind: MemoryKind::HostVisible,
            usage: storage_usage(),
            len: self.camera_len,
        }
        &&& self.desc_of(self.ray_buf as int) == BufferDesc {
            kind: MemoryKind::DeviceLocal,
            usage: storage_usage(),
            len: self.pixel_words() as usize,
        }
        &&& self.desc_of(self.intersection_buf as int) == BufferDesc {
            kind: MemoryKind::DeviceLocal,
            usage: storage_usage(),
            len: self.pixel_words() as usize,
        }
        &&& self.desc_of(self.index_buf as int) == BufferDesc {
            kind: MemoryKind::DeviceLocal,
            usage: index_usage(),
            len: self.index_count,
        }
        &&& self.desc_of(self.vertex_in_buf as int) == BufferDesc {
            kind: MemoryKind::DeviceLocal,
            usage: vertex_in_usage(),
            len: (4 * self.vertex_count) as usize,
        }
        &&& self.desc_of(self.vertex_out_buf as int) == BufferDesc {
            kind: MemoryKind::DeviceLocal,
            usage: vertex_out_usage(),
            len: (4 * self.vertex_count) as usize,
        }
        &&& self.desc_of(self.aabb_buf as int) == BufferDesc {
            kind: MemoryKind::DeviceLocal,
            usage: storage_usage(),
            len: 8usize,
        }
        &&& self.images@.len() >= 1
        &&& self.image_acquire_semaphores@.len() == self.images@.len()
        &&& self.submission_complete_semaphores@.len() == self.config.frames_in_flight
        &&& self.recorded@.len() == self.config.frames_in_flight
        &&& forall|i: int|
            0 <= i < self.images@.len() ==> (#[trigger] self.images@[i])@.len()
                == self.pixel_words()
        &&& self.sems_distinct()
        &&& self.pending_wf()
        &&& self.submitted@ == Seq::<u64>::new(self.frame as nat, |i: int| i as u64)
    }

    /// The slot's completion fence is signalled exactly when the GPU
    /// holds no submission of that slot.
    pub open spec fn spec_slot_free(self, f: int) -> bool {
        forall|k: int| 0 <= k < self.pending@.len() ==> (#[trigger] self.pending@[k]).slot != f
    }

    /// Fence-status query, the observable side of the frames-in-flight
    /// protocol.
    pub fn slot_fence_signaled(&self, f: usize) -> (b: bool)
        ensures
            b == self.spec_slot_free(f as int),
    {
        let mut k: usize = 0;
        while k < self.pending.len()
            invariant
                k <= self.pending@.len(),
                forall|j: int| 0 <= j < k ==> (#[trigger] self.pending@[j]).slot != f,
            decreases self.pending@.len() - k,
        {
            if self.pending[k].slot == f {
                return false;
            }
            k += 1;
        }
        true
    }
}

impl Pathtracer {
    /// Builds the engine: allocates the seven buffers with their exact
    /// kinds, usages and sizes, stages the immutable mesh data into
    /// device-local memory through one-shot copies, and initializes
    /// the per-slot synchronization objects with every semaphore id
    /// distinct.  Fails with the allocation error exactly when the
    /// device advertises no host-visible or no device-local memory
    /// type.
    pub fn new(
        config: Config,
        memory_types: Vec<MemoryType>,
        image_count: usize,
        scene: SceneData,
    ) -> (r: Result<Pathtracer, StoreError>)
        requires
            config.wf(),
            scene.vertices@.len() % 4 == 0,
            4 <= scene.vertices@.len() <= u32::MAX,
            1 <= image_count,
            image_count + config.frames_in_flight + 1 <= u32::MAX,
        ensures
            r is Ok <==> has_compatible(memory_types@, MemoryKind::HostVisible)
                && has_compatible(memory_types@, MemoryKind::DeviceLocal),
            match r {
                Ok(p) => {
                    &&& p.wf()
                    &&& p.config == config
                    &&& p.frame == 0
                    &&& p.camera_len == scene.camera@.len()
                    &&& p.index_count == scene.indices@.len()
                    &&& p.vertex_count == scene.vertices@.len() / 4
                    &&& p.pending@.len() == 0
                    &&& p.submitted@.len() == 0
                    &&& p.presented@.len() == 0
                    &&& p.images@.len() == image_count
                    &&& p.store.memory_types == memory_types
                    &&& p.data_of(p.camera_buf as int) == scene.camera@
                    &&& p.data_of(p.vertex_in_buf as int) == scene.vertices@
                    &&& p.data_of(p.index_buf as int) == scene.indices@
                    &&& p.data_of(p.ray_buf as int) == Seq::<u32>::new(
                        p.pixel_words() as nat,
                        |i: int| 0u32,
                    )
                    &&& p.data_of(p.intersection_buf as int) == Seq::<u32>::new(
                        p.pixel_words() as nat,
                        |i: int| 0u32,
                    )
                    &&& p.data_of(p.vertex_out_buf as int) == Seq::<u32>::new(
                        scene.vertices@.len() as nat,
                        |i: int| 0u32,
                    )
                    &&& p.data_of(p.aabb_buf as int) == Seq::<u32>::new(8nat, |i: int| 0u32)
                },
                Err(e) => e == StoreError::Allocation,
            },
    {
        let SceneData { camera, vertices, indices } = scene;
        let cam_len = camera.len();
        let idx_len = indices.len();
        let vtx_words = vertices.len();
        let vc = vtx_words / 4;
        let n = config.pixel_count();

        let mut store = Store::new(memory_types);
        let storage = Usage {
            storage: true,
            vertex: false,
            index: false,
            transfer_src: false,
            transfer_dst: false,
        };

        let camera_buf = match store.create_with_data(storage, camera) {
            Ok(h) => h,
            Err(e) => {
                return Err(e);
            },
        };
        let ray_buf = match store.create_empty(MemoryKind::DeviceLocal, storage, n) {
            Ok(h) => h,
            Err(e) => {
                return Err(e);
            },
        };
        let intersection_buf = match store.create_empty(MemoryKind::DeviceLocal, storage, n) {
            Ok(h) => h,
            Err(e) => {
                proof {
                    assert(false);
                }
                return Err(e);
            },
        };
        let index_buf = match store.create_empty(
            MemoryKind::DeviceLocal,
            Usage {
                storage: false,
                vertex: false,
                index: true,
                transfer_src: false,
                transfer_dst: true,
            },
            idx_len,
        ) {
            Ok(h) => h,
            Err(e) => {
                proof {
                    assert(false);
                }
                return Err(e);
            },
        };
        let vertex_in_buf = match store.create_empty(
            MemoryKind::DeviceLocal,
            Usage {
                storage: false,
                vertex: true,
                index: false,
                transfer_src: false,
                transfer_dst: true,
            },
            vtx_words,
        ) {
            Ok(h) => h,
            Err(e) => {
                proof {
                    assert(false);
                }
                return Err(e);
            },
        };
        let vertex_out_buf = match store.create_empty(
            MemoryKind::DeviceLocal,
            Usage {
                storage: false,
                vertex: true,
                index: false,
                transfer_src: false,
                transfer_dst: false,
            },
            vtx_words,
        ) {
            Ok(h) => h,
            Err(e) => {
                proof {
                    assert(false);
                }
                return Err(e);
            },
        };
        let aabb_buf = match store.create_empty(MemoryKind::DeviceLocal, storage, 8) {
            Ok(h) => h,
            Err(e) => {
                proof {
                    assert(false);
                }
                return Err(e);
            },
        };

        // One-shot staging copies for the immutable mesh data; each
        // blocks on its dedicated fence before the staging buffer is
        // released.
        match store.upload_via_staging(&indices, index_buf) {
            Ok(_) => (),
            Err(_) => {
                proof {
                    assert(false);
                }
                return Err(StoreError::Allocation);
            },
        };
        match store.upload_via_staging(&vertices, vertex_in_buf) {
            Ok(_) => (),
            Err(_) => {
                proof {
                    assert(false);
                }
                return Err(StoreError::Allocation);
            },
        };
        proof {
            lemma_splice_round_trip(
                Seq::<u32>::new(idx_len as nat, |i: int| 0u32),
                indices@,
            );
            lemma_splice_round_trip(
                Seq::<u32>::new(vtx_words as nat, |i: int| 0u32),
                vertices@,
            );
        }

        // Semaphore ids: one acquire semaphore per swapchain image,
        // one spare for the next acquire, and one completion
        // semaphore per frame slot; all distinct by construction.
        let mut image_acquire_semaphores: Vec<u32> = Vec::new();
        let mut i: usize = 0;
        while i < image_count
            invariant
                i <= image_count <= u32::MAX,
                image_acquire_semaphores@.len() == i,
                forall|k: int|
                    0 <= k < i ==> #[trigger] image_acquire_semaphores@[k] == k as u32,
            decreases image_count - i,
        {
            image_acquire_semaphores.push(i as u32);
            i += 1;
        }
        let free_acquire_semaphore = image_count as u32;
        let mut submission_complete_semaphores: Vec<u32> = Vec::new();
        let mut j: usize = 0;
        while j < config.frames_in_flight
            invariant
                j <= config.frames_in_flight,
                image_count + config.frames_in_flight + 1 <= u32::MAX,
                submission_complete_semaphores@.len() == j,
                forall|k: int|
                    0 <= k < j ==> #[trigger] submission_complete_semaphores@[k] == (image_count
                        + 1 + k) as u32,
            decreases config.frames_in_flight - j,
        {
            submission_complete_semaphores.push((image_count + 1 + j) as u32);
            j += 1;
        }

        let mut recorded: Vec<Vec<Cmd>> = Vec::new();
        let mut s: usize = 0;
        while s < config.frames_in_flight
            invariant
                s <= config.frames_in_flight,
                recorded@.len() == s,
            decreases config.frames_in_flight - s,
        {
            recorded.push(Vec::new());
            s += 1;
        }

        let mut images: Vec<Vec<u32>> = Vec::new();
        let mut m: usize = 0;
        while m < image_count
            invariant
                m <= image_count,
                n == config.spec_pixel_count(),
                images@.len() == m,
                forall|k: int| 0 <= k < m ==> (#[trigger] images@[k])@.len() == n,
            decreases image_count - m,
        {
            images.push(crate::resources::zero_words(n));
            m += 1;
        }

        let p = Pathtracer {
            config,
            store,
            camera_buf,
            ray_buf,
            intersection_buf,
            index_buf,
            vertex_in_buf,
            vertex_out_buf,
            aabb_buf,
            camera_len: cam_len,
            index_count: idx_len,
            vertex_count: vc,
            frame: 0,
            free_acquire_semaphore,
            image_acquire_semaphores,
            submission_complete_semaphores,
            recorded,
            pending: Vec::new(),
            submitted: Vec::new(),
            presented: Vec::new(),
            images,
        };
        proof {
            assert(p.handle_list() =~= seq![0int, 1int, 2int, 3int, 4int, 5int, 6int]);
            assert(p.submitted@ =~= Seq::<u64>::new(0nat, |i: int| i as u64));
        }
        Ok(p)
    }
}

/// All the fields that setup fixes and `render` never changes.
pub open spec fn same_setup(pre: Pathtracer, post: Pathtracer) -> bool {
    &&& post.config == pre.config
    &&& post.camera_buf == pre.camera_buf
    &&& post.ray_buf == pre.ray_buf
    &&& post.intersection_buf == pre.intersection_buf
    &&& post.index_buf == pre.index_buf
    &&& post.vertex_in_buf == pre.vertex_in_buf
    &&& post.vertex_out_buf == pre.vertex_out_buf
    &&& post.aabb_buf == pre.aabb_buf
    &&& post.camera_len == pre.camera_len
    &&& post.index_count == pre.index_count
    &&& post.vertex_count == pre.vertex_count
    &&& post.images@.len() == pre.images@.len()
    &&& post.submission_complete_semaphores == pre.submission_complete_semaphores
    &&& post.store.memory_types == pre.store.memory_types
}

/// A frame that fails before any work reaches the queue: only the
/// camera upload of step one has happened.
pub open spec fn frame_aborted(pre: Pathtracer, post: Pathtracer, camera: Seq<u32>) -> bool {
    &&& post.frame == pre.frame
    &&& post.submitted == pre.submitted
    &&& post.pending == pre.pending
    &&& post.presented == pre.presented
    &&& post.recorded == pre.recorded
    &&& post.images == pre.images
    &&& post.free_acquire_semaphore == pre.free_acquire_semaphore
    &&& post.image_acquire_semaphores == pre.image_acquire_semaphores
    &&& post.data_of(pre.camera_buf as int) == camera
    &&& forall|h: int|
        0 <= h < post.store.buffers@.len() && h != pre.camera_buf
            ==> post.store.buffers@[h] == #[trigger] pre.store.buffers@[h]
}

/// Everything one successful frame does, related to the state it
/// started from: counter and logs advance in order, the slot's command
/// buffer holds the schema-derived recording, the acquire-semaphore
/// indirection rotates at the acquired image index, the stage outputs
/// land in their buffers, and the new submission is the only one
/// occupying its slot.
pub open spec fn frame_outcome(
    pre: Pathtracer,
    post: Pathtracer,
    camera: Seq<u32>,
    image_index: int,
) -> bool {
    let f = pre.frame as int % pre.fif();
    let n = pre.pixel_words() as nat;
    let mcount = pre.vertex_count as nat;
    let vin = pre.data_of(pre.vertex_in_buf as int);
    let idx = pre.data_of(pre.index_buf as int);
    let vout = spec_skin(camera, vin);
    let inter = frame_intersections(camera, vin, idx, n, mcount);
    &&& post.frame == pre.frame + 1
    &&& post.submitted@ == pre.submitted@.push(pre.frame)
    &&& post.presented@ == pre.presented@.push(image_index as usize)
    &&& (post.recorded@[f])@ == frame_cmds(pre.config, pre.vertex_count as u32)
    &&& post.recorded@ == pre.recorded@.update(f, post.recorded@[f])
    &&& post.free_acquire_semaphore == pre.image_acquire_semaphores@[image_index]
    &&& post.image_acquire_semaphores@ == pre.image_acquire_semaphores@.update(
        image_index,
        pre.free_acquire_semaphore,
    )
    &&& post.data_of(pre.camera_buf as int) == camera
    &&& post.data_of(pre.vertex_in_buf as int) == vin
    &&& post.data_of(pre.index_buf as int) == idx
    &&& post.data_of(pre.ray_buf as int) == spec_gen_rays(camera, n)
    &&& post.data_of(pre.vertex_out_buf as int) == vout
    &&& post.data_of(pre.aabb_buf as int) == spec_aabb(vout, mcount)
    &&& post.data_of(pre.intersection_buf as int) == inter
    &&& (post.images@[image_index])@ == inter
    &&& forall|k: int|
        0 <= k < post.images@.len() && k != image_index ==> post.images@[k]
            == #[trigger] pre.images@[k]
    &&& post.pending@.len() >= 1
    &&& post.pending@.last() == PendingSubmission {
        frame_no: pre.frame,
        slot: f as usize,
        image_index: image_index as usize,
        wait_semaphore: pre.free_acquire_semaphore,
        signal_semaphore: pre.submission_complete_semaphores@[f],
    }
    &&& forall|k: int|
        0 <= k < post.pending@.len() - 1 ==> (#[trigger] post.pending@[k]).slot != f
    &&& exists|d: int|
        0 <= d <= pre.pending@.len() && post.pending@ == #[trigger] pre.pending@.skip(d).push(
            post.pending@.last(),
        )
}

/// The seven buffer handles never collide, spelled out pairwise.
proof fn lemma_handles_distinct(p: Pathtracer)
    requires
        p.wf(),
    ensures
        p.camera_buf != p.ray_buf,
        p.camera_buf != p.intersection_buf,
        p.camera_buf != p.index_buf,
        p.camera_buf != p.vertex_in_buf,
        p.camera_buf != p.vertex_out_buf,
        p.camera_buf != p.aabb_buf,
        p.ray_buf != p.intersection_buf,
        p.ray_buf != p.index_buf,
        p.ray_buf != p.vertex_in_buf,
        p.ray_buf != p.vertex_out_buf,
        p.ray_buf != p.aabb_buf,
        p.intersection_buf != p.index_buf,
        p.intersection_buf != p.vertex_in_buf,
        p.intersection_buf != p.vertex_out_buf,
        p.intersection_buf != p.aabb_buf,
        p.index_buf != p.vertex_in_buf,
        p.index_buf != p.vertex_out_buf,
        p.index_buf != p.aabb_buf,
        p.vertex_in_buf != p.vertex_out_buf,
        p.vertex_in_buf != p.aabb_buf,
        p.vertex_out_buf != p.aabb_buf,
{
    let hl = p.handle_list();
    assert(hl[0] != hl[1] && hl[0] != hl[2] && hl[0] != hl[3] && hl[0] != hl[4] && hl[0] != hl[5]
        && hl[0] != hl[6]);
    assert(hl[1] != hl[2] && hl[1] != hl[3] && hl[1] != hl[4] && hl[1] != hl[5] && hl[1] != hl[6]);
    assert(hl[2] != hl[3] && hl[2] != hl[4] && hl[2] != hl[5] && hl[2] != hl[6]);
    assert(hl[3] != hl[4] && hl[3] != hl[5] && hl[3] != hl[6]);
    assert(hl[4] != hl[5] && hl[4] != hl[6]);
    assert(hl[5] != hl[6]);
}

/// Rotating the free acquire semaphore with the one stored at the
/// acquired image index keeps every semaphore id distinct.
proof fn lemma_swap_sems_distinct(pre: Pathtracer, post: Pathtracer, i: int)
    requires
        pre.sems_distinct(),
        0 <= i < pre.image_acquire_semaphores@.len(),
        post.image_acquire_semaphores@ == pre.image_acquire_semaphores@.update(
            i,
            pre.free_acquire_semaphore,
        ),
        post.free_acquire_semaphore == pre.image_acquire_semaphores@[i],
        post.submission_complete_semaphores@ == pre.submission_complete_semaphores@,
    ensures
        post.sems_distinct(),
{
    let oldimg = pre.image_acquire_semaphores@;
    let img = post.image_acquire_semaphores@;
    let cpl = post.submission_complete_semaphores@;
    assert forall|a: int, b: int|
        #![trigger img[a], img[b]]
        0 <= a < b < img.len() implies img[a] != img[b] by {
        if a == i {
            assert(img[a] == pre.free_acquire_semaphore && img[b] == oldimg[b]);
        } else if b == i {
            assert(img[a] == oldimg[a] && img[b] == pre.free_acquire_semaphore);
        } else {
            assert(img[a] == oldimg[a] && img[b] == oldimg[b]);
        }
    }
    assert forall|a: int, b: int|
        #![trigger img[a], cpl[b]]
        0 <= a < img.len() && 0 <= b < cpl.len() implies img[a] != cpl[b] by {
        if a == i {
            assert(img[a] == pre.free_acquire_semaphore);
        } else {
            assert(img[a] == oldimg[a]);
        }
    }
    assert forall|a: int| 0 <= a < img.len() implies post.free_acquire_semaphore
        != #[trigger] img[a] by {
        if a == i {
            assert(img[a] == pre.free_acquire_semaphore);
        } else {
            assert(img[a] == oldimg[a]);
        }
    }
}

impl Pathtracer {
    /// The GPU finishes its oldest submission; the fence of that
    /// submission's slot signals.
    fn retire_front(&mut self)
        requires
            old(self).wf(),
            old(self).pending@.len() > 0,
        ensures
            final(self).wf(),
            same_setup(*old(self), *final(self)),
            final(self).pending@ == old(self).pending@.remove(0),
            final(self).store == old(self).store,
            final(self).frame == old(self).frame,
            final(self).submitted == old(self).submitted,
            final(self).presented == old(self).presented,
            final(self).recorded == old(self).recorded,
            final(self).images == old(self).images,
            final(self).free_acquire_semaphore == old(self).free_acquire_semaphore,
            final(self).image_acquire_semaphores == old(self).image_acquire_semaphores,
    {
        self.pending.remove(0);
        proof {
            assert(self.handle_list() =~= old(self).handle_list());
            let oldp = old(self).pending@;
            let newp = self.pending@;
            assert forall|k: int| 0 <= k < newp.len() implies #[trigger] newp[k] == oldp[k + 1] by {
                assert(oldp.remove(0)[k] == oldp[k + 1]);
            }
            assert forall|k: int| 0 <= k < newp.len() implies {
                &&& (#[trigger] newp[k]).frame_no == self.frame - newp.len() + k
                &&& newp[k].slot == (self.frame - newp.len() + k) % self.fif()
                &&& newp[k].image_index < self.images@.len()
            } by {
                assert(newp[k] == oldp[k + 1]);
                assert(oldp[k + 1].frame_no == old(self).frame - oldp.len() + (k + 1));
                assert(oldp[k + 1].slot == (old(self).frame - oldp.len() + (k + 1)) % old(
                    self,
                ).fif());
            }
        }
    }

    /// One frame tick: upload the fresh camera data, acquire a
    /// swapchain image with the free acquire semaphore, wait on the
    /// frame slot's fence (bounding the CPU to `frames_in_flight`
    /// frames ahead), rotate the acquire semaphore at the acquired
    /// image index, record the five dispatches with their barriers
    /// into the slot's command buffer, submit in frame order, and
    /// present.  An acquire failure or a fence timeout propagates as
    /// its own error without advancing the frame counter.
    #[verifier::rlimit(60)]
    pub fn render(&mut self, camera_data: &Vec<u32>, events: FrameEvents) -> (r: Result<
        (),
        RenderError,
    >)
        requires
            old(self).wf(),
            camera_data@.len() == old(self).camera_len,
            old(self).frame < u64::MAX,
            events.acquire matches AcquireOutcome::Image { index } ==> index < old(
                self,
            ).images@.len(),
        ensures
            final(self).wf(),
            same_setup(*old(self), *final(self)),
            r is Ok <==> events.acquire is Image && events.fence_wait is Signaled,
            r == Err::<(), RenderError>(RenderError::SwapchainOutOfDate) <==> events.acquire is OutOfDate,
            r == Err::<(), RenderError>(RenderError::SurfaceLost) <==> events.acquire is Lost,
            r == Err::<(), RenderError>(RenderError::DeviceLost) <==> events.acquire is Image
                && events.fence_wait is TimedOut,
            r is Err ==> frame_aborted(*old(self), *final(self), camera_data@),
            r is Ok ==> (events.acquire matches AcquireOutcome::Image { index }
                && frame_outcome(*old(self), *final(self), camera_data@, index as int)),
    {
        // Step 1: push the camera data into the host-visible camera
        // buffer.  Safe at any point of the frame: this frame's
        // dispatches have not been recorded, and the previous use of
        // this slot is fenced below.
        match self.store.update(self.camera_buf, 0, camera_data) {
            Ok(_) => (),
            Err(_) => {
                proof {
                    assert(false);
                }
                return Err(RenderError::DeviceLost);
            },
        }
        proof {
            lemma_splice_round_trip(old(self).data_of(old(self).camera_buf as int), camera_data@);
            assert(self.handle_list() =~= old(self).handle_list());
            assert(self.wf());
        }

        // Step 2: the swapchain's answer to the acquire call made with
        // the free acquire semaphore.
        let image_index = match events.acquire {
            AcquireOutcome::Image { index } => index,
            AcquireOutcome::OutOfDate => {
                return Err(RenderError::SwapchainOutOfDate);
            },
            AcquireOutcome::Lost => {
                return Err(RenderError::SurfaceLost);
            },
        };

        // Step 4 of the protocol: the frame slot is the counter modulo
        // the number of frames in flight — a different index space
        // from the swapchain image index above.
        let f = (self.frame % (self.config.frames_in_flight as u64)) as usize;

        // Step 5: wait on this slot's completion fence.  A timeout is
        // fatal; otherwise the GPU retires work in order until the
        // slot's previous submission has finished, and the fence and
        // the slot's command pool are reset.
        match events.fence_wait {
            FenceWait::Signaled => (),
            FenceWait::TimedOut => {
                return Err(RenderError::DeviceLost);
            },
        }
        let ghost pre = *self;
        let ghost mut dropped: int = 0;
        proof {
            assert(pre.pending@.skip(0) =~= pre.pending@);
        }
        while !self.slot_fence_signaled(f)
            invariant
                self.wf(),
                f == self.frame as int % self.fif(),
                0 <= dropped <= pre.pending@.len(),
                self.pending@ == pre.pending@.skip(dropped),
                *self == (Pathtracer { pending: self.pending, ..pre }),
            decreases self.pending@.len(),
        {
            proof {
                assert(self.pending@.len() > 0);
            }
            self.retire_front();
            proof {
                dropped = dropped + 1;
                assert(self.pending@ =~= pre.pending@.skip(dropped));
            }
        }

        // The fence protocol leaves room in the queue: at most
        // `frames_in_flight - 1` submissions can remain once this
        // slot's fence has signalled.
        proof {
            if self.pending@.len() >= self.fif() {
                let k = self.pending@.len() - self.fif();
                assert(self.pending@[k].slot == (self.frame - self.pending@.len() + k)
                    % self.fif());
                lemma_mod_sub_multiples_vanish(self.frame as int, self.fif());
                assert(false);
            }
        }

        // Step 3: rotate the acquire semaphore used for this acquire
        // into the image-indexed array, retiring the one previously
        // stored there as the next free acquire semaphore; an acquire
        // semaphore is never handed out while a submission may still
        // wait on it.
        let prev = self.image_acquire_semaphores[image_index];
        let freed = self.free_acquire_semaphore;
        vec_set(&mut self.image_acquire_semaphores, image_index, freed);
        self.free_acquire_semaphore = prev;

        // Step 6: record this slot's command buffer from the binding
        // schema: the five dispatches with a barrier at every
        // read-after-write boundary.
        let cmds = record_frame(&self.config, self.vertex_count as u32);
        vec_set(&mut self.recorded, f, cmds);

        // The recorded dispatches execute on the GPU timeline as the
        // modelled stage functions, in recording order under the
        // barriers above.
        let n = self.config.pixel_count();
        let rays = gen_rays(&self.store.buffers[self.camera_buf].data, n);
        let vout = skin(
            &self.store.buffers[self.camera_buf].data,
            &self.store.buffers[self.vertex_in_buf].data,
        );
        proof {
            assert(self.store.buffers@[self.vertex_in_buf as int].data@.len() == (4
                * self.vertex_count) as usize);
            assert(vout@.len() == 4 * self.vertex_count);
        }
        let bound = aabb_reduce(&vout, self.vertex_count);
        let inter = intersect(&rays, &vout, &self.store.buffers[self.index_buf].data, &bound);
        let inter_copy = crate::resources::copy_words(&inter);
        let ghost rays_v = rays@;
        let ghost vout_v = vout@;
        let ghost bound_v = bound@;
        let ghost inter_v = inter@;
        self.store.device_write(self.ray_buf, rays);
        self.store.device_write(self.vertex_out_buf, vout);
        self.store.device_write(self.aabb_buf, bound);
        self.store.device_write(self.intersection_buf, inter);
        vec_set(&mut self.images, image_index, inter_copy);

        // Step 7: submit, waiting on the acquire semaphore now stored
        // at the image index and signalling the slot's completion
        // semaphore and fence.
        let sub = PendingSubmission {
            frame_no: self.frame,
            slot: f,
            image_index,
            wait_semaphore: self.image_acquire_semaphores[image_index],
            signal_semaphore: self.submission_complete_semaphores[f],
        };
        self.pending.push(sub);
        self.submitted.push(self.frame);

        // Step 8: present the image, waiting on the completion
        // semaphore.
        self.presented.push(image_index);

        // Step 9: advance the frame counter.
        self.frame = self.frame + 1;

        proof {
            assert(self.handle_list() =~= pre.handle_list());
            lemma_handles_distinct(pre);
            lemma_swap_sems_distinct(pre, *self, image_index as int);
            assert(self.submitted@ =~= Seq::<u64>::new(self.frame as nat, |i: int| i as u64));
            assert(self.pending@ == pre.pending@.skip(dropped).push(sub));
            let fifv = self.fif();
            let plen = self.pending@.len();
            assert forall|k: int| 0 <= k < plen implies {
                &&& (#[trigger] self.pending@[k]).frame_no == self.frame - plen + k
                &&& self.pending@[k].slot == (self.frame - plen + k) % fifv
                &&& self.pending@[k].image_index < self.images@.len()
            } by {
                if k < plen - 1 {
                    assert(self.pending@[k] == pre.pending@.skip(dropped)[k]);
                    assert(pre.pending@.skip(dropped)[k] == pre.pending@[dropped + k]);
                } else {
                    assert(self.pending@[k] == sub);
                    assert(f as int == pre.frame as int % fifv);
                }
            }
            assert forall|k: int| 0 <= k < self.images@.len() implies (
            #[trigger] self.images@[k])@.len() == self.pixel_words() by {
                if k == image_index as int {
                    assert(self.images@[k]@ == inter_v);
                } else {
                    assert(self.images@[k] == pre.images@[k]);
                }
            }
            assert(self.data_of(pre.camera_buf as int) == camera_data@);
            assert(self.data_of(pre.vertex_in_buf as int) == pre.data_of(
                pre.vertex_in_buf as int,
            ));
            assert(self.data_of(pre.index_buf as int) == pre.data_of(pre.index_buf as int));
            assert(self.data_of(pre.ray_buf as int) == rays_v);
            assert(self.data_of(pre.vertex_out_buf as int) == vout_v);
            assert(self.data_of(pre.aabb_buf as int) == bound_v);
            assert(self.data_of(pre.intersection_buf as int) == inter_v);
            assert(inter_v == frame_intersections(
                camera_data@,
                pre.data_of(pre.vertex_in_buf as int),
                pre.data_of(pre.index_buf as int),
                pre.pixel_words() as nat,
                pre.vertex_count as nat,
            ));
            let pre0 = *old(self);
            let ii = image_index as int;
            lemma_handles_distinct(pre0);
            assert(pre0.store.buffers@[pre0.vertex_in_buf as int]
                == pre.store.buffers@[pre.vertex_in_buf as int]);
            assert(pre0.store.buffers@[pre0.index_buf as int]
                == pre.store.buffers@[pre.index_buf as int]);
            let vin = pre0.data_of(pre0.vertex_in_buf as int);
            let idx = pre0.data_of(pre0.index_buf as int);
            let n = pre0.pixel_words() as nat;
            let mcount = pre0.vertex_count as nat;
            let fspec = pre0.frame as int % pre0.fif();
            let vout_spec = spec_skin(camera_data@, vin);
            let inter_spec = frame_intersections(camera_data@, vin, idx, n, mcount);
            assert(f as int == fspec);
            assert(self.frame == pre0.frame + 1);
            assert(self.submitted@ == pre0.submitted@.push(pre0.frame));
            assert(self.presented@ == pre0.presented@.push(image_index));
            assert((self.recorded@[fspec])@ == frame_cmds(pre0.config, pre0.vertex_count as u32));
            assert(self.recorded@ == pre0.recorded@.update(fspec, self.recorded@[fspec]));
            assert(self.free_acquire_semaphore == pre0.image_acquire_semaphores@[ii]);
            assert(self.image_acquire_semaphores@ == pre0.image_acquire_semaphores@.update(
                ii,
                pre0.free_acquire_semaphore,
            ));
            assert(self.data_of(pre0.camera_buf as int) == camera_data@);
            assert(self.data_of(pre0.vertex_in_buf as int) == vin);
            assert(self.data_of(pre0.index_buf as int) == idx);
            assert(self.data_of(pre0.ray_buf as int) == spec_gen_rays(camera_data@, n));
            assert(self.data_of(pre0.vertex_out_buf as int) == vout_spec);
            assert(self.data_of(pre0.aabb_buf as int) == spec_aabb(vout_spec, mcount));
            assert(self.data_of(pre0.intersection_buf as int) == inter_spec);
            assert((self.images@[ii])@ == inter_spec);
            assert forall|k: int| 0 <= k < self.images@.len() && k != ii implies self.images@[k]
                == #[trigger] pre0.images@[k] by {
                assert(self.images@[k] == pre.images@[k]);
            }
            assert(self.pending@.len() >= 1);
            assert(self.pending@.last() == PendingSubmission {
                frame_no: pre0.frame,
                slot: fspec as usize,
                image_index,
                wait_semaphore: pre0.free_acquire_semaphore,
                signal_semaphore: pre0.submission_complete_semaphores@[fspec],
            });
            assert forall|k: int| 0 <= k < self.pending@.len() - 1 implies (
            #[trigger] self.pending@[k]).slot != fspec by {
                assert(self.pending@[k] == pre.pending@.skip(dropped)[k]);
            }
            assert(self.pending@ == pre0.pending@.skip(dropped).push(self.pending@.last()));
            assert(frame_outcome(pre0, *self, camera_data@, ii));
        }
        Ok(())
    }
}

/// The frames-in-flight protocol never lets one slot hold two
/// unretired submissions: recording into a slot begins only once the
/// fence of its previous occupancy has signalled, so at any instant
/// the queue holds each slot at most once.
pub proof fn lemma_one_submission_per_slot(p: Pathtracer, a: int, b: int)
    requires
        p.wf(),
        0 <= a < b < p.pending@.len(),
    ensures
        p.pending@[a].slot != p.pending@[b].slot,
{
    let m = p.fif();
    let x = p.frame - p.pending@.len() + a;
    let d = b - a;
    assert(0 < d < m);
    lemma_add_mod_noop(x, d, m);
    lemma_small_mod(d as nat, m as nat);
    lemma_mod_bound(x, m);
    let r = x % m;
    if r + d < m {
        lemma_small_mod((r + d) as nat, m as nat);
    } else {
        lemma_mod_sub_multiples_vanish(r + d, m);
        lemma_small_mod((r + d - m) as nat, m as nat);
    }
}

/// The command buffer a successful frame leaves in its slot carries a
/// barrier at every read-after-write boundary and reads no buffer
/// that was neither uploaded nor written earlier in the frame.
pub proof fn lemma_recorded_frame_safe(
    pre: Pathtracer,
    post: Pathtracer,
    camera: Seq<u32>,
    image_index: int,
)
    requires
        frame_outcome(pre, post, camera, image_index),
    ensures
        crate::stages::hazard_free((post.recorded@[pre.frame as int % pre.fif()])@),
        crate::stages::reads_initialized((post.recorded@[pre.frame as int % pre.fif()])@),
{
    crate::stages::lemma_frame_hazard_free(pre.config, pre.vertex_count as u32);
    crate::stages::lemma_frame_reads_initialized(pre.config, pre.vertex_count as u32);
}

/// Rendering is idempotent: two successful frames, on the same or on
/// different engines, given the same camera data over the same
/// uploaded mesh, leave bit-equal intersection-buffer contents —
/// frame output is a deterministic function of the uploaded inputs,
/// with no hidden per-frame state.
pub proof fn lemma_idempotent_frames(
    pre1: Pathtracer,
    post1: Pathtracer,
    i1: int,
    pre2: Pathtracer,
    post2: Pathtracer,
    i2: int,
    camera: Seq<u32>,
)
    requires
        frame_outcome(pre1, post1, camera, i1),
        frame_outcome(pre2, post2, camera, i2),
        pre1.data_of(pre1.vertex_in_buf as int) == pre2.data_of(pre2.vertex_in_buf as int),
        pre1.data_of(pre1.index_buf as int) == pre2.data_of(pre2.index_buf as int),
        pre1.pixel_words() == pre2.pixel_words(),
        pre1.vertex_count == pre2.vertex_count,
    ensures
        post1.data_of(pre1.intersection_buf as int) == post2.data_of(
            pre2.intersection_buf as int,
        ),
{
}

/// Submission order on the queue matches frame order: of any two
/// command buffers ever submitted, the earlier submission carries the
/// smaller frame number, so consecutive frames are never reordered.
pub proof fn lemma_submission_order(p: Pathtracer, a: int, b: int)
    requires
        p.wf(),
        0 <= a < b < p.submitted@.len(),
    ensures
        p.submitted@[a] < p.submitted@[b],
{
}

impl Pathtracer {
    /// Blocks until the GPU has retired every pending submission; the
    /// test-only read-back path uses this before reading buffers.
    pub fn wait_idle(&mut self)
        requires
            old(self).wf(),
        ensures
            final(self).wf(),
            same_setup(*old(self), *final(self)),
            final(self).pending@.len() == 0,
            final(self).store == old(self).store,
            final(self).frame == old(self).frame,
            final(self).submitted == old(self).submitted,
            final(self).presented == old(self).presented,
            final(self).recorded == old(self).recorded,
            final(self).images == old(self).images,
            final(self).free_acquire_semaphore == old(self).free_acquire_semaphore,
            final(self).image_acquire_semaphores == old(self).image_acquire_semaphores,
    {
        while self.pending.len() > 0
            invariant
                self.wf(),
                *self == (Pathtracer { pending: self.pending, ..*old(self) }),
            decreases self.pending@.len(),
        {
            self.retire_front();
        }
    }
}

/// Replaces element `i`, keeping all others.
fn vec_set<T>(v: &mut Vec<T>, i: usize, x: T)
    requires
        i < old(v)@.len(),
    ensures
        final(v)@ == old(v)@.update(i as int, x),
{
    v.remove(i);
    v.insert(i, x);
    proof {
        assert(final(v)@ =~= old(v)@.update(i as int, x));
    }
}

} // verus!
