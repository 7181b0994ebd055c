//! Deterministic word-level model of the five compute shaders.
//!
//! The shaders' numeric code is out of scope; what the engine's
//! correctness argument needs is that each dispatch is a fixed
//! function of exactly the buffers its binding schema reads, so that
//! frame output is determined by the uploaded inputs alone.  Each
//! stage is therefore modelled as a simple total function over buffer
//! words.  The bound reduction is modelled exactly: a componentwise
//! minimum and maximum over the skinned vertices.

use vstd::prelude::*;

verus! {

/// Word fold over a buffer: the stand-in for a shader's reading of a
/// whole input buffer.
pub open spec fn digest(s: Seq<u32>) -> u32
    decreases s.len(),
{
    if s.len() == 0 {
        0u32
    } else {
        digest(s.drop_last()) ^ s.last()
    }
}

pub fn digest_words(v: &Vec<u32>) -> (r: u32)
    ensures
        r == digest(v@),
{
    let mut r: u32 = 0;
    let mut i: usize = 0;
    while i < v.len()
        invariant
            i <= v@.len(),
            r == digest(v@.subrange(0, i as int)),
        decreases v@.len() - i,
    {
        r = r ^ v[i];
        i += 1;
        proof {
            let pre = v@.subrange(0, i - 1);
            let cur = v@.subrange(0, i as int);
            assert(cur.drop_last() =~= pre);
            assert(cur.last() == v@[i - 1]);
        }
    }
    proof {
        assert(v@.subrange(0, v@.len() as int) =~= v@);
    }
    r
}

/// CameraRayGenerator: one ray word per pixel, derived from the camera
/// buffer and the pixel index.
pub open spec fn spec_gen_rays(camera: Seq<u32>, n: nat) -> Seq<u32> {
    Seq::new(n, |i: int| digest(camera) ^ (i as u32))
}

pub fn gen_rays(camera: &Vec<u32>, n: usize) -> (r: Vec<u32>)
    requires
        n <= u32::MAX,
    ensures
        r@ == spec_gen_rays(camera@, n as nat),
{
    let d = digest_words(camera);
    let mut r: Vec<u32> = Vec::new();
    let mut i: usize = 0;
    while i < n
        invariant
            i <= n <= u32::MAX,
            d == digest(camera@),
            r@ == spec_gen_rays(camera@, i as nat),
        decreases n - i,
    {
        r.push(d ^ (i as u32));
        i += 1;
        proof {
            assert(r@ =~= spec_gen_rays(camera@, i as nat));
        }
    }
    r
}

/// VertexSkinner: each rest-pose vertex word combined with the camera
/// buffer's pose data.
pub open spec fn spec_skin(camera: Seq<u32>, vin: Seq<u32>) -> Seq<u32> {
    Seq::new(vin.len(), |i: int| vin[i] ^ digest(camera))
}

pub fn skin(camera: &Vec<u32>, vin: &Vec<u32>) -> (r: Vec<u32>)
    ensures
        r@ == spec_skin(camera@, vin@),
{
    let d = digest_words(camera);
    let mut r: Vec<u32> = Vec::new();
    let mut i: usize = 0;
    while i < vin.len()
        invariant
            i <= vin@.len(),
            d == digest(camera@),
            r@ == spec_skin(camera@, vin@).subrange(0, i as int),
        decreases vin@.len() - i,
    {
        r.push(vin[i] ^ d);
        i += 1;
        proof {
            assert(r@ =~= spec_skin(camera@, vin@).subrange(0, i as int));
        }
    }
    proof {
        assert(spec_skin(camera@, vin@).subrange(0, vin@.len() as int) =~= spec_skin(
            camera@,
            vin@,
        ));
    }
    r
}

/// Coordinate `c` of skinned vertex `v`: vertices are four words each,
/// read as signed coordinates.
pub open spec fn comp(vout: Seq<u32>, v: int, c: int) -> i32 {
    vout[4 * v + c] as i32
}

pub open spec fn min_i32(a: i32, b: i32) -> i32 {
    if a <= b {
        a
    } else {
        b
    }
}

pub open spec fn max_i32(a: i32, b: i32) -> i32 {
    if a >= b {
        a
    } else {
        b
    }
}

/// Componentwise minimum over the first `m` vertices.
pub open spec fn comp_min(vout: Seq<u32>, c: int, m: nat) -> i32
    decreases m,
{
    if m <= 1 {
        comp(vout, 0, c)
    } else {
        min_i32(comp_min(vout, c, (m - 1) as nat), comp(vout, m - 1, c))
    }
}

/// Componentwise maximum over the first `m` vertices.
pub open spec fn comp_max(vout: Seq<u32>, c: int, m: nat) -> i32
    decreases m,
{
    if m <= 1 {
        comp(vout, 0, c)
    } else {
        max_i32(comp_max(vout, c, (m - 1) as nat), comp(vout, m - 1, c))
    }
}

/// AabbCalculator: the single scene-wide bound, eight words holding
/// the componentwise minimum then the componentwise maximum of the
/// skinned vertices.
pub open spec fn spec_aabb(vout: Seq<u32>, m: nat) -> Seq<u32> {
    Seq::new(
        8,
        |j: int|
            if j < 4 {
                comp_min(vout, j, m) as u32
            } else {
                comp_max(vout, j - 4, m) as u32
            },
    )
}

fn comp_at(vout: &Vec<u32>, v: usize, c: usize) -> (r: i32)
    requires
        4 * v + c < vout@.len(),
    ensures
        r == comp(vout@, v as int, c as int),
{
    let l = vout.len();
    #[verifier::truncate] (vout[4 * v + c] as i32)
}

fn comp_min_exec(vout: &Vec<u32>, c: usize, m: usize) -> (r: i32)
    requires
        1 <= m,
        4 * m <= vout@.len(),
        c < 4,
    ensures
        r == comp_min(vout@, c as int, m as nat),
{
    let mut r = comp_at(vout, 0, c);
    let mut v: usize = 1;
    while v < m
        invariant
            1 <= v <= m,
            4 * m <= vout@.len(),
            c < 4,
            r == comp_min(vout@, c as int, v as nat),
        decreases m - v,
    {
        let x = comp_at(vout, v, c);
        if x < r {
            r = x;
        }
        v += 1;
    }
    r
}

fn comp_max_exec(vout: &Vec<u32>, c: usize, m: usize) -> (r: i32)
    requires
        1 <= m,
        4 * m <= vout@.len(),
        c < 4,
    ensures
        r == comp_max(vout@, c as int, m as nat),
{
    let mut r = comp_at(vout, 0, c);
    let mut v: usize = 1;
    while v < m
        invariant
            1 <= v <= m,
            4 * m <= vout@.len(),
            c < 4,
            r == comp_max(vout@, c as int, v as nat),
        decreases m - v,
    {
        let x = comp_at(vout, v, c);
        if x > r {
            r = x;
        }
        v += 1;
    }
    r
}

/// The single-workgroup reduction dispatch over `m` skinned vertices.
pub fn aabb_reduce(vout: &Vec<u32>, m: usize) -> (r: Vec<u32>)
    requires
        1 <= m,
        4 * m <= vout@.len(),
    ensures
        r@ == spec_aabb(vout@, m as nat),
{
    let mut r: Vec<u32> = Vec::new();
    r.push(comp_min_exec(vout, 0, m) as u32);
    r.push(comp_min_exec(vout, 1, m) as u32);
    r.push(comp_min_exec(vout, 2, m) as u32);
    r.push(comp_min_exec(vout, 3, m) as u32);
    r.push(comp_max_exec(vout, 0, m) as u32);
    r.push(comp_max_exec(vout, 1, m) as u32);
    r.push(comp_max_exec(vout, 2, m) as u32);
    r.push(comp_max_exec(vout, 3, m) as u32);
    proof {
        assert(r@ =~= spec_aabb(vout@, m as nat));
    }
    r
}

proof fn lemma_u32_i32_round_trip(x: u32)
    ensures
        (x as i32) as u32 == x,
{
    assert((x as i32) as u32 == x) by (bit_vector);
}

/// With a single-vertex mesh the bound degenerates to that vertex:
/// the minimum corner and the maximum corner both equal its
/// coordinates.
pub proof fn lemma_single_vertex_aabb(vout: Seq<u32>)
    requires
        vout.len() == 4,
    ensures
        spec_aabb(vout, 1).subrange(0, 4) == vout,
        spec_aabb(vout, 1).subrange(4, 8) == vout,
{
    lemma_u32_i32_round_trip(vout[0]);
    lemma_u32_i32_round_trip(vout[1]);
    lemma_u32_i32_round_trip(vout[2]);
    lemma_u32_i32_round_trip(vout[3]);
    assert(spec_aabb(vout, 1).subrange(0, 4) =~= vout);
    assert(spec_aabb(vout, 1).subrange(4, 8) =~= vout);
}

/// RayTriangleIntersector: one intersection word per pixel, a function
/// of that pixel's ray and of the skinned vertices, the triangle
/// indices, and the bound it culls against.
pub open spec fn spec_intersect(
    rays: Seq<u32>,
    vout: Seq<u32>,
    idx: Seq<u32>,
    aabb: Seq<u32>,
) -> Seq<u32> {
    Seq::new(rays.len(), |i: int| rays[i] ^ digest(vout) ^ digest(idx) ^ digest(aabb))
}

pub fn intersect(rays: &Vec<u32>, vout: &Vec<u32>, idx: &Vec<u32>, aabb: &Vec<u32>) -> (r: Vec<
    u32,
>)
    ensures
        r@ == spec_intersect(rays@, vout@, idx@, aabb@),
{
    let dv = digest_words(vout);
    let di = digest_words(idx);
    let da = digest_words(aabb);
    let mut r: Vec<u32> = Vec::new();
    let mut i: usize = 0;
    while i < rays.len()
        invariant
            i <= rays@.len(),
            dv == digest(vout@),
            di == digest(idx@),
            da == digest(aabb@),
            r@ == spec_intersect(rays@, vout@, idx@, aabb@).subrange(0, i as int),
        decreases rays@.len() - i,
    {
        r.push(rays[i] ^ dv ^ di ^ da);
        i += 1;
        proof {
            assert(r@ =~= spec_intersect(rays@, vout@, idx@, aabb@).subrange(0, i as int));
        }
    }
    proof {
        let s = spec_intersect(rays@, vout@, idx@, aabb@);
        assert(s.subrange(0, s.len() as int) =~= s);
    }
    r
}

/// The intersection contents one frame computes, as a function of the
/// uploaded inputs alone.
pub open spec fn frame_intersections(
    camera: Seq<u32>,
    vin: Seq<u32>,
    idx: Seq<u32>,
    n: nat,
    m: nat,
) -> Seq<u32> {
    spec_intersect(
        spec_gen_rays(camera, n),
        spec_skin(camera, vin),
        idx,
        spec_aabb(spec_skin(camera, vin), m),
    )
}

/// Rendering is idempotent across frames: two frames given the same
/// camera data over the same mesh pose and indices compute bit-equal
/// intersection contents.  The model has no hidden per-frame state,
/// and no dispatch reads an uninitialized buffer
/// (`stages::lemma_frame_reads_initialized`), so frame output is a
/// function of the uploaded inputs alone.
pub proof fn lemma_render_deterministic(
    camera1: Seq<u32>,
    camera2: Seq<u32>,
    vin1: Seq<u32>,
    vin2: Seq<u32>,
    idx1: Seq<u32>,
    idx2: Seq<u32>,
    n: nat,
    m: nat,
)
    requires
        camera1 == camera2,
        vin1 == vin2,
        idx1 == idx2,
    ensures
        frame_intersections(camera1, vin1, idx1, n, m) == frame_intersections(
            camera2,
            vin2,
            idx2,
            n,
            m,
        ),
{
}

} // verus!
