//! The pinhole camera and the per-pixel visibility trace.
//!
//! One primary ray is cast through the center of every pixel of a
//! `width x height` raster, tested against a flat list of spheres, and
//! resolved to a binary sample: full intensity if some sphere is hit at
//! the nearest valid parameter, zero otherwise. Every function here is
//! pure in its inputs, so pixels are independent of one another and the
//! whole frame is deterministic.

use vstd::prelude::*;

use crate::pbrt::sphere::Sphere;
use crate::pbrt::vector::Vector3;
use crate::scalar::Scalar;

verus! {

/// The sample value of a pixel whose ray hit a sphere.
pub const HIT_SAMPLE: u8 = 255;

/// The sample value of a background pixel.
pub const MISS_SAMPLE: u8 = 0;

/// One half, through the scalar's own operations.
pub open spec fn sp_half<S: Scalar>() -> S {
    S::sp_div(S::sp_one(), S::sp_from_i64(2))
}

/// Pinhole projection constants for a raster of a given size, with a
/// fixed 30 degree vertical field of view. Immutable once constructed.
#[derive(Clone, Copy, Debug)]
pub struct CameraSettings<S: Scalar> {
    pub width: i64,
    pub height: i64,
    pub inverse_width: S,
    pub inverse_height: S,
    pub fov: S,
    pub aspect_ratio: S,
    pub angle: S,
}

impl<S: Scalar> CameraSettings<S> {
    /// The derived fields a freshly built camera carries: inverse pixel
    /// counts, aspect ratio, and the tangent of half the field of view.
    pub open spec fn sp_consistent(c: Self) -> bool {
        &&& c.inverse_width == S::sp_div(S::sp_one(), S::sp_from_i64(c.width))
        &&& c.inverse_height == S::sp_div(S::sp_one(), S::sp_from_i64(c.height))
        &&& c.fov == S::sp_from_i64(30)
        &&& c.aspect_ratio == S::sp_div(S::sp_from_i64(c.width), S::sp_from_i64(c.height))
        &&& c.angle == S::sp_tan(
            S::sp_div(S::sp_mul(S::sp_mul(S::sp_pi(), sp_half::<S>()), c.fov), S::sp_from_i64(180)),
        )
    }

    pub fn new(width: i64, height: i64) -> (c: Self)
        ensures
            c.width == width,
            c.height == height,
            Self::sp_consistent(c),
    {
        let fov = S::from_i64(30);
        CameraSettings {
            width,
            height,
            inverse_width: S::div(S::one(), S::from_i64(width)),
            inverse_height: S::div(S::one(), S::from_i64(height)),
            fov,
            aspect_ratio: S::div(S::from_i64(width), S::from_i64(height)),
            angle: S::tan(
                S::div(S::mul(S::mul(S::pi(), S::div(S::one(), S::from_i64(2))), fov), S::from_i64(180)),
            ),
        }
    }
}

/// The parameter a hit sphere contributes to the nearest-hit search:
/// the near root, or the far root where the near root lies behind the
/// ray origin (the origin is inside the sphere).
pub open spec fn sp_candidate_t<S: Scalar>(s: Sphere<S>, o: Vector3<S>, d: Vector3<S>) -> S {
    if S::sp_lt(Sphere::sp_t0(s, o, d), S::sp_zero()) {
        Sphere::sp_t1(s, o, d)
    } else {
        Sphere::sp_t0(s, o, d)
    }
}

/// One step of the nearest-hit scan: fold a sphere into the running
/// `(nearest parameter, any hit yet)` pair.
pub open spec fn sp_scan_step<S: Scalar>(
    acc: (S, bool),
    s: Sphere<S>,
    o: Vector3<S>,
    d: Vector3<S>,
) -> (S, bool) {
    if Sphere::sp_hit(s, o, d) {
        if S::sp_lt(sp_candidate_t(s, o, d), acc.0) {
            (sp_candidate_t(s, o, d), true)
        } else {
            acc
        }
    } else {
        acc
    }
}

/// The nearest-hit scan over a sphere list, front to back, seeded with
/// the scalar's greatest value and no hit.
pub open spec fn sp_scan<S: Scalar>(
    spheres: Seq<Sphere<S>>,
    o: Vector3<S>,
    d: Vector3<S>,
) -> (S, bool)
    decreases spheres.len(),
{
    if spheres.len() == 0 {
        (S::sp_max_value(), false)
    } else {
        sp_scan_step(sp_scan(spheres.drop_last(), o, d), spheres.last(), o, d)
    }
}

/// The binary sample a trace of the whole list produces.
pub open spec fn sp_trace<S: Scalar>(spheres: Seq<Sphere<S>>, o: Vector3<S>, d: Vector3<S>) -> u8 {
    if sp_scan(spheres, o, d).1 {
        HIT_SAMPLE
    } else {
        MISS_SAMPLE
    }
}

/// Scan every sphere for the nearest valid intersection of the ray
/// `origin + t * direction` and resolve the pixel to full intensity on
/// any hit, background otherwise. `depth` is a placeholder for a future
/// recursive integrator and is not read.
#[allow(unused_variables)]
pub fn trace<S: Scalar>(
    origin: Vector3<S>,
    direction: Vector3<S>,
    spheres: &Vec<Sphere<S>>,
    depth: i64,
) -> (r: u8)
    ensures
        r == sp_trace(spheres@, origin, direction),
{
    let mut t_near = S::max_value();
    let mut found_sphere = false;

    let mut i: usize = 0;
    while i < spheres.len()
        invariant
            i <= spheres@.len(),
            t_near == sp_scan(spheres@.take(i as int), origin, direction).0,
            found_sphere == sp_scan(spheres@.take(i as int), origin, direction).1,
        decreases spheres@.len() - i,
    {
        let resp = spheres[i].intersects(&origin, &direction);

        let mut t0 = resp.0;
        let t1 = resp.1;
        let intersects = resp.2;

        if intersects {
            if S::lt(t0, S::zero()) {
                t0 = t1;
            }
            if S::lt(t0, t_near) {
                t_near = t0;
                found_sphere = true;
            }
        }

        proof {
            assert(spheres@.take(i + 1).drop_last() =~= spheres@.take(i as int));
            assert(spheres@.take(i + 1).last() == spheres@[i as int]);
        }
        i = i + 1;
    }

    proof {
        assert(spheres@.take(spheres@.len() as int) =~= spheres@);
    }

    if !found_sphere {
        return MISS_SAMPLE;
    }
    HIT_SAMPLE
}

/// The camera-space x component of the primary ray through the center
/// of pixel column `x`.
pub open spec fn sp_pixel_xx<S: Scalar>(c: CameraSettings<S>, x: i64) -> S {
    S::sp_mul(
        S::sp_mul(
            S::sp_sub(
                S::sp_mul(
                    S::sp_from_i64(2),
                    S::sp_mul(S::sp_add(S::sp_from_i64(x), sp_half::<S>()), c.inverse_width),
                ),
                S::sp_one(),
            ),
            c.angle,
        ),
        c.aspect_ratio,
    )
}

/// The camera-space y component of the primary ray through the center
/// of pixel row `y`; rows grow downward, so the component is inverted.
pub open spec fn sp_pixel_yy<S: Scalar>(c: CameraSettings<S>, y: i64) -> S {
    S::sp_mul(
        S::sp_sub(
            S::sp_one(),
            S::sp_mul(
                S::sp_from_i64(2),
                S::sp_mul(S::sp_add(S::sp_from_i64(y), sp_half::<S>()), c.inverse_height),
            ),
        ),
        c.angle,
    )
}

/// The normalized primary ray direction for a pixel: the camera looks
/// down the negative z axis.
pub open spec fn sp_pixel_direction<S: Scalar>(c: CameraSettings<S>, x: i64, y: i64) -> Vector3<S> {
    Vector3::sp_normalize(
        Vector3 { x: sp_pixel_xx(c, x), y: sp_pixel_yy(c, y), z: S::sp_neg(S::sp_one()) },
    )
}

/// The sample of one pixel: the binary trace of its primary ray.
pub open spec fn sp_pixel_sample<S: Scalar>(
    c: CameraSettings<S>,
    origin: Vector3<S>,
    spheres: Seq<Sphere<S>>,
    x: i64,
    y: i64,
) -> u8 {
    sp_trace(spheres, origin, sp_pixel_direction(c, x, y))
}

/// Render one frame: one byte per pixel, row-major with the top row
/// first, each byte the binary sample of that pixel's primary ray.
pub fn render_image<S: Scalar>(
    camera: &CameraSettings<S>,
    origin: Vector3<S>,
    spheres: &Vec<Sphere<S>>,
) -> (buf: Vec<u8>)
    requires
        0 < camera.width,
        0 < camera.height,
        camera.width * camera.height <= usize::MAX,
    ensures
        buf@.len() == camera.width * camera.height,
        forall|yi: int, xi: int|
            0 <= yi < camera.height && 0 <= xi < camera.width ==> #[trigger] buf@[yi * camera.width
                + xi] == sp_pixel_sample(*camera, origin, spheres@, xi as i64, yi as i64),
{
    let mut buf: Vec<u8> = Vec::new();
    let mut y: i64 = 0;
    while y < camera.height
        invariant
            0 <= y <= camera.height,
            0 < camera.width,
            camera.width * camera.height <= usize::MAX,
            buf@.len() == y * camera.width,
            forall|yi: int, xi: int|
                0 <= yi < y && 0 <= xi < camera.width ==> #[trigger] buf@[yi * camera.width + xi]
                    == sp_pixel_sample(*camera, origin, spheres@, xi as i64, yi as i64),
        decreases camera.height - y,
    {
        proof {
            vstd::arithmetic::mul::lemma_mul_inequality(y + 1, camera.height as int, camera.width as int);
            vstd::arithmetic::mul::lemma_mul_is_commutative(camera.height as int, camera.width as int);
        }
        let mut x: i64 = 0;
        while x < camera.width
            invariant
                0 <= x <= camera.width,
                0 <= y < camera.height,
                camera.width * camera.height <= usize::MAX,
                (y + 1) * camera.width <= camera.width * camera.height,
                buf@.len() == y * camera.width + x,
                forall|yi: int, xi: int|
                    0 <= yi < y && 0 <= xi < camera.width ==> #[trigger] buf@[yi * camera.width
                        + xi] == sp_pixel_sample(*camera, origin, spheres@, xi as i64, yi as i64),
                forall|xi: int|
                    0 <= xi < x ==> #[trigger] buf@[y * camera.width + xi] == sp_pixel_sample(
                        *camera,
                        origin,
                        spheres@,
                        xi as i64,
                        y as i64,
                    ),
            decreases camera.width - x,
        {
            let xx = S::mul(
                S::mul(
                    S::sub(
                        S::mul(
                            S::from_i64(2),
                            S::mul(
                                S::add(S::from_i64(x), S::div(S::one(), S::from_i64(2))),
                                camera.inverse_width,
                            ),
                        ),
                        S::one(),
                    ),
                    camera.angle,
                ),
                camera.aspect_ratio,
            );
            let yy = S::mul(
                S::sub(
                    S::one(),
                    S::mul(
                        S::from_i64(2),
                        S::mul(
                            S::add(S::from_i64(y), S::div(S::one(), S::from_i64(2))),
                            camera.inverse_height,
                        ),
                    ),
                ),
                camera.angle,
            );

            let mut ray_dir = Vector3::new(xx, yy, S::neg(S::one()));
            ray_dir.normalize();

            let sample = trace(origin, ray_dir, spheres, 0);
            buf.push(sample);

            proof {
                assert forall|yi: int, xi: int|
                    0 <= yi < y && 0 <= xi < camera.width implies #[trigger] buf@[yi * camera.width
                    + xi] == sp_pixel_sample(
                    *camera,
                    origin,
                    spheres@,
                    xi as i64,
                    yi as i64,
                ) by {
                    assert(yi * camera.width + xi < y * camera.width) by (nonlinear_arith)
                        requires
                            0 <= yi < y && 0 <= xi < camera.width,
                    ;
                }
            }
            x = x + 1;
        }
        proof {
            assert((y + 1) * camera.width == y * camera.width + camera.width) by (nonlinear_arith);
        }
        y = y + 1;
    }
    proof {
        vstd::arithmetic::mul::lemma_mul_is_commutative(camera.height as int, camera.width as int);
    }
    buf
}

/// Coordinate of grid slot `idx` out of `n` along one axis:
/// `idx / n * 200 - 100`, spreading the grid over a 200-wide cube
/// centered on the origin.
pub open spec fn sp_grid_coord<S: Scalar>(idx: i64, n: i64) -> S {
    S::sp_sub(
        S::sp_mul(S::sp_div(S::sp_from_i64(idx), S::sp_from_i64(n)), S::sp_from_i64(200)),
        S::sp_from_i64(100),
    )
}

/// Radius of a grid sphere: 2 where its x coordinate is positive, 1
/// otherwise.
pub open spec fn sp_grid_radius<S: Scalar>(x: S) -> S {
    if S::sp_lt(S::sp_zero(), x) {
        S::sp_from_i64(2)
    } else {
        S::sp_from_i64(1)
    }
}

/// The sphere in grid slot `(i, j, k)` of an `n`-cube has the slot's
/// coordinates as its center and the radius its x coordinate dictates.
pub open spec fn sp_grid_sphere_matches<S: Scalar>(
    s: Sphere<S>,
    i: i64,
    j: i64,
    k: i64,
    n: i64,
) -> bool {
    &&& Sphere::sp_center(s) == (Vector3 {
        x: sp_grid_coord::<S>(i, n),
        y: sp_grid_coord::<S>(j, n),
        z: sp_grid_coord::<S>(k, n),
    })
    &&& Sphere::sp_radius(s) == sp_grid_radius::<S>(sp_grid_coord::<S>(i, n))
}

/// Build the reference procedural test scene: an `n x n x n` grid of
/// spheres over a `[-100, 100]` cube per axis, pushed in row-major
/// `(i, j, k)` order.
pub fn build_sphere_grid<S: Scalar>(n: i64) -> (r: Vec<Sphere<S>>)
    requires
        0 < n,
        n * n * n <= usize::MAX,
    ensures
        r@.len() == n * n * n,
        forall|i: int, j: int, k: int|
            0 <= i < n && 0 <= j < n && 0 <= k < n ==> sp_grid_sphere_matches(
                #[trigger] r@[(i * n + j) * n + k],
                i as i64,
                j as i64,
                k as i64,
                n,
            ),
{
    let ghost gn: int = n as int;
    let mut r: Vec<Sphere<S>> = Vec::new();
    let mut i: i64 = 0;
    while i < n
        invariant
            0 < n,
            0 <= i <= n,
            r@.len() == i * (gn * gn),
            gn == n,
            forall|i1: int, j1: int, k1: int|
                0 <= i1 < i && 0 <= j1 < gn && 0 <= k1 < gn ==> sp_grid_sphere_matches(
                    #[trigger] r@[(i1 * gn + j1) * gn + k1],
                    i1 as i64,
                    j1 as i64,
                    k1 as i64,
                    n,
                ),
        decreases n - i,
    {
        proof {
            assert((i * gn + 0) * gn == i * (gn * gn)) by (nonlinear_arith);
        }
        let mut j: i64 = 0;
        while j < n
            invariant
                0 < n,
                0 <= i < n,
                0 <= j <= n,
                gn == n,
                r@.len() == (i * gn + j) * gn,
                forall|i1: int, j1: int, k1: int|
                    0 <= i1 < i && 0 <= j1 < gn && 0 <= k1 < gn ==> sp_grid_sphere_matches(
                        #[trigger] r@[(i1 * gn + j1) * gn + k1],
                        i1 as i64,
                        j1 as i64,
                        k1 as i64,
                        n,
                    ),
                forall|j1: int, k1: int|
                    0 <= j1 < j && 0 <= k1 < gn ==> sp_grid_sphere_matches(
                        #[trigger] r@[(i * gn + j1) * gn + k1],
                        i as i64,
                        j1 as i64,
                        k1 as i64,
                        n,
                    ),
            decreases n - j,
        {
            let mut k: i64 = 0;
            while k < n
                invariant
                    0 < n,
                    0 <= i < n,
                    0 <= j < n,
                    0 <= k <= n,
                    gn == n,
                    r@.len() == (i * gn + j) * gn + k,
                    forall|i1: int, j1: int, k1: int|
                        0 <= i1 < i && 0 <= j1 < gn && 0 <= k1 < gn ==> sp_grid_sphere_matches(
                            #[trigger] r@[(i1 * gn + j1) * gn + k1],
                            i1 as i64,
                            j1 as i64,
                            k1 as i64,
                            n,
                        ),
                    forall|j1: int, k1: int|
                        0 <= j1 < j && 0 <= k1 < gn ==> sp_grid_sphere_matches(
                            #[trigger] r@[(i * gn + j1) * gn + k1],
                            i as i64,
                            j1 as i64,
                            k1 as i64,
                            n,
                        ),
                    forall|k1: int|
                        0 <= k1 < k ==> sp_grid_sphere_matches(
                            #[trigger] r@[(i * gn + j) * gn + k1],
                            i as i64,
                            j as i64,
                            k1 as i64,
                            n,
                        ),
                decreases n - k,
            {
                let x = S::sub(
                    S::mul(S::div(S::from_i64(i), S::from_i64(n)), S::from_i64(200)),
                    S::from_i64(100),
                );
                let y = S::sub(
                    S::mul(S::div(S::from_i64(j), S::from_i64(n)), S::from_i64(200)),
                    S::from_i64(100),
                );
                let z = S::sub(
                    S::mul(S::div(S::from_i64(k), S::from_i64(n)), S::from_i64(200)),
                    S::from_i64(100),
                );
                let mut radius = S::from_i64(1);
                if S::lt(S::zero(), x) {
                    radius = S::from_i64(2);
                }
                r.push(Sphere::new(Vector3::new(x, y, z), radius));
                proof {
                    assert forall|i1: int, j1: int, k1: int|
                        0 <= i1 < i && 0 <= j1 < gn && 0 <= k1 < gn implies sp_grid_sphere_matches(
                        #[trigger] r@[(i1 * gn + j1) * gn + k1],
                        i1 as i64,
                        j1 as i64,
                        k1 as i64,
                        n,
                    ) by {
                        assert((i1 * gn + j1) * gn + k1 < (i * gn + j) * gn + k) by (nonlinear_arith)
                            requires
                                0 <= i1 < i && 0 <= j1 < gn && 0 <= k1 < gn && 0 <= j && 0 <= k,
                        ;
                    }
                    assert forall|j1: int, k1: int|
                        0 <= j1 < j && 0 <= k1 < gn implies sp_grid_sphere_matches(
                        #[trigger] r@[(i * gn + j1) * gn + k1],
                        i as i64,
                        j1 as i64,
                        k1 as i64,
                        n,
                    ) by {
                        assert((i * gn + j1) * gn + k1 < (i * gn + j) * gn + k) by (nonlinear_arith)
                            requires
                                0 <= j1 < j && 0 <= k1 < gn && 0 <= k && 0 <= i,
                        ;
                    }
                }
                k = k + 1;
            }
            proof {
                assert((i * gn + j) * gn + gn == (i * gn + (j + 1)) * gn) by (nonlinear_arith);
            }
            j = j + 1;
        }
        proof {
            assert((i * gn + gn) * gn == (i + 1) * (gn * gn)) by (nonlinear_arith);
        }
        i = i + 1;
    }
    proof {
        assert(gn * (gn * gn) == gn * gn * gn) by (nonlinear_arith);
    }
    r
}

/// A ray that points away from every sphere in the list — the center of
/// each projects strictly behind the origin — hits nothing: the trace
/// of such a ray is the background sample.
pub proof fn lemma_trace_away_is_background<S: Scalar>(
    spheres: Seq<Sphere<S>>,
    o: Vector3<S>,
    d: Vector3<S>,
)
    requires
        forall|i: int|
            0 <= i < spheres.len() ==> S::sp_lt(
                Sphere::sp_tca(#[trigger] spheres[i], o, d),
                S::sp_zero(),
            ),
    ensures
        !sp_scan(spheres, o, d).1,
        sp_scan(spheres, o, d).0 == S::sp_max_value(),
        sp_trace(spheres, o, d) == MISS_SAMPLE,
    decreases spheres.len(),
{
    if spheres.len() > 0 {
        lemma_trace_away_is_background(spheres.drop_last(), o, d);
        assert(!Sphere::sp_hit(spheres.last(), o, d));
    }
}

} // verus!
