//! Selection of the point correspondences a conversion is fitted to: the
//! sampled pixels whose back-projected rays point in front of the camera.

use vstd::prelude::*;

use crate::float_bits::{is_positive, is_positive_bits};

verus! {

/// A pixel position (coordinates as `f64` bit patterns).
#[derive(Debug, Clone, Copy, PartialEq, Eq, Structural)]
pub struct Point2 {
    pub x: u64,
    pub y: u64,
}

/// A point or ray direction in camera coordinates (coordinates as `f64` bit
/// patterns).
#[derive(Debug, Clone, Copy, PartialEq, Eq, Structural)]
pub struct Point3 {
    pub x: u64,
    pub y: u64,
    pub z: u64,
}

/// The back-projection of a pixel succeeded and its ray has `z > 0`.
pub open spec fn in_front(ray: Option<Point3>) -> bool {
    ray matches Some(p) && is_positive_bits(p.z)
}

/// The pairs (pixel, ray) of the pixels whose back-projection is in front of
/// the camera, in the order of the pixels.
pub open spec fn front_points(pixels: Seq<Point2>, rays: Seq<Option<Point3>>) -> Seq<(Point2, Point3)>
    decreases pixels.len(),
{
    if pixels.len() == 0 {
        Seq::empty()
    } else {
        let n = pixels.len() - 1;
        let rest = front_points(pixels.take(n), rays.take(n));
        if in_front(rays[n]) {
            rest.push((pixels[n], rays[n]->Some_0))
        } else {
            rest
        }
    }
}

/// Keeps the sampled pixels whose back-projection (`rays[i]` for
/// `pixels[i]`, `None` where it failed) lies in front of the camera, with
/// their rays, in order.
pub fn select_points_in_front(pixels: &Vec<Point2>, rays: &Vec<Option<Point3>>) -> (r: (
    Vec<Point2>,
    Vec<Point3>,
))
    requires
        pixels@.len() == rays@.len(),
    ensures
        r.0@.len() == r.1@.len(),
        r.0@ == front_points(pixels@, rays@).map_values(|q: (Point2, Point3)| q.0),
        r.1@ == front_points(pixels@, rays@).map_values(|q: (Point2, Point3)| q.1),
{
    let n = pixels.len();
    let mut kept_2d: Vec<Point2> = Vec::new();
    let mut kept_3d: Vec<Point3> = Vec::new();
    let mut i: usize = 0;
    while i < n
        invariant
            n == pixels@.len(),
            n == rays@.len(),
            i <= n,
            kept_2d@ == front_points(pixels@.take(i as int), rays@.take(i as int)).map_values(
                |q: (Point2, Point3)| q.0,
            ),
            kept_3d@ == front_points(pixels@.take(i as int), rays@.take(i as int)).map_values(
                |q: (Point2, Point3)| q.1,
            ),
        decreases n - i,
    {
        let ghost prev = front_points(pixels@.take(i as int), rays@.take(i as int));
        proof {
            let p = pixels@.take(i + 1);
            let q = rays@.take(i + 1);
            assert(p.take(i as int) =~= pixels@.take(i as int));
            assert(q.take(i as int) =~= rays@.take(i as int));
            assert(p[i as int] == pixels@[i as int]);
            assert(q[i as int] == rays@[i as int]);
        }
        match rays[i] {
            Some(p3) => {
                if is_positive(p3.z) {
                    kept_2d.push(pixels[i]);
                    kept_3d.push(p3);
                }
            },
            None => {},
        }
        i = i + 1;
        proof {
            let now = front_points(pixels@.take(i as int), rays@.take(i as int));
            assert(kept_2d@ =~= now.map_values(|q: (Point2, Point3)| q.0));
            assert(kept_3d@ =~= now.map_values(|q: (Point2, Point3)| q.1));
        }
    }
    assert(pixels@.take(n as int) =~= pixels@);
    assert(rays@.take(n as int) =~= rays@);
    (kept_2d, kept_3d)
}

/// Every kept correspondence is one of the inputs, with a successful
/// back-projection whose `z` is greater than zero.
pub proof fn lemma_front_points_sound(pixels: Seq<Point2>, rays: Seq<Option<Point3>>, i: int)
    requires
        pixels.len() == rays.len(),
        0 <= i < front_points(pixels, rays).len(),
    ensures
        is_positive_bits(front_points(pixels, rays)[i].1.z),
        exists|j: int|
            0 <= j < pixels.len() && rays[j] == Some(front_points(pixels, rays)[i].1)
                && pixels[j] == front_points(pixels, rays)[i].0,
    decreases pixels.len(),
{
    let n = pixels.len() - 1;
    let rest = front_points(pixels.take(n), rays.take(n));
    if i < rest.len() {
        lemma_front_points_sound(pixels.take(n), rays.take(n), i);
        let j = choose|j: int|
            0 <= j < pixels.take(n).len() && rays.take(n)[j] == Some(rest[i].1) && pixels.take(n)[j]
                == rest[i].0;
        assert(rays[j] == rays.take(n)[j]);
        assert(pixels[j] == pixels.take(n)[j]);
    } else {
        assert(rays[n] == Some(front_points(pixels, rays)[i].1));
    }
}

/// Every input whose back-projection lies in front of the camera is kept.
pub proof fn lemma_front_points_complete(pixels: Seq<Point2>, rays: Seq<Option<Point3>>, j: int)
    requires
        pixels.len() == rays.len(),
        0 <= j < pixels.len(),
        in_front(rays[j]),
    ensures
        front_points(pixels, rays).contains((pixels[j], rays[j]->Some_0)),
    decreases pixels.len(),
{
    let n = pixels.len() - 1;
    let rest = front_points(pixels.take(n), rays.take(n));
    if j < n {
        lemma_front_points_complete(pixels.take(n), rays.take(n), j);
        let k = choose|k: int| 0 <= k < rest.len() && rest[k] == (pixels[j], rays[j]->Some_0);
        if in_front(rays[n]) {
            assert(front_points(pixels, rays)[k] == rest[k]);
        }
    } else {
        assert(front_points(pixels, rays)[rest.len() as int] == (pixels[j], rays[j]->Some_0));
    }
}

/// Exactly the correspondences whose back-projection succeeded and whose
/// ray has `z > 0` are kept, whatever the ray's `x` and `y`: an `f64` is
/// greater than zero exactly when its bit pattern lies in
/// `1 ..= 0x7FF0_0000_0000_0000` (the positive subnormals, normals and
/// positive infinity).  Every kept pair is an input pair with such a ray,
/// and every input pair with such a ray is kept.
pub proof fn lemma_kept_exactly_when_z_positive(pixels: Seq<Point2>, rays: Seq<Option<Point3>>)
    requires
        pixels.len() == rays.len(),
    ensures
        forall|r: Option<Point3>|
            #[trigger] in_front(r) <==> (r matches Some(q) && 0 < q.z && q.z <= 0x7FF0_0000_0000_0000u64),
        forall|j: int|
            0 <= j < pixels.len() && (rays[j] matches Some(q) && 0 < q.z && q.z <= 0x7FF0_0000_0000_0000u64)
                ==> #[trigger] front_points(pixels, rays).contains((pixels[j], rays[j]->Some_0)),
        forall|i: int|
            0 <= i < front_points(pixels, rays).len() ==> {
                let kept = #[trigger] front_points(pixels, rays)[i];
                &&& 0 < kept.1.z && kept.1.z <= 0x7FF0_0000_0000_0000u64
                &&& exists|j: int| 0 <= j < pixels.len() && pixels[j] == kept.0 && rays[j] == Some(kept.1)
            },
{
    assert forall|j: int|
        0 <= j < pixels.len() && (rays[j] matches Some(q) && 0 < q.z && q.z <= 0x7FF0_0000_0000_0000u64)
            implies #[trigger] front_points(pixels, rays).contains((pixels[j], rays[j]->Some_0)) by {
        lemma_front_points_complete(pixels, rays, j);
    }
    assert forall|i: int| 0 <= i < front_points(pixels, rays).len() implies {
        let kept = #[trigger] front_points(pixels, rays)[i];
        &&& 0 < kept.1.z && kept.1.z <= 0x7FF0_0000_0000_0000u64
        &&& exists|j: int| 0 <= j < pixels.len() && pixels[j] == kept.0 && rays[j] == Some(kept.1)
    } by {
        lemma_front_points_sound(pixels, rays, i);
    }
}

} // verus!
