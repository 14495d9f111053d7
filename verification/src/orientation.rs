//! Rotations, and which face of a rotated die is uppermost.
//!
//! A rotation is held as a quaternion with integer components. Rotating a
//! vector `v` by a quaternion `q` is the product `q v q*`; for a quaternion
//! of squared length `n` this is the rotated vector stretched by `n`. The
//! stretch is the same for every vector, so it does not change which of
//! several rotated vectors reaches highest: any positive multiple of a unit
//! quaternion, rounded to integers, can be handed in without normalizing.

use crate::face::{Direction, Face, Normal, FACES};
use vstd::prelude::*;

verus! {

/// A quaternion with unbounded integer components: the mathematical value
/// of an [`Orientation`].
pub struct Quat {
    pub w: int,
    pub x: int,
    pub y: int,
    pub z: int,
}

/// The orientation of a die: the quaternion `w + x i + y j + z k`.
///
/// Every positive multiple of a quaternion stands for the same rotation.
/// The zero quaternion stands for no rotation at all; it is accepted, and
/// leaves every rotated vector at height zero.
#[derive(Clone, Copy, Debug, PartialEq, Eq, Structural)]
pub struct Orientation {
    pub x: i32,
    pub y: i32,
    pub z: i32,
    pub w: i32,
}

impl View for Orientation {
    type V = Quat;

    open spec fn view(&self) -> Quat {
        Quat { w: self.w as int, x: self.x as int, y: self.y as int, z: self.z as int }
    }
}

/// The product of two quaternions.
pub open spec fn hamilton(a: Quat, b: Quat) -> Quat {
    Quat {
        w: a.w * b.w - a.x * b.x - a.y * b.y - a.z * b.z,
        x: a.w * b.x + a.x * b.w + a.y * b.z - a.z * b.y,
        y: a.w * b.y - a.x * b.z + a.y * b.w + a.z * b.x,
        z: a.w * b.z + a.x * b.y - a.y * b.x + a.z * b.w,
    }
}

/// The conjugate of a quaternion.
pub open spec fn conjugate(q: Quat) -> Quat {
    Quat { w: q.w, x: -q.x, y: -q.y, z: -q.z }
}

/// The squared length of a quaternion.
pub open spec fn norm_sq(q: Quat) -> int {
    q.w * q.w + q.x * q.x + q.y * q.y + q.z * q.z
}

/// A vector taken as a quaternion without real part.
pub open spec fn pure(v: Direction) -> Quat {
    Quat { w: 0, x: v.x, y: v.y, z: v.z }
}

/// The vector `q v q*`: `v` rotated by `q` and stretched by `norm_sq(q)`.
pub open spec fn rotated(q: Quat, v: Direction) -> Direction {
    let r = hamilton(hamilton(q, pure(v)), conjugate(q));
    Direction { x: r.x, y: r.y, z: r.z }
}

/// How high `v` reaches after the rotation `q`: the vertical component of
/// [`rotated`].
pub open spec fn height(q: Quat, v: Direction) -> int {
    rotated(q, v).y
}

/// How high the normal of `face` reaches after the rotation `q`.
pub open spec fn face_height(q: Quat, face: Face) -> int {
    height(q, face.spec_normal()@)
}

/// Whether `face` is the uppermost face of a die rotated by `q`: no normal
/// reaches higher than its own, and among the faces whose normals reach as
/// high it comes first in the table.
pub open spec fn is_uppermost(q: Quat, face: Face) -> bool {
    forall|other: Face|
        {
            &&& #[trigger] face_height(q, other) <= face_height(q, face)
            &&& other.spec_index() < face.spec_index() ==> face_height(q, other) < face_height(
                q,
                face,
            )
        }
}

/// The uppermost face of a die rotated by `q`. There is exactly one, by
/// [`lemma_uppermost`].
pub open spec fn uppermost(q: Quat) -> Face {
    choose|face: Face| is_uppermost(q, face)
}

/// The vector that points straight up with length `n`.
pub open spec fn straight_up(n: int) -> Direction {
    Direction { x: 0, y: n, z: 0 }
}

/// The product of two integers within bounds is within the product of the
/// bounds.
proof fn lemma_product_bound(a: int, b: int, ma: int, mb: int)
    by (nonlinear_arith)
    requires
        -ma <= a <= ma,
        -mb <= b <= mb,
    ensures
        -(ma * mb) <= a * b <= ma * mb,
{
}

/// A component of a quaternion times a component of a normal.
fn scale(c: i32, n: i8) -> (p: i128)
    ensures
        p == c * n,
        -0x40_0000_0000 <= p <= 0x40_0000_0000,
{
    proof {
        lemma_product_bound(c as int, n as int, 0x8000_0000, 0x80);
    }
    (c as i128) * (n as i128)
}

/// A component of `q v` times a component of `q`.
fn weigh(p: i128, c: i32) -> (r: i128)
    requires
        -0x100_0000_0000 <= p <= 0x100_0000_0000,
    ensures
        r == p * c,
        -0x8000_0000_0000_0000_0000 <= r <= 0x8000_0000_0000_0000_0000,
{
    proof {
        lemma_product_bound(p as int, c as int, 0x100_0000_0000, 0x8000_0000);
    }
    p * (c as i128)
}

impl Orientation {
    /// The orientation `w + x i + y j + z k`.
    pub fn from_xyzw(x: i32, y: i32, z: i32, w: i32) -> (q: Orientation)
        ensures
            q == (Orientation { x, y, z, w }),
    {
        Orientation { x, y, z, w }
    }

    /// The orientation of a die that has not been turned.
    pub fn identity() -> (q: Orientation)
        ensures
            q@ == (Quat { w: 1, x: 0, y: 0, z: 0 }),
    {
        Orientation { x: 0, y: 0, z: 0, w: 1 }
    }

    /// How high the local vector `n` reaches once the die has this
    /// orientation: the vertical component of `n` rotated into the world,
    /// times the squared length of the quaternion.
    pub fn height_of(&self, n: &Normal) -> (h: i128)
        ensures
            h == height(self@, n@),
    {
        // q v, the first of the two products
        let pw: i128 = 0 - scale(self.x, n.x) - scale(self.y, n.y) - scale(self.z, n.z);
        let px: i128 = scale(self.w, n.x) + scale(self.y, n.z) - scale(self.z, n.y);
        let py: i128 = scale(self.w, n.y) - scale(self.x, n.z) + scale(self.z, n.x);
        let pz: i128 = scale(self.w, n.z) + scale(self.x, n.y) - scale(self.y, n.x);
        // the j part of (q v) q*
        let h: i128 = weigh(py, self.w) + weigh(px, self.z) - weigh(pw, self.y) - weigh(
            pz,
            self.x,
        );
        proof {
            // the conjugate enters the second product with three signs turned
            let q = self@;
            assert(pw * (-q.y) == -(pw * q.y)) by (nonlinear_arith);
            assert(px * (-q.z) == -(px * q.z)) by (nonlinear_arith);
            assert(pz * (-q.x) == -(pz * q.x)) by (nonlinear_arith);
        }
        h
    }

    /// The face that is uppermost once the die has this orientation.
    ///
    /// The normal of each face is rotated into the world, and the face whose
    /// normal reaches highest wins; where several reach equally high, the
    /// one that comes first in the table does.
    pub fn uppermost_face(&self) -> (face: Face)
        ensures
            face == uppermost(self@),
            is_uppermost(self@, face),
    {
        let mut best: Face = Face::One;
        let mut best_height: i128 = self.height_of(&Face::One.normal());
        let mut i: usize = 1;
        while i < FACES
            invariant
                1 <= i <= FACES,
                best.spec_index() < i,
                best_height == face_height(self@, best),
                forall|other: Face|
                    other.spec_index() < i ==> #[trigger] face_height(self@, other)
                        <= best_height,
                forall|other: Face|
                    other.spec_index() < best.spec_index() ==> #[trigger] face_height(
                        self@,
                        other,
                    ) < best_height,
            decreases FACES - i,
        {
            let face: Face = Face::from_index(i).unwrap();
            let h: i128 = self.height_of(&face.normal());
            if h > best_height {
                best = face;
                best_height = h;
            }
            i += 1;
        }
        proof {
            lemma_uppermost(self@);
        }
        best
    }
}

/// The heights of the six normals, written out: the second row of the
/// rotation matrix of `q`, stretched by `norm_sq(q)`, and its negation.
pub proof fn lemma_face_heights(q: Quat)
    by (nonlinear_arith)
    ensures
        face_height(q, Face::One) == 2 * (q.x * q.y + q.w * q.z),
        face_height(q, Face::Two) == -(q.w * q.w - q.x * q.x + q.y * q.y - q.z * q.z),
        face_height(q, Face::Three) == 2 * (q.y * q.z - q.w * q.x),
        face_height(q, Face::Four) == -(2 * (q.y * q.z - q.w * q.x)),
        face_height(q, Face::Five) == q.w * q.w - q.x * q.x + q.y * q.y - q.z * q.z,
        face_height(q, Face::Six) == -(2 * (q.x * q.y + q.w * q.z)),
{
}

/// Two squares that add up to nothing are both nothing.
proof fn lemma_squares_vanish(a: int, b: int)
    by (nonlinear_arith)
    requires
        a * a + b * b == 0,
    ensures
        a == 0,
        b == 0,
{
}

/// At most one face is uppermost.
pub proof fn lemma_uppermost_is_unique(q: Quat, a: Face, b: Face)
    requires
        is_uppermost(q, a),
        is_uppermost(q, b),
    ensures
        a == b,
{
    assert(face_height(q, a) <= face_height(q, b));
    assert(face_height(q, b) <= face_height(q, a));
}

/// The later of two faces where its normal reaches strictly higher, else
/// the earlier.
spec fn higher_of(q: Quat, best: Face, next: Face) -> Face {
    if face_height(q, next) > face_height(q, best) {
        next
    } else {
        best
    }
}

/// Every rotation has exactly one uppermost face: [`uppermost`] is that
/// face, and no other face satisfies [`is_uppermost`].
pub proof fn lemma_uppermost(q: Quat)
    ensures
        is_uppermost(q, uppermost(q)),
        forall|face: Face| is_uppermost(q, face) ==> face == uppermost(q),
{
    let b2 = higher_of(q, Face::One, Face::Two);
    let b3 = higher_of(q, b2, Face::Three);
    let b4 = higher_of(q, b3, Face::Four);
    let b5 = higher_of(q, b4, Face::Five);
    let b6 = higher_of(q, b5, Face::Six);
    assert forall|other: Face|
        {
            &&& #[trigger] face_height(q, other) <= face_height(q, b6)
            &&& other.spec_index() < b6.spec_index() ==> face_height(q, other) < face_height(
                q,
                b6,
            )
        } by {
        match other {
            Face::One => {},
            Face::Two => {},
            Face::Three => {},
            Face::Four => {},
            Face::Five => {},
            Face::Six => {},
        }
    }
    assert(is_uppermost(q, b6));
    assert forall|face: Face| is_uppermost(q, face) implies face == uppermost(q) by {
        lemma_uppermost_is_unique(q, face, uppermost(q));
    }
}

/// A face whose normal the rotation turns straight up is the uppermost
/// face, for each of the six faces and every rotation that does so.
pub proof fn lemma_face_turned_up_is_uppermost(q: Quat, face: Face)
    requires
        norm_sq(q) > 0,
        rotated(q, face.spec_normal()@) == straight_up(norm_sq(q)),
    ensures
        uppermost(q) == face,
        is_uppermost(q, face),
{
    lemma_turned_up_wins(q, face);
    lemma_uppermost(q);
}

/// The face whose normal reaches as high as the whole length of the
/// quaternion allows leaves the four faces beside it level and the face
/// across it below.
proof fn lemma_turned_up_wins(q: Quat, face: Face)
    requires
        norm_sq(q) > 0,
        face_height(q, face) == norm_sq(q),
    ensures
        is_uppermost(q, face),
{
    lemma_face_heights(q);
    let n = norm_sq(q);
    let hx = 2 * (q.x * q.y + q.w * q.z);
    let hy = q.w * q.w - q.x * q.x + q.y * q.y - q.z * q.z;
    let hz = 2 * (q.y * q.z - q.w * q.x);
    assert(face_height(q, face) == n);
    // The normal of `face` has all of the length there is, which leaves
    // none for the two axes across it.
    match face {
        Face::One => {
            assert((q.x - q.y) * (q.x - q.y) + (q.w - q.z) * (q.w - q.z) == 0)
                by (nonlinear_arith)
                requires
                    2 * (q.x * q.y + q.w * q.z) == q.w * q.w + q.x * q.x + q.y * q.y + q.z * q.z,
            ;
            lemma_squares_vanish(q.x - q.y, q.w - q.z);
            assert(hy == 0 && hz == 0) by (nonlinear_arith)
                requires
                    q.x == q.y,
                    q.w == q.z,
                    hy == q.w * q.w - q.x * q.x + q.y * q.y - q.z * q.z,
                    hz == 2 * (q.y * q.z - q.w * q.x),
            ;
        },
        Face::Six => {
            assert((q.x + q.y) * (q.x + q.y) + (q.w + q.z) * (q.w + q.z) == 0)
                by (nonlinear_arith)
                requires
                    -(2 * (q.x * q.y + q.w * q.z)) == q.w * q.w + q.x * q.x + q.y * q.y + q.z
                        * q.z,
            ;
            lemma_squares_vanish(q.x + q.y, q.w + q.z);
            assert(hy == 0 && hz == 0) by (nonlinear_arith)
                requires
                    q.x == -q.y,
                    q.w == -q.z,
                    hy == q.w * q.w - q.x * q.x + q.y * q.y - q.z * q.z,
                    hz == 2 * (q.y * q.z - q.w * q.x),
            ;
        },
        Face::Three => {
            assert((q.y - q.z) * (q.y - q.z) + (q.w + q.x) * (q.w + q.x) == 0)
                by (nonlinear_arith)
                requires
                    2 * (q.y * q.z - q.w * q.x) == q.w * q.w + q.x * q.x + q.y * q.y + q.z * q.z,
            ;
            lemma_squares_vanish(q.y - q.z, q.w + q.x);
            assert(hy == 0 && hx == 0) by (nonlinear_arith)
                requires
                    q.y == q.z,
                    q.w == -q.x,
                    hy == q.w * q.w - q.x * q.x + q.y * q.y - q.z * q.z,
                    hx == 2 * (q.x * q.y + q.w * q.z),
            ;
        },
        Face::Four => {
            assert((q.y + q.z) * (q.y + q.z) + (q.w - q.x) * (q.w - q.x) == 0)
                by (nonlinear_arith)
                requires
                    -(2 * (q.y * q.z - q.w * q.x)) == q.w * q.w + q.x * q.x + q.y * q.y + q.z
                        * q.z,
            ;
            lemma_squares_vanish(q.y + q.z, q.w - q.x);
            assert(hy == 0 && hx == 0) by (nonlinear_arith)
                requires
                    q.y == -q.z,
                    q.w == q.x,
                    hy == q.w * q.w - q.x * q.x + q.y * q.y - q.z * q.z,
                    hx == 2 * (q.x * q.y + q.w * q.z),
            ;
        },
        Face::Five => {
            assert(q.x * q.x + q.z * q.z == 0) by (nonlinear_arith)
                requires
                    q.w * q.w - q.x * q.x + q.y * q.y - q.z * q.z == q.w * q.w + q.x * q.x + q.y
                        * q.y + q.z * q.z,
            ;
            lemma_squares_vanish(q.x, q.z);
            assert(hx == 0 && hz == 0) by (nonlinear_arith)
                requires
                    q.x == 0,
                    q.z == 0,
                    hx == 2 * (q.x * q.y + q.w * q.z),
                    hz == 2 * (q.y * q.z - q.w * q.x),
            ;
        },
        Face::Two => {
            assert(q.w * q.w + q.y * q.y == 0) by (nonlinear_arith)
                requires
                    -(q.w * q.w - q.x * q.x + q.y * q.y - q.z * q.z) == q.w * q.w + q.x * q.x
                        + q.y * q.y + q.z * q.z,
            ;
            lemma_squares_vanish(q.w, q.y);
            assert(hx == 0 && hz == 0) by (nonlinear_arith)
                requires
                    q.w == 0,
                    q.y == 0,
                    hx == 2 * (q.x * q.y + q.w * q.z),
                    hz == 2 * (q.y * q.z - q.w * q.x),
            ;
        },
    }
    assert forall|other: Face|
        {
            &&& #[trigger] face_height(q, other) <= face_height(q, face)
            &&& other.spec_index() < face.spec_index() ==> face_height(q, other) < face_height(
                q,
                face,
            )
        } by {
        match other {
            Face::One => {},
            Face::Two => {},
            Face::Three => {},
            Face::Four => {},
            Face::Five => {},
            Face::Six => {},
        }
    }
}

/// The orientation of a die that has not been turned, at any scale, shows
/// face five: the face whose normal points up in the die's own frame.
pub proof fn lemma_identity_shows_five(scale: int)
    requires
        scale != 0,
    ensures
        uppermost(Quat { w: scale, x: 0, y: 0, z: 0 }) == Face::Five,
{
    let q = Quat { w: scale, x: 0, y: 0, z: 0 };
    assert(scale * scale > 0) by (nonlinear_arith)
        requires
            scale != 0,
    ;
    lemma_face_heights(q);
    lemma_face_turned_up_is_uppermost(q, Face::Five);
}

/// Where the normals of two faces reach equally high, the face that comes
/// later in the table is never the one resolved; and where they are the only
/// two that reach highest, the earlier one is.
pub proof fn lemma_tie_goes_to_lower_face(q: Quat, lower: Face, higher: Face)
    requires
        lower.spec_index() < higher.spec_index(),
        face_height(q, lower) == face_height(q, higher),
    ensures
        uppermost(q) != higher,
        (forall|other: Face|
            other != lower && other != higher ==> #[trigger] face_height(q, other) < face_height(
                q,
                lower,
            )) ==> uppermost(q) == lower,
{
    lemma_uppermost(q);
    assert(!(face_height(q, lower) < face_height(q, higher)));
    if forall|other: Face|
        other != lower && other != higher ==> #[trigger] face_height(q, other) < face_height(
            q,
            lower,
        ) {
        assert(is_uppermost(q, lower));
    }
}

/// The quaternion `q` with every component multiplied by `k`.
pub open spec fn stretched(q: Quat, k: int) -> Quat {
    Quat { w: k * q.w, x: k * q.x, y: k * q.y, z: k * q.z }
}

/// Stretching both factors of a product by `k` stretches the product by
/// `k * k`.
proof fn lemma_stretched_product(k: int, a: int, b: int)
    by (nonlinear_arith)
    ensures
        (k * a) * (k * b) == (k * k) * (a * b),
{
}

/// Stretching a quaternion by `k` stretches every height by `k * k`.
proof fn lemma_stretched_heights(q: Quat, k: int)
    ensures
        forall|face: Face|
            #[trigger] face_height(stretched(q, k), face) == (k * k) * face_height(q, face),
{
    let s = stretched(q, k);
    let kk = k * k;
    lemma_face_heights(q);
    lemma_face_heights(s);
    lemma_stretched_product(k, q.x, q.y);
    lemma_stretched_product(k, q.w, q.z);
    lemma_stretched_product(k, q.y, q.z);
    lemma_stretched_product(k, q.w, q.x);
    lemma_stretched_product(k, q.w, q.w);
    lemma_stretched_product(k, q.x, q.x);
    lemma_stretched_product(k, q.y, q.y);
    lemma_stretched_product(k, q.z, q.z);
    let (xy, wz, yz, wx) = (q.x * q.y, q.w * q.z, q.y * q.z, q.w * q.x);
    let (ww, xx, yy, zz) = (q.w * q.w, q.x * q.x, q.y * q.y, q.z * q.z);
    assert(2 * (kk * xy + kk * wz) == kk * (2 * (xy + wz))) by (nonlinear_arith);
    assert(2 * (kk * yz - kk * wx) == kk * (2 * (yz - wx))) by (nonlinear_arith);
    assert(kk * ww - kk * xx + kk * yy - kk * zz == kk * (ww - xx + yy - zz))
        by (nonlinear_arith);
    assert forall|face: Face|
        #[trigger] face_height(s, face) == kk * face_height(q, face) by {
        let a = face_height(q, Face::One);
        let c = face_height(q, Face::Three);
        let e = face_height(q, Face::Five);
        assert(kk * (-a) == -(kk * a) && kk * (-c) == -(kk * c) && kk * (-e) == -(kk * e))
            by (nonlinear_arith);
        match face {
            Face::One => {},
            Face::Two => {},
            Face::Three => {},
            Face::Four => {},
            Face::Five => {},
            Face::Six => {},
        }
    }
}

/// Multiplying both sides by a positive factor keeps an order as it is.
proof fn lemma_stretch_keeps_order(k: int, a: int, b: int)
    by (nonlinear_arith)
    requires
        k > 0,
    ensures
        (k * a <= k * b) == (a <= b),
        (k * a < k * b) == (a < b),
{
}

/// Stretching a quaternion by a factor other than zero leaves the uppermost
/// face as it was: a quaternion need not be normalized before it is
/// resolved.
pub proof fn lemma_stretch_keeps_uppermost(q: Quat, k: int)
    requires
        k != 0,
    ensures
        uppermost(stretched(q, k)) == uppermost(q),
{
    let s = stretched(q, k);
    let face = uppermost(q);
    lemma_uppermost(q);
    lemma_uppermost(s);
    lemma_stretched_heights(q, k);
    assert(k * k > 0) by (nonlinear_arith)
        requires
            k != 0,
    ;
    assert forall|other: Face|
        {
            &&& #[trigger] face_height(s, other) <= face_height(s, face)
            &&& other.spec_index() < face.spec_index() ==> face_height(s, other) < face_height(
                s,
                face,
            )
        } by {
        assert(face_height(q, other) <= face_height(q, face));
        lemma_stretch_keeps_order(k * k, face_height(q, other), face_height(q, face));
    }
    assert(is_uppermost(s, face));
}

} // verus!
