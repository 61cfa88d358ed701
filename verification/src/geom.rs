//! Fixed-point geometry: vectors, rectangles and the entity transform.
//!
//! Positions are centre-based; every transform carries a derived
//! axis-aligned rectangle that is recomputed by each setter, never lazily.
use vstd::prelude::*;
use crate::{COORD_LIMIT, DT_LIMIT, STAT_LIMIT, SUBUNIT};

verus! {

/// Largest scale factor a transform admits (thousandths; 1000 is 1.0).
pub const SCALE_LIMIT: i64 = 1_000_000;

/// A two-dimensional vector in fixed-point steps.
#[derive(Clone, Copy, PartialEq, Eq, Structural, Debug)]
pub struct Vec2i {
    pub x: i64,
    pub y: i64,
}

/// Builds a vector from its two components.
pub fn vec2i(x: i64, y: i64) -> (v: Vec2i)
    ensures
        v.x == x,
        v.y == y,
{
    Vec2i { x, y }
}

impl Vec2i {
    /// True when both components are within the simulation's coordinate range.
    pub open spec fn in_range(self) -> bool {
        -COORD_LIMIT <= self.x <= COORD_LIMIT && -COORD_LIMIT <= self.y <= COORD_LIMIT
    }

    /// The zero vector.
    pub fn zero() -> (v: Vec2i)
        ensures
            v == (Vec2i { x: 0, y: 0 }),
    {
        Vec2i { x: 0, y: 0 }
    }
}

/// An axis-aligned rectangle: top-left corner plus extent.
#[derive(Clone, Copy, PartialEq, Eq, Structural, Debug)]
pub struct Rect {
    pub x: i64,
    pub y: i64,
    pub w: i64,
    pub h: i64,
}

impl Rect {
    /// Non-negative extent, and coordinates small enough that every sum the
    /// collision predicates form stays far from the integer limits.
    pub open spec fn wf(self) -> bool {
        &&& -2 * COORD_LIMIT <= self.x <= 2 * COORD_LIMIT
        &&& -2 * COORD_LIMIT <= self.y <= 2 * COORD_LIMIT
        &&& 0 <= self.w <= COORD_LIMIT
        &&& 0 <= self.h <= COORD_LIMIT
    }

    /// Builds a rectangle from corner and extent.
    pub fn new(x: i64, y: i64, w: i64, h: i64) -> (r: Rect)
        ensures
            r == (Rect { x, y, w, h }),
    {
        Rect { x, y, w, h }
    }
}

/// True when the two closed rectangles overlap (touching edges count,
/// matching an intersection test that admits zero-area overlaps).
pub open spec fn rects_overlap(a: Rect, b: Rect) -> bool {
    &&& a.x <= b.x + b.w
    &&& b.x <= a.x + a.w
    &&& a.y <= b.y + b.h
    &&& b.y <= a.y + a.h
}

/// The centre-based spatial state of an entity, with its derived rectangle.
#[derive(Clone, Copy, PartialEq, Eq, Structural, Debug)]
pub struct Transform {
    /// Centre of the entity (or its top-left corner, for level tiles placed
    /// with `set_position_not_centered`).
    pub position: Vec2i,
    /// Orientation in millidegrees; carried for presentation, never read by
    /// the simulation's own geometry.
    pub rotation: i64,
    /// Logical size before scaling, in fixed-point steps.
    pub size: Vec2i,
    /// Uniform scale in thousandths.
    pub scale: i64,
    /// Derived axis-aligned rectangle, recomputed by every setter.
    pub rect: Rect,
}

impl Transform {
    /// Scaled width: size times scale, in fixed-point steps.
    pub open spec fn full_w(self) -> int {
        self.size.x * self.scale / (SUBUNIT as int)
    }

    /// Scaled height: size times scale, in fixed-point steps.
    pub open spec fn full_h(self) -> int {
        self.size.y * self.scale / (SUBUNIT as int)
    }

    /// Size and scale are in range and the rectangle's extent agrees with
    /// them; every setter preserves this.
    pub open spec fn wf(self) -> bool {
        &&& self.position.in_range()
        &&& 0 <= self.size.x && 0 <= self.size.y
        &&& 0 <= self.scale <= SCALE_LIMIT
        &&& self.size.x * self.scale <= COORD_LIMIT * SUBUNIT
        &&& self.size.y * self.scale <= COORD_LIMIT * SUBUNIT
        &&& self.rect.w == self.full_w()
        &&& self.rect.h == self.full_h()
        &&& self.rect.wf()
    }

    /// The degenerate transform used as the sentinel for inactive slots.
    pub fn zero() -> (t: Transform)
        ensures
            t == Transform::zero_spec(),
            t.wf(),
    {
        Transform {
            position: Vec2i { x: 0, y: 0 },
            rotation: 0,
            size: Vec2i { x: 0, y: 0 },
            scale: 0,
            rect: Rect { x: 0, y: 0, w: 0, h: 0 },
        }
    }

    /// The value `zero` returns.
    pub open spec fn zero_spec() -> Transform {
        Transform {
            position: Vec2i { x: 0, y: 0 },
            rotation: 0,
            size: Vec2i { x: 0, y: 0 },
            scale: 0,
            rect: Rect { x: 0, y: 0, w: 0, h: 0 },
        }
    }

    /// A fresh transform: ten units square at the origin, unit scale.
    pub fn default() -> (t: Transform)
        ensures
            t.wf(),
            t.position == (Vec2i { x: 0, y: 0 }),
            t.rotation == 0,
            t.size == (Vec2i { x: ((10 * SUBUNIT) as i64), y: ((10 * SUBUNIT) as i64) }),
            t.scale == SUBUNIT,
            t.rect == (Rect {
                x: 0,
                y: 0,
                w: ((10 * SUBUNIT) as i64),
                h: ((10 * SUBUNIT) as i64),
            }),
    {
        let t = Transform {
            position: Vec2i { x: 0, y: 0 },
            rotation: 0,
            size: Vec2i { x: 10 * SUBUNIT, y: 10 * SUBUNIT },
            scale: SUBUNIT,
            rect: Rect { x: 0, y: 0, w: 10 * SUBUNIT, h: 10 * SUBUNIT },
        };
        proof {
            assert(10000int * 1000 / 1000 == 10000int) by (nonlinear_arith);
            assert(t.full_w() == 10 * SUBUNIT && t.full_h() == 10 * SUBUNIT);
        }
        t
    }

    /// Moves the centre and recomputes the rectangle's corner around it.
    pub fn set_position(&mut self, new_position: Vec2i)
        requires
            old(self).wf(),
            new_position.in_range(),
        ensures
            final(self).wf(),
            *final(self) == (Transform {
                position: new_position,
                rect: Rect {
                    x: (new_position.x - old(self).full_w() / 2) as i64,
                    y: (new_position.y - old(self).full_h() / 2) as i64,
                    ..old(self).rect
                },
                ..*old(self)
            }),
    {
        self.position = new_position;
        self.rect.x = new_position.x - self.rect.w / 2;
        self.rect.y = new_position.y - self.rect.h / 2;
    }

    /// Places the rectangle's top-left corner directly on the position,
    /// as the level tiles are laid out.
    pub fn set_position_not_centered(&mut self, new_position: Vec2i)
        requires
            old(self).wf(),
            new_position.in_range(),
        ensures
            final(self).wf(),
            *final(self) == (Transform {
                position: new_position,
                rect: Rect { x: new_position.x, y: new_position.y, ..old(self).rect },
                ..*old(self)
            }),
    {
        self.position = new_position;
        self.rect.x = new_position.x;
        self.rect.y = new_position.y;
    }

    /// Changes the logical size and recomputes the whole rectangle,
    /// extent and corner alike, around the centre: recomputation is never
    /// lazy.  (Tiles placed by their corner set the position last.)
    pub fn set_size(&mut self, new_size: Vec2i)
        requires
            old(self).wf(),
            0 <= new_size.x,
            0 <= new_size.y,
            new_size.x * old(self).scale <= COORD_LIMIT * SUBUNIT,
            new_size.y * old(self).scale <= COORD_LIMIT * SUBUNIT,
        ensures
            final(self).wf(),
            *final(self) == (Transform {
                size: new_size,
                rect: Rect {
                    x: (old(self).position.x - new_size.x * old(self).scale / (SUBUNIT as int)
                        / 2) as i64,
                    y: (old(self).position.y - new_size.y * old(self).scale / (SUBUNIT as int)
                        / 2) as i64,
                    w: (new_size.x * old(self).scale / (SUBUNIT as int)) as i64,
                    h: (new_size.y * old(self).scale / (SUBUNIT as int)) as i64,
                },
                ..*old(self)
            }),
    {
        self.size = new_size;
        self.rect.w = new_size.x * self.scale / SUBUNIT;
        self.rect.h = new_size.y * self.scale / SUBUNIT;
        self.rect.x = self.position.x - self.rect.w / 2;
        self.rect.y = self.position.y - self.rect.h / 2;
    }

    /// Changes the scale and recomputes the whole rectangle, extent and
    /// corner alike, around the centre.
    pub fn set_scale(&mut self, new_scale: i64)
        requires
            old(self).wf(),
            0 <= new_scale <= SCALE_LIMIT,
            old(self).size.x * new_scale <= COORD_LIMIT * SUBUNIT,
            old(self).size.y * new_scale <= COORD_LIMIT * SUBUNIT,
        ensures
            final(self).wf(),
            *final(self) == (Transform {
                scale: new_scale,
                rect: Rect {
                    x: (old(self).position.x - old(self).size.x * new_scale / (SUBUNIT as int)
                        / 2) as i64,
                    y: (old(self).position.y - old(self).size.y * new_scale / (SUBUNIT as int)
                        / 2) as i64,
                    w: (old(self).size.x * new_scale / (SUBUNIT as int)) as i64,
                    h: (old(self).size.y * new_scale / (SUBUNIT as int)) as i64,
                },
                ..*old(self)
            }),
    {
        self.scale = new_scale;
        self.rect.w = self.size.x * new_scale / SUBUNIT;
        self.rect.h = self.size.y * new_scale / SUBUNIT;
        self.rect.x = self.position.x - self.rect.w / 2;
        self.rect.y = self.position.y - self.rect.h / 2;
    }

    /// The scaled size, in fixed-point steps.
    pub fn get_fullsize(&self) -> (s: Vec2i)
        requires
            self.wf(),
        ensures
            s.x == self.full_w(),
            s.y == self.full_h(),
    {
        Vec2i { x: self.rect.w, y: self.rect.h }
    }

    /// Half the scaled size, in fixed-point steps.
    pub fn get_halfsize(&self) -> (s: Vec2i)
        requires
            self.wf(),
        ensures
            s.x == self.full_w() / 2,
            s.y == self.full_h() / 2,
    {
        Vec2i { x: self.rect.w / 2, y: self.rect.h / 2 }
    }

    /// The top-left corner a centred placement would give.
    pub fn get_centered_position(&self) -> (p: Vec2i)
        requires
            self.wf(),
        ensures
            p.x == self.position.x - self.full_w() / 2,
            p.y == self.position.y - self.full_h() / 2,
    {
        Vec2i { x: self.position.x - self.rect.w / 2, y: self.position.y - self.rect.h / 2 }
    }
}

/// Integer division that rounds toward zero, the rounding the motion step
/// uses on either sign of direction.
pub open spec fn div_toward_zero(a: int, b: int) -> int
    recommends
        b > 0,
{
    if a >= 0 {
        a / b
    } else {
        -((-a) / b)
    }
}

/// The exact displacement of one motion step: direction component (in
/// thousandths of a unit vector) times speed (units per second) times the
/// frame time (milliseconds), brought back to fixed-point steps.
pub open spec fn motion_delta(dir: int, speed: int, dt: int) -> int {
    div_toward_zero(dir * speed * dt, SUBUNIT as int)
}

/// One component of a motion step.  The result is bounded by `speed * dt`,
/// so a caller that keeps its coordinates that far from the limit stays in
/// range.
pub fn scaled_step(dir: i64, speed: i64, dt: i64) -> (d: i64)
    requires
        -SUBUNIT <= dir <= SUBUNIT,
        0 <= speed <= STAT_LIMIT,
        0 <= dt <= DT_LIMIT,
    ensures
        d == motion_delta(dir as int, speed as int, dt as int),
        -(speed * dt) <= d <= speed * dt,
{
    let mag_dir: i64 = if dir >= 0 { dir } else { -dir };
    proof {
        assert(mag_dir * speed * dt <= SUBUNIT * (STAT_LIMIT as int) * DT_LIMIT
            && mag_dir * speed * dt <= (SUBUNIT as int) * speed * dt
            && 0 <= mag_dir * speed * dt
            && 0 <= mag_dir * speed
            && mag_dir * speed <= SUBUNIT * (STAT_LIMIT as int)) by (nonlinear_arith)
            requires
                0 <= mag_dir <= SUBUNIT,
                0 <= speed <= STAT_LIMIT,
                0 <= dt <= DT_LIMIT,
        ;
        assert((SUBUNIT as int) * speed * dt / (SUBUNIT as int) == speed * dt)
            by (nonlinear_arith);
        vstd::arithmetic::div_mod::lemma_div_is_ordered(
            mag_dir * speed * dt,
            (SUBUNIT as int) * speed * dt,
            SUBUNIT as int,
        );
        assert(dir < 0 ==> dir * speed * dt == -(mag_dir * speed * dt)) by (nonlinear_arith)
            requires
                mag_dir == if dir >= 0 { dir as int } else { -(dir as int) },
        ;
    }
    let mag: i64 = mag_dir * speed * dt / SUBUNIT;
    if dir >= 0 {
        mag
    } else {
        -mag
    }
}

/// The square of an integer.
pub open spec fn sq(a: int) -> int {
    a * a
}

/// `r` is the integer square root of `n`, rounded down.
pub open spec fn is_isqrt(n: int, r: int) -> bool {
    0 <= r && sq(r) <= n < sq(r + 1)
}

/// The integer square root is unique.
pub proof fn lemma_isqrt_unique(n: int, a: int, b: int)
    requires
        is_isqrt(n, a),
        is_isqrt(n, b),
    ensures
        a == b,
{
    if a < b {
        assert(sq(a + 1) <= sq(b)) by (nonlinear_arith)
            requires
                0 <= a + 1 <= b,
        ;
    }
    if b < a {
        assert(sq(b + 1) <= sq(a)) by (nonlinear_arith)
            requires
                0 <= b + 1 <= a,
        ;
    }
}

/// Integer square root, rounded down, by bisection.
pub fn isqrt64(n: u64) -> (r: u64)
    ensures
        is_isqrt(n as int, r as int),
        r < 0x1_0000_0000u64,
{
    let mut lo: u64 = 0;
    let mut hi: u64 = 0x1_0000_0000;
    proof {
        assert(sq(0x1_0000_0000int) > u64::MAX as int) by (nonlinear_arith);
    }
    while lo + 1 < hi
        invariant
            lo < hi <= 0x1_0000_0000u64,
            sq(lo as int) <= n as int,
            sq(hi as int) > n as int,
        decreases hi - lo,
    {
        let mid: u64 = lo + (hi - lo) / 2;
        proof {
            assert((mid as int) * (mid as int) <= 0x1_0000_0000int * 0x1_0000_0000int)
                by (nonlinear_arith)
                requires
                    0 <= mid <= 0x1_0000_0000u64,
            ;
        }
        let sqv: u128 = (mid as u128) * (mid as u128);
        if sqv <= n as u128 {
            lo = mid;
        } else {
            hi = mid;
        }
    }
    lo
}

/// `r` is `v` scaled to (approximately) unit length, in thousandths: each
/// component of `v`, times `SUBUNIT`, divided by the rounded-down length,
/// rounding toward zero.  Exact on the axes; each component is bounded by
/// `SUBUNIT` in magnitude.
pub open spec fn is_normalized_of(r: Vec2i, v: Vec2i) -> bool {
    &&& -SUBUNIT <= r.x <= SUBUNIT
    &&& -SUBUNIT <= r.y <= SUBUNIT
    &&& forall|len: int|
        #[trigger] is_isqrt(sq(v.x as int) + sq(v.y as int), len) ==> r.x == div_toward_zero(
            v.x * (SUBUNIT as int),
            len,
        ) && r.y == div_toward_zero(v.y * (SUBUNIT as int), len)
    &&& v.y == 0 && v.x > 0 ==> r == (Vec2i { x: SUBUNIT, y: 0 })
    &&& v.y == 0 && v.x < 0 ==> r == (Vec2i { x: (-SUBUNIT) as i64, y: 0 })
    &&& v.x == 0 && v.y > 0 ==> r == (Vec2i { x: 0, y: SUBUNIT })
    &&& v.x == 0 && v.y < 0 ==> r == (Vec2i { x: 0, y: (-SUBUNIT) as i64 })
}

/// Scales a vector to (approximately) unit length, in thousandths.
pub fn normalize(v: Vec2i) -> (r: Vec2i)
    requires
        -2 * COORD_LIMIT <= v.x <= 2 * COORD_LIMIT,
        -2 * COORD_LIMIT <= v.y <= 2 * COORD_LIMIT,
        !(v.x == 0 && v.y == 0),
    ensures
        is_normalized_of(r, v),
{
    let ax: i64 = if v.x >= 0 { v.x } else { -v.x };
    let ay: i64 = if v.y >= 0 { v.y } else { -v.y };
    proof {
        assert(0 <= ax * ax && 0 <= ay * ay && ax * ax + ay * ay <= 8_000_000_000_000_000_000int
            && sq(ax as int) <= sq(ax as int) + sq(ay as int) && sq(ay as int) <= sq(ax as int)
            + sq(ay as int)) by (nonlinear_arith)
            requires
                0 <= ax <= 2 * COORD_LIMIT,
                0 <= ay <= 2 * COORD_LIMIT,
        ;
    }
    let n: u64 = (ax * ax + ay * ay) as u64;
    let len64: u64 = isqrt64(n);
    let len: i64 = len64 as i64;
    proof {
        // each absolute component is at most the rounded-down length
        assert(sq(ax as int) < sq(len as int + 1) ==> ax <= len) by (nonlinear_arith)
            requires
                0 <= ax,
                0 <= len,
        ;
        assert(sq(ay as int) < sq(len as int + 1) ==> ay <= len) by (nonlinear_arith)
            requires
                0 <= ay,
                0 <= len,
        ;
        assert(len >= 1) by {
            assert(sq(1int) == 1int) by (nonlinear_arith);
        }
        assert((len as int) * (SUBUNIT as int) / (len as int) == SUBUNIT as int
            && (len as int) * (SUBUNIT as int) >= 0) by (nonlinear_arith)
            requires
                len >= 1,
        ;
        assert(ax * (SUBUNIT as int) <= (len as int) * (SUBUNIT as int) && 0 <= ax * (
        SUBUNIT as int)) by (nonlinear_arith)
            requires
                0 <= ax <= len,
        ;
        vstd::arithmetic::div_mod::lemma_div_is_ordered(
            (ax as int) * (SUBUNIT as int),
            (len as int) * (SUBUNIT as int),
            len as int,
        );
        assert(ay * (SUBUNIT as int) <= (len as int) * (SUBUNIT as int) && 0 <= ay * (
        SUBUNIT as int)) by (nonlinear_arith)
            requires
                0 <= ay <= len,
        ;
        vstd::arithmetic::div_mod::lemma_div_is_ordered(
            (ay as int) * (SUBUNIT as int),
            (len as int) * (SUBUNIT as int),
            len as int,
        );
    }
    let mx: i64 = ax * SUBUNIT / len;
    let my: i64 = ay * SUBUNIT / len;
    let r = Vec2i {
        x: if v.x >= 0 { mx } else { -mx },
        y: if v.y >= 0 { my } else { -my },
    };
    proof {
        let ghost nn = sq(v.x as int) + sq(v.y as int);
        assert(nn == n as int) by (nonlinear_arith)
            requires
                ax == if v.x >= 0 { v.x as int } else { -(v.x as int) },
                ay == if v.y >= 0 { v.y as int } else { -(v.y as int) },
                n == ax * ax + ay * ay,
                nn == sq(v.x as int) + sq(v.y as int),
        ;
        assert forall|l: int| is_isqrt(nn, l) implies r.x == div_toward_zero(
            v.x * (SUBUNIT as int),
            l,
        ) && r.y == div_toward_zero(v.y * (SUBUNIT as int), l) by {
            lemma_isqrt_unique(nn, l, len as int);
            if v.x < 0 {
                assert(v.x * (SUBUNIT as int) == -(ax * (SUBUNIT as int))) by (nonlinear_arith)
                    requires
                        ax == -(v.x as int),
                ;
            }
            if v.y < 0 {
                assert(v.y * (SUBUNIT as int) == -(ay * (SUBUNIT as int))) by (nonlinear_arith)
                    requires
                        ay == -(v.y as int),
                ;
            }
        }
        if v.y == 0 && v.x != 0 {
            assert(is_isqrt(nn, ax as int)) by (nonlinear_arith)
                requires
                    nn == sq(ax as int) + sq(0int),
                    1 <= ax,
            ;
            lemma_isqrt_unique(nn, ax as int, len as int);
            assert((ax as int) * (SUBUNIT as int) / (ax as int) == SUBUNIT as int)
                by (nonlinear_arith)
                requires
                    ax >= 1,
            ;
        }
        if v.x == 0 && v.y != 0 {
            assert(is_isqrt(nn, ay as int)) by (nonlinear_arith)
                requires
                    nn == sq(0int) + sq(ay as int),
                    1 <= ay,
            ;
            lemma_isqrt_unique(nn, ay as int, len as int);
            assert((ay as int) * (SUBUNIT as int) / (ay as int) == SUBUNIT as int)
                by (nonlinear_arith)
                requires
                    ay >= 1,
            ;
        }
    }
    r
}

} // verus!
