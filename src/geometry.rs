use vstd::prelude::*;

verus! {

/// Fixed-point scale: one pixel, one second, and the length of a unit
/// direction are each `SCALE` steps.
pub const SCALE: i64 = 1_000_000;

/// A vector shorter than this (in steps) is left alone by `normalize`.
pub const NORMALIZE_EPSILON: i64 = 10;

/// How far (in steps) the length of a normalized vector may stray from `SCALE`.
pub const UNIT_TOLERANCE: i64 = 100;

/// Rust's `/` on integers: the quotient rounded toward zero (`b > 0`).
pub open spec fn trunc_div(a: int, b: int) -> int {
    if a >= 0 {
        a / b
    } else {
        -((-a) / b)
    }
}

pub open spec fn fits_i64(v: int) -> bool {
    i64::MIN <= v <= i64::MAX
}

/// `v` clamped into `[lo, hi]`; the lower bound wins when the range is empty.
pub open spec fn clamp(v: int, lo: int, hi: int) -> int {
    if v < lo {
        lo
    } else if v > hi {
        hi
    } else {
        v
    }
}

pub open spec fn is_floor_sqrt(n: int, r: int) -> bool {
    0 <= r && r * r <= n < (r + 1) * (r + 1)
}

/// The largest integer whose square is at most `n`.
pub open spec fn floor_sqrt(n: int) -> int {
    choose|r: int| #[trigger] is_floor_sqrt(n, r)
}

proof fn lemma_floor_sqrt_unique(n: int, r: int)
    requires
        is_floor_sqrt(n, r),
    ensures
        floor_sqrt(n) == r,
{
    let s = floor_sqrt(n);
    assert(is_floor_sqrt(n, s));
    if s < r {
        assert((s + 1) * (s + 1) <= r * r) by (nonlinear_arith)
            requires
                0 <= s,
                s + 1 <= r,
        ;
    } else if r < s {
        assert((r + 1) * (r + 1) <= s * s) by (nonlinear_arith)
            requires
                0 <= r,
                r + 1 <= s,
        ;
    }
}

proof fn lemma_floor_sqrt_exists(n: int)
    requires
        n >= 0,
    ensures
        is_floor_sqrt(n, floor_sqrt(n)),
    decreases n,
{
    if n == 0 {
        assert(is_floor_sqrt(0, 0));
    } else {
        lemma_floor_sqrt_exists(n - 1);
        let r = floor_sqrt(n - 1);
        if (r + 1) * (r + 1) <= n {
            assert(n < (r + 2) * (r + 2)) by (nonlinear_arith)
                requires
                    n - 1 < (r + 1) * (r + 1),
                    r >= 0,
            ;
            assert(is_floor_sqrt(n, r + 1));
        } else {
            assert(is_floor_sqrt(n, r));
        }
    }
}

/// Integer square root, rounded down.
pub fn isqrt(n: u128) -> (r: u128)
    ensures
        is_floor_sqrt(n as int, r as int),
        r as int == floor_sqrt(n as int),
{
    let mut lo: u128 = 0;
    let mut hi: u128 = 0x1_0000_0000_0000_0000;
    assert(n < hi * hi) by (nonlinear_arith)
        requires
            hi == 0x1_0000_0000_0000_0000u128,
            n <= u128::MAX,
    ;
    while hi - lo > 1
        invariant
            lo < hi <= 0x1_0000_0000_0000_0000u128,
            lo * lo <= n,
            n < hi * hi,
        decreases hi - lo,
    {
        let mid = lo + (hi - lo) / 2;
        assert(mid * mid <= u128::MAX) by (nonlinear_arith)
            requires
                mid < 0x1_0000_0000_0000_0000u128,
        ;
        if mid * mid <= n {
            lo = mid;
        } else {
            hi = mid;
        }
    }
    assert(hi == lo + 1);
    proof {
        lemma_floor_sqrt_unique(n as int, lo as int);
    }
    lo
}

#[derive(Clone, Copy, PartialEq, Eq, Structural, Debug)]
pub struct Vector2 {
    pub x: i64,
    pub y: i64,
}

/// The components of `normalize`'s result, as magnitudes: each component's
/// magnitude times `k * SCALE`, divided by `l`, the root of the squared length
/// times `k * k`. Short vectors use `k == SCALE` to keep the precision.
pub open spec fn normalized_component(a: int, s: int) -> int {
    let k: int = if s < 0x100_0000_0000 { SCALE as int } else { 1 };
    let l = floor_sqrt(s * k * k);
    let m = (if a >= 0 { a } else { -a }) * k * SCALE / l;
    if a >= 0 {
        m
    } else {
        -m
    }
}

impl Vector2 {
    pub open spec fn norm_sq(self) -> int {
        self.x * self.x + self.y * self.y
    }

    /// Within `UNIT_TOLERANCE` of length `SCALE`.
    pub open spec fn is_unit(self) -> bool {
        (SCALE - UNIT_TOLERANCE) * (SCALE - UNIT_TOLERANCE) <= self.norm_sq() <= (SCALE
            + UNIT_TOLERANCE) * (SCALE + UNIT_TOLERANCE)
    }

    pub open spec fn is_short(self) -> bool {
        self.norm_sq() < NORMALIZE_EPSILON * NORMALIZE_EPSILON
    }

    pub open spec fn normalized(self) -> Vector2 {
        if self.is_short() {
            self
        } else {
            Vector2 {
                x: normalized_component(self.x as int, self.norm_sq()) as i64,
                y: normalized_component(self.y as int, self.norm_sq()) as i64,
            }
        }
    }

    pub fn new(x: i64, y: i64) -> (r: Vector2)
        ensures
            r == (Vector2 { x, y }),
    {
        Vector2 { x, y }
    }

    pub fn add(self, rhs: Vector2) -> (r: Vector2)
        requires
            fits_i64(self.x + rhs.x),
            fits_i64(self.y + rhs.y),
        ensures
            r.x == self.x + rhs.x,
            r.y == self.y + rhs.y,
    {
        Vector2 { x: self.x + rhs.x, y: self.y + rhs.y }
    }

    pub fn add_assign(&mut self, rhs: Vector2)
        requires
            fits_i64(old(self).x + rhs.x),
            fits_i64(old(self).y + rhs.y),
        ensures
            final(self).x == old(self).x + rhs.x,
            final(self).y == old(self).y + rhs.y,
    {
        self.x = self.x + rhs.x;
        self.y = self.y + rhs.y;
    }

    /// Multiplies by the fixed-point factor `k` (`SCALE` is one).
    pub fn mul(self, k: i64) -> (r: Vector2)
        requires
            fits_i64(trunc_div(self.x * k, SCALE as int)),
            fits_i64(trunc_div(self.y * k, SCALE as int)),
        ensures
            r.x == trunc_div(self.x * k, SCALE as int),
            r.y == trunc_div(self.y * k, SCALE as int),
    {
        let x = (self.x as i128) * (k as i128) / (SCALE as i128);
        let y = (self.y as i128) * (k as i128) / (SCALE as i128);
        Vector2 { x: x as i64, y: y as i64 }
    }

    /// The length in steps, rounded down.
    pub fn length(&self) -> (r: i64)
        requires
            self.norm_sq() < 0x4000_0000_0000_0000_0000_0000_0000_0000,
        ensures
            r == floor_sqrt(self.norm_sq()),
            is_floor_sqrt(self.norm_sq(), r as int),
    {
        let root = isqrt(self.norm_sq_exec());
        assert(root <= i64::MAX) by (nonlinear_arith)
            requires
                root * root < 0x4000_0000_0000_0000_0000_0000_0000_0000,
                root >= 0,
        ;
        root as i64
    }

    fn norm_sq_exec(&self) -> (r: u128)
        ensures
            r == self.norm_sq(),
            r <= 0x8000_0000_0000_0000_0000_0000_0000_0000u128,
    {
        let ax = abs_u128(self.x);
        let ay = abs_u128(self.y);
        assert(ax * ax <= 0x4000_0000_0000_0000_0000_0000_0000_0000) by (nonlinear_arith)
            requires
                ax <= 0x8000_0000_0000_0000u128,
        ;
        assert(ay * ay <= 0x4000_0000_0000_0000_0000_0000_0000_0000) by (nonlinear_arith)
            requires
                ay <= 0x8000_0000_0000_0000u128,
        ;
        ax * ax + ay * ay
    }

    /// Scales the vector to length `SCALE`; a vector shorter than
    /// `NORMALIZE_EPSILON` is left as it is.
    pub fn normalize(&mut self)
        ensures
            *final(self) == old(self).normalized(),
            old(self).is_short() ==> *final(self) == *old(self),
            !old(self).is_short() ==> final(self).is_unit(),
    {
        let s = self.norm_sq_exec();
        if s < (NORMALIZE_EPSILON * NORMALIZE_EPSILON) as u128 {
            return ;
        }
        let k: u128 = if s < 0x100_0000_0000 {
            SCALE as u128
        } else {
            1
        };
        assert(s * k <= u128::MAX && s * k * k < u128::MAX) by (nonlinear_arith)
            requires
                s < 0x100_0000_0000 ==> k == 1_000_000,
                s >= 0x100_0000_0000 ==> k == 1,
                s <= 0x8000_0000_0000_0000_0000_0000_0000_0000u128,
        ;
        let l = isqrt(s * k * k);
        proof {
            lemma_root_large(s as int, k as int, l as int);
        }
        let ax = abs_u128(self.x);
        let ay = abs_u128(self.y);
        proof {
            lemma_normalized_is_unit(ax as int, ay as int, k as int, l as int);
        }
        let qx = ax * k * (SCALE as u128) / l;
        let qy = ay * k * (SCALE as u128) / l;
        let nx: i64 = if self.x >= 0 {
            qx as i64
        } else {
            -(qx as i64)
        };
        let ny: i64 = if self.y >= 0 {
            qy as i64
        } else {
            -(qy as i64)
        };
        assert(nx * nx + ny * ny == qx * qx + qy * qy) by (nonlinear_arith)
            requires
                nx == qx || nx == -qx,
                ny == qy || ny == -qy,
        ;
        self.x = nx;
        self.y = ny;
    }
}

fn abs_u128(v: i64) -> (r: u128)
    ensures
        r == (if v >= 0 { v as int } else { -v }),
        r <= 0x8000_0000_0000_0000u128,
        r * r == v * v,
{
    let r = if v >= 0 {
        v as u128
    } else {
        ((-(v as i128)) as u128)
    };
    assert(r * r == v * v) by (nonlinear_arith)
        requires
            r == v || r == -v,
    ;
    r
}

/// A vector of length at least `NORMALIZE_EPSILON` normalizes to a unit vector.
pub proof fn lemma_normalized_unit(v: Vector2)
    requires
        !v.is_short(),
    ensures
        v.normalized().is_unit(),
{
    let s = v.norm_sq();
    let k: int = if s < 0x100_0000_0000 { SCALE as int } else { 1 };
    let ax: int = if v.x >= 0 { v.x as int } else { -v.x };
    let ay: int = if v.y >= 0 { v.y as int } else { -v.y };
    assert(ax * ax == v.x * v.x && ay * ay == v.y * v.y) by (nonlinear_arith)
        requires
            ax == v.x || ax == -v.x,
            ay == v.y || ay == -v.y,
    ;
    assert(s <= 0x8000_0000_0000_0000_0000_0000_0000_0000) by (nonlinear_arith)
        requires
            s == ax * ax + ay * ay,
            0 <= ax <= 0x8000_0000_0000_0000,
            0 <= ay <= 0x8000_0000_0000_0000,
    ;
    assert(s * k * k >= 0) by (nonlinear_arith)
        requires
            s >= 0,
            k >= 1,
    ;
    lemma_floor_sqrt_exists(s * k * k);
    let l = floor_sqrt(s * k * k);
    lemma_root_large(s, k, l);
    lemma_normalized_is_unit(ax, ay, k, l);
    let qx = ax * k * SCALE / l;
    let qy = ay * k * SCALE / l;
    let w = v.normalized();
    assert(w.x == qx || w.x == -qx);
    assert(w.y == qy || w.y == -qy);
    assert(w.norm_sq() == qx * qx + qy * qy) by (nonlinear_arith)
        requires
            w.x == qx || w.x == -qx,
            w.y == qy || w.y == -qy,
    ;
}

/// The root used by `normalize` is large enough for the unit-length bounds.
proof fn lemma_root_large(s: int, k: int, l: int)
    requires
        100 <= s <= 0x8000_0000_0000_0000_0000_0000_0000_0000,
        s < 0x100_0000_0000 ==> k == 1_000_000,
        s >= 0x100_0000_0000 ==> k == 1,
        is_floor_sqrt(s * k * k, l),
    ensures
        l >= 10_000,
{
    if l < 10_000 {
        assert((l + 1) * (l + 1) <= 100_000_000) by (nonlinear_arith)
            requires
                0 <= l < 10_000,
        ;
        if s < 0x100_0000_0000 {
            assert(s * k * k >= 100_000_000) by (nonlinear_arith)
                requires
                    s >= 100,
                    k == 1_000_000,
            ;
        } else {
            assert(s * k * k == s) by (nonlinear_arith)
                requires
                    k == 1,
            ;
        }
    }
}

/// With `l` the root of `(ax² + ay²)·k²` (rounded down) and `l` at least
/// `SCALE / UNIT_TOLERANCE`, the vector `(ax·k·SCALE / l, ay·k·SCALE / l)`
/// has length `SCALE` within `UNIT_TOLERANCE`.
proof fn lemma_normalized_is_unit(ax: int, ay: int, k: int, l: int)
    requires
        0 <= ax,
        0 <= ay,
        1 <= k,
        10_000 <= l,
        is_floor_sqrt((ax * ax + ay * ay) * k * k, l),
    ensures
        ({
            let qx = ax * k * SCALE / l;
            let qy = ay * k * SCALE / l;
            &&& 0 <= qx <= SCALE
            &&& 0 <= qy <= SCALE
            &&& (SCALE - UNIT_TOLERANCE) * (SCALE - UNIT_TOLERANCE) <= qx * qx + qy * qy
            &&& qx * qx + qy * qy <= (SCALE + UNIT_TOLERANCE) * (SCALE + UNIT_TOLERANCE)
        }),
{
    let sc: int = SCALE as int;
    let t: int = UNIT_TOLERANCE as int;
    let n = (ax * ax + ay * ay) * k * k;
    let px = ax * k * sc;
    let py = ay * k * sc;
    let qx = px / l;
    let qy = py / l;
    assert(ax * k <= l) by (nonlinear_arith)
        requires
            (ax * ax + ay * ay) * k * k < (l + 1) * (l + 1),
            0 <= ax,
            0 <= ay,
            1 <= k,
            0 <= l,
    ;
    assert(ay * k <= l) by (nonlinear_arith)
        requires
            (ax * ax + ay * ay) * k * k < (l + 1) * (l + 1),
            0 <= ax,
            0 <= ay,
            1 <= k,
            0 <= l,
    ;
    assert(0 <= px <= l * sc) by (nonlinear_arith)
        requires
            ax * k <= l,
            0 <= ax,
            1 <= k,
            px == ax * k * sc,
            sc == 1_000_000,
    ;
    assert(0 <= py <= l * sc) by (nonlinear_arith)
        requires
            ay * k <= l,
            0 <= ay,
            1 <= k,
            py == ay * k * sc,
            sc == 1_000_000,
    ;
    assert(qx * l <= px < (qx + 1) * l && 0 <= qx <= sc) by (nonlinear_arith)
        requires
            qx == px / l,
            0 <= px <= l * sc,
            l > 0,
    ;
    assert(qy * l <= py < (qy + 1) * l && 0 <= qy <= sc) by (nonlinear_arith)
        requires
            qy == py / l,
            0 <= py <= l * sc,
            l > 0,
    ;
    let ks = k * sc;
    assert(px == ax * ks && py == ay * ks) by (nonlinear_arith)
        requires
            px == ax * k * sc,
            py == ay * k * sc,
            ks == k * sc,
    ;
    assert(px * px + py * py == (ax * ax + ay * ay) * (ks * ks)) by (nonlinear_arith)
        requires
            px == ax * ks,
            py == ay * ks,
    ;
    assert(n * sc * sc == (ax * ax + ay * ay) * (ks * ks)) by (nonlinear_arith)
        requires
            n == (ax * ax + ay * ay) * k * k,
            ks == k * sc,
    ;
    // Upper bound.
    assert((qx * qx + qy * qy) * (l * l) <= px * px + py * py) by (nonlinear_arith)
        requires
            0 <= qx * l <= px,
            0 <= qy * l <= py,
    ;
    assert(n * sc * sc < (l + 1) * (l + 1) * sc * sc) by (nonlinear_arith)
        requires
            n < (l + 1) * (l + 1),
            sc > 0,
    ;
    assert((l + 1) * sc <= (sc + t) * l) by (nonlinear_arith)
        requires
            l >= 10_000,
            sc == 1_000_000,
            t == 100,
    ;
    assert((l + 1) * (l + 1) * sc * sc <= (sc + t) * (sc + t) * (l * l)) by (nonlinear_arith)
        requires
            0 <= (l + 1) * sc <= (sc + t) * l,
    ;
    assert(qx * qx + qy * qy <= (sc + t) * (sc + t)) by (nonlinear_arith)
        requires
            (qx * qx + qy * qy) * (l * l) < (sc + t) * (sc + t) * (l * l),
            l > 0,
    ;
    // Lower bound.
    assert(((qx + 1) * (qx + 1) + (qy + 1) * (qy + 1)) * (l * l) > px * px + py * py)
        by (nonlinear_arith)
        requires
            0 <= px < (qx + 1) * l,
            0 <= py < (qy + 1) * l,
    ;
    assert(n * sc * sc >= l * l * sc * sc) by (nonlinear_arith)
        requires
            l * l <= n,
    ;
    assert((qx + 1) * (qx + 1) + (qy + 1) * (qy + 1) > sc * sc) by (nonlinear_arith)
        requires
            ((qx + 1) * (qx + 1) + (qy + 1) * (qy + 1)) * (l * l) > l * l * sc * sc,
            l > 0,
    ;
    assert((sc - t) * (sc - t) <= qx * qx + qy * qy) by (nonlinear_arith)
        requires
            (qx + 1) * (qx + 1) + (qy + 1) * (qy + 1) > sc * sc,
            0 <= qx <= sc,
            0 <= qy <= sc,
            sc == 1_000_000,
            t == 100,
    ;
}

/// An axis-aligned rectangle given by its top-left corner and its size.
#[derive(Clone, Copy, PartialEq, Eq, Structural, Debug)]
pub struct Rectangle {
    pub x: i64,
    pub y: i64,
    pub width: i64,
    pub height: i64,
}

impl Rectangle {
    /// The rectangle of size `size` centred on `position`.
    pub open spec fn centered(position: Vector2, size: Vector2) -> Rectangle {
        Rectangle {
            x: (position.x - trunc_div(size.x as int, 2)) as i64,
            y: (position.y - trunc_div(size.y as int, 2)) as i64,
            width: size.x,
            height: size.y,
        }
    }

    pub open spec fn can_center(position: Vector2, size: Vector2) -> bool {
        &&& fits_i64(position.x - trunc_div(size.x as int, 2))
        &&& fits_i64(position.y - trunc_div(size.y as int, 2))
    }

    /// The rectangle of size `size` centred on `position`.
    pub fn from(position: &Vector2, size: &Vector2) -> (r: Rectangle)
        requires
            Rectangle::can_center(*position, *size),
        ensures
            r == Rectangle::centered(*position, *size),
    {
        Rectangle {
            x: position.x - size.x / 2,
            y: position.y - size.y / 2,
            width: size.x,
            height: size.y,
        }
    }
}

#[derive(Clone, Copy, PartialEq, Eq, Structural, Debug)]
pub struct Circle {
    pub center: Vector2,
    pub radius: i64,
}

impl Circle {
    pub fn from(center: &Vector2, radius: i64) -> (r: Circle)
        ensures
            r == (Circle { center: *center, radius }),
    {
        Circle { center: *center, radius }
    }
}

/// Whether the circle touches or overlaps the rectangle: the point of the
/// rectangle nearest to the centre lies within the radius.
pub open spec fn collides(c: Circle, r: Rectangle) -> bool {
    let dx = c.center.x - clamp(c.center.x as int, r.x as int, r.x + r.width);
    let dy = c.center.y - clamp(c.center.y as int, r.y as int, r.y + r.height);
    dx * dx + dy * dy <= c.radius * c.radius
}

/// Distance along one axis from `v` to the nearest point of `[lo, lo + len]`.
fn axis_gap(v: i64, lo: i64, len: i64) -> (r: i128)
    ensures
        r == v - clamp(v as int, lo as int, lo + len),
{
    let v = v as i128;
    let lo = lo as i128;
    let hi = lo + len as i128;
    let nearest = if v < lo {
        lo
    } else if v > hi {
        hi
    } else {
        v
    };
    v - nearest
}

/// Circle-versus-rectangle collision test.
pub fn check_collision_circle_rec(circle: &Circle, rec: &Rectangle) -> (r: bool)
    requires
        circle.radius >= 0,
    ensures
        r == collides(*circle, *rec),
{
    let rad = circle.radius as i128;
    let dx = axis_gap(circle.center.x, rec.x, rec.width);
    let dy = axis_gap(circle.center.y, rec.y, rec.height);
    if dx > rad || dx < -rad || dy > rad || dy < -rad {
        assert(dx * dx + dy * dy > rad * rad) by (nonlinear_arith)
            requires
                rad >= 0,
                dx > rad || dx < -rad || dy > rad || dy < -rad,
        ;
        return false;
    }
    assert(dx * dx <= 0x4000_0000_0000_0000_0000_0000_0000_0000 && dy * dy
        <= 0x4000_0000_0000_0000_0000_0000_0000_0000 && rad * rad
        <= 0x4000_0000_0000_0000_0000_0000_0000_0000) by (nonlinear_arith)
        requires
            0 <= rad <= i64::MAX,
            -rad <= dx <= rad,
            -rad <= dy <= rad,
    ;
    let ax: u128 = if dx < 0 {
        (-dx) as u128
    } else {
        dx as u128
    };
    let ay: u128 = if dy < 0 {
        (-dy) as u128
    } else {
        dy as u128
    };
    let ar = rad as u128;
    assert(ax * ax == dx * dx && ay * ay == dy * dy) by (nonlinear_arith)
        requires
            ax == dx || ax == -dx,
            ay == dy || ay == -dy,
    ;
    ax * ax + ay * ay <= ar * ar
}

proof fn lemma_clamp_mirror(v: int, lo: int, len: int)
    requires
        len >= 0,
    ensures
        clamp(-v, -(lo + len), -(lo + len) + len) == -clamp(v, lo, lo + len),
{
}

/// Reflecting both the circle and the rectangle across the vertical axis
/// `x = 0` does not change whether they collide.
pub proof fn lemma_collision_mirror_x(c: Circle, r: Rectangle, c2: Circle, r2: Rectangle)
    requires
        r.width >= 0,
        c2.center.x == -c.center.x,
        c2.center.y == c.center.y,
        c2.radius == c.radius,
        r2.x == -(r.x + r.width),
        r2.y == r.y,
        r2.width == r.width,
        r2.height == r.height,
    ensures
        collides(c, r) == collides(c2, r2),
{
    lemma_clamp_mirror(c.center.x as int, r.x as int, r.width as int);
    let dx = c.center.x - clamp(c.center.x as int, r.x as int, r.x + r.width);
    let dx2 = c2.center.x - clamp(c2.center.x as int, r2.x as int, r2.x + r2.width);
    assert(dx2 == -dx);
    assert(dx2 * dx2 == dx * dx) by (nonlinear_arith)
        requires
            dx2 == -dx,
    ;
}

/// Reflecting both the circle and the rectangle across the horizontal axis
/// `y = 0` does not change whether they collide.
pub proof fn lemma_collision_mirror_y(c: Circle, r: Rectangle, c2: Circle, r2: Rectangle)
    requires
        r.height >= 0,
        c2.center.x == c.center.x,
        c2.center.y == -c.center.y,
        c2.radius == c.radius,
        r2.x == r.x,
        r2.y == -(r.y + r.height),
        r2.width == r.width,
        r2.height == r.height,
    ensures
        collides(c, r) == collides(c2, r2),
{
    lemma_clamp_mirror(c.center.y as int, r.y as int, r.height as int);
    let dy = c.center.y - clamp(c.center.y as int, r.y as int, r.y + r.height);
    let dy2 = c2.center.y - clamp(c2.center.y as int, r2.y as int, r2.y + r2.height);
    assert(dy2 == -dy);
    assert(dy2 * dy2 == dy * dy) by (nonlinear_arith)
        requires
            dy2 == -dy,
    ;
}

/// A circle that lies wholly inside a rectangle collides with it.
pub proof fn lemma_contained_circle_collides(c: Circle, r: Rectangle)
    requires
        c.radius >= 0,
        r.x <= c.center.x - c.radius,
        c.center.x + c.radius <= r.x + r.width,
        r.y <= c.center.y - c.radius,
        c.center.y + c.radius <= r.y + r.height,
    ensures
        collides(c, r),
{
    let dx = c.center.x - clamp(c.center.x as int, r.x as int, r.x + r.width);
    let dy = c.center.y - clamp(c.center.y as int, r.y as int, r.y + r.height);
    assert(dx == 0 && dy == 0);
    assert(dx * dx + dy * dy <= c.radius * c.radius) by (nonlinear_arith)
        requires
            dx == 0,
            dy == 0,
    ;
}

/// A circle whose bounding box does not meet the rectangle does not collide
/// with it.
pub proof fn lemma_separated_circle_misses(c: Circle, r: Rectangle)
    requires
        c.radius >= 0,
        r.width >= 0,
        r.height >= 0,
        c.center.x + c.radius < r.x || c.center.x - c.radius > r.x + r.width || c.center.y
            + c.radius < r.y || c.center.y - c.radius > r.y + r.height,
    ensures
        !collides(c, r),
{
    let rad = c.radius as int;
    let dx = c.center.x - clamp(c.center.x as int, r.x as int, r.x + r.width);
    let dy = c.center.y - clamp(c.center.y as int, r.y as int, r.y + r.height);
    assert(dx > rad || dx < -rad || dy > rad || dy < -rad);
    assert(dx * dx + dy * dy > rad * rad) by (nonlinear_arith)
        requires
            rad >= 0,
            dx > rad || dx < -rad || dy > rad || dy < -rad,
    ;
}

} // verus!
