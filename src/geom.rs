use vstd::prelude::*;

verus! {

/// Largest coordinate magnitude handed to the tessellator; every integer of
/// that size and every sum of two of them is exact in single precision.
pub const COORD_MAX: i64 = 4194304;

/// Largest magnitude of an affine coefficient that the context composes.
pub const COEFF_MAX: i64 = 1073741824;

/// An RGBA color with 8-bit sRGB channels.
#[derive(Clone, Copy, Debug, PartialEq, Eq, Structural)]
pub struct Color {
    pub r: u8,
    pub g: u8,
    pub b: u8,
    pub a: u8,
}

impl Color {
    pub fn rgba8(r: u8, g: u8, b: u8, a: u8) -> (c: Color)
        ensures
            c == (Color { r, g, b, a }),
    {
        Color { r, g, b, a }
    }
}

/// An axis-aligned rectangle given by two corners, in integer units.
#[derive(Clone, Copy, Debug, PartialEq, Eq, Structural)]
pub struct Rect {
    pub x0: i64,
    pub y0: i64,
    pub x1: i64,
    pub y1: i64,
}

/// A 2D affine map `(x, y) -> (xx*x + xy*y + tx, yx*x + yy*y + ty)` with integer
/// coefficients.
#[derive(Clone, Copy, Debug, PartialEq, Eq, Structural)]
pub struct Affine {
    pub xx: i64,
    pub yx: i64,
    pub xy: i64,
    pub yy: i64,
    pub tx: i64,
    pub ty: i64,
}

/// The mathematical value of an affine map, with unbounded coefficients.
pub struct AffineModel {
    pub xx: int,
    pub yx: int,
    pub xy: int,
    pub yy: int,
    pub tx: int,
    pub ty: int,
}

pub open spec fn identity_model() -> AffineModel {
    AffineModel { xx: 1, yx: 0, xy: 0, yy: 1, tx: 0, ty: 0 }
}

/// `compose(l, r)` applies `r` first, then `l`.
pub open spec fn compose(l: AffineModel, r: AffineModel) -> AffineModel {
    AffineModel {
        xx: l.xx * r.xx + l.xy * r.yx,
        yx: l.yx * r.xx + l.yy * r.yx,
        xy: l.xx * r.xy + l.xy * r.yy,
        yy: l.yx * r.xy + l.yy * r.yy,
        tx: l.xx * r.tx + l.xy * r.ty + l.tx,
        ty: l.yx * r.tx + l.yy * r.ty + l.ty,
    }
}

pub open spec fn coeff_ok(v: int) -> bool {
    -COEFF_MAX <= v <= COEFF_MAX
}

/// Every coefficient lies within `COEFF_MAX`.
pub open spec fn affine_bounded(m: AffineModel) -> bool {
    coeff_ok(m.xx) && coeff_ok(m.yx) && coeff_ok(m.xy) && coeff_ok(m.yy) && coeff_ok(m.tx)
        && coeff_ok(m.ty)
}

pub open spec fn coord_ok(v: int) -> bool {
    -COORD_MAX <= v <= COORD_MAX
}

impl Rect {
    pub open spec fn bounded(self) -> bool {
        coord_ok(self.x0 as int) && coord_ok(self.y0 as int) && coord_ok(self.x1 as int)
            && coord_ok(self.y1 as int)
    }

    pub fn new(x0: i64, y0: i64, x1: i64, y1: i64) -> (r: Rect)
        ensures
            r == (Rect { x0, y0, x1, y1 }),
    {
        Rect { x0, y0, x1, y1 }
    }

    pub fn is_bounded(&self) -> (b: bool)
        ensures
            b == self.bounded(),
    {
        -COORD_MAX <= self.x0 && self.x0 <= COORD_MAX && -COORD_MAX <= self.y0 && self.y0
            <= COORD_MAX && -COORD_MAX <= self.x1 && self.x1 <= COORD_MAX && -COORD_MAX
            <= self.y1 && self.y1 <= COORD_MAX
    }
}

impl View for Affine {
    type V = AffineModel;

    open spec fn view(&self) -> AffineModel {
        AffineModel {
            xx: self.xx as int,
            yx: self.yx as int,
            xy: self.xy as int,
            yy: self.yy as int,
            tx: self.tx as int,
            ty: self.ty as int,
        }
    }
}

impl Affine {
    pub fn identity() -> (a: Affine)
        ensures
            a@ == identity_model(),
    {
        Affine { xx: 1, yx: 0, xy: 0, yy: 1, tx: 0, ty: 0 }
    }

    pub fn translate(tx: i64, ty: i64) -> (a: Affine)
        ensures
            a@ == (AffineModel { tx: tx as int, ty: ty as int, ..identity_model() }),
    {
        Affine { xx: 1, yx: 0, xy: 0, yy: 1, tx, ty }
    }

    pub fn new(xx: i64, yx: i64, xy: i64, yy: i64, tx: i64, ty: i64) -> (a: Affine)
        ensures
            a == (Affine { xx, yx, xy, yy, tx, ty }),
    {
        Affine { xx, yx, xy, yy, tx, ty }
    }

    pub fn is_bounded(&self) -> (b: bool)
        ensures
            b == affine_bounded(self@),
    {
        -COEFF_MAX <= self.xx && self.xx <= COEFF_MAX && -COEFF_MAX <= self.yx && self.yx
            <= COEFF_MAX && -COEFF_MAX <= self.xy && self.xy <= COEFF_MAX && -COEFF_MAX
            <= self.yy && self.yy <= COEFF_MAX && -COEFF_MAX <= self.tx && self.tx
            <= COEFF_MAX && -COEFF_MAX <= self.ty && self.ty <= COEFF_MAX
    }

    /// Whether both maps and their composition have every coefficient within
    /// `COEFF_MAX`.
    pub fn composes_within(&self, other: &Affine) -> (b: bool)
        ensures
            b == (affine_bounded(self@) && affine_bounded(other@) && affine_bounded(
                compose(self@, other@),
            )),
    {
        if !self.is_bounded() || !other.is_bounded() {
            return false;
        }
        self.then_apply(other).is_bounded()
    }

    /// `self * other`: the map that applies `other` first.
    pub fn then_apply(&self, other: &Affine) -> (r: Affine)
        requires
            affine_bounded(self@),
            affine_bounded(other@),
        ensures
            r@ == compose(self@, other@),
    {
        proof {
            lemma_mul_bounded(self.xx as int, other.xx as int);
            lemma_mul_bounded(self.xy as int, other.yx as int);
            lemma_mul_bounded(self.yx as int, other.xx as int);
            lemma_mul_bounded(self.yy as int, other.yx as int);
            lemma_mul_bounded(self.xx as int, other.xy as int);
            lemma_mul_bounded(self.xy as int, other.yy as int);
            lemma_mul_bounded(self.yx as int, other.xy as int);
            lemma_mul_bounded(self.yy as int, other.yy as int);
            lemma_mul_bounded(self.xx as int, other.tx as int);
            lemma_mul_bounded(self.xy as int, other.ty as int);
            lemma_mul_bounded(self.yx as int, other.tx as int);
            lemma_mul_bounded(self.yy as int, other.ty as int);
        }
        Affine {
            xx: self.xx * other.xx + self.xy * other.yx,
            yx: self.yx * other.xx + self.yy * other.yx,
            xy: self.xx * other.xy + self.xy * other.yy,
            yy: self.yx * other.xy + self.yy * other.yy,
            tx: self.xx * other.tx + self.xy * other.ty + self.tx,
            ty: self.yx * other.tx + self.yy * other.ty + self.ty,
        }
    }
}

proof fn lemma_mul_bounded(a: int, b: int)
    requires
        coeff_ok(a),
        coeff_ok(b),
    ensures
        -COEFF_MAX * COEFF_MAX <= a * b <= COEFF_MAX * COEFF_MAX,
{
    assert(-COEFF_MAX * COEFF_MAX <= a * b <= COEFF_MAX * COEFF_MAX) by (nonlinear_arith)
        requires
            coeff_ok(a),
            coeff_ok(b),
    ;
}

proof fn lemma_expand(a1: int, a2: int, b1: int, b2: int, b3: int, b4: int, b5: int, b6: int, c1: int, c2: int)
    ensures
        (a1 * b1 + a2 * b2) * c1 + (a1 * b3 + a2 * b4) * c2 + (a1 * b5 + a2 * b6) == a1 * (b1 * c1
            + b3 * c2 + b5) + a2 * (b2 * c1 + b4 * c2 + b6),
{
    assert((a1 * b1 + a2 * b2) * c1 == a1 * (b1 * c1) + a2 * (b2 * c1)) by (nonlinear_arith);
    assert((a1 * b3 + a2 * b4) * c2 == a1 * (b3 * c2) + a2 * (b4 * c2)) by (nonlinear_arith);
    assert(a1 * (b1 * c1 + b3 * c2 + b5) == a1 * (b1 * c1) + a1 * (b3 * c2) + a1 * b5)
        by (nonlinear_arith);
    assert(a2 * (b2 * c1 + b4 * c2 + b6) == a2 * (b2 * c1) + a2 * (b4 * c2) + a2 * b6)
        by (nonlinear_arith);
}

/// Composition of affine maps is associative.
pub proof fn lemma_compose_assoc(a: AffineModel, b: AffineModel, c: AffineModel)
    ensures
        compose(compose(a, b), c) == compose(a, compose(b, c)),
{
    lemma_expand(a.xx, a.xy, b.xx, b.yx, b.xy, b.yy, 0, 0, c.xx, c.yx);
    lemma_expand(a.yx, a.yy, b.xx, b.yx, b.xy, b.yy, 0, 0, c.xx, c.yx);
    lemma_expand(a.xx, a.xy, b.xx, b.yx, b.xy, b.yy, 0, 0, c.xy, c.yy);
    lemma_expand(a.yx, a.yy, b.xx, b.yx, b.xy, b.yy, 0, 0, c.xy, c.yy);
    lemma_expand(a.xx, a.xy, b.xx, b.yx, b.xy, b.yy, b.tx, b.ty, c.tx, c.ty);
    lemma_expand(a.yx, a.yy, b.xx, b.yx, b.xy, b.yy, b.tx, b.ty, c.tx, c.ty);
}

/// The identity map is a unit on the right of composition.
pub proof fn lemma_compose_identity(a: AffineModel)
    ensures
        compose(a, identity_model()) == a,
{
}

} // verus!
