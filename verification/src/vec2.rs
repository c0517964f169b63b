//! Integer points and sizes on the screen grid.

use vstd::prelude::*;
use vstd::std_specs::ops::AddSpecImpl;
use vstd::std_specs::ops::MulSpecImpl;

verus! {

/// A point or a size in character cells: `x` counts columns, `y` counts rows.
#[derive(Debug, Copy, Clone, PartialEq, Eq, Structural)]
pub struct Vec2 {
    pub x: i32,
    pub y: i32,
}

impl Vec2 {
    /// The origin, and the size of nothing.
    pub fn zero() -> (v: Self)
        ensures
            v == (Vec2 { x: 0, y: 0 }),
    {
        Self::new(0, 0)
    }

    pub fn new(x: i32, y: i32) -> (v: Self)
        ensures
            v == (Vec2 { x, y }),
    {
        Vec2 { x, y }
    }

    /// Whether the componentwise sum with `rhs` fits in `i32`.
    pub open spec fn can_add(self, rhs: Vec2) -> bool {
        &&& i32::MIN <= self.x + rhs.x <= i32::MAX
        &&& i32::MIN <= self.y + rhs.y <= i32::MAX
    }

    /// Whether the componentwise product with `rhs` fits in `i32`.
    pub open spec fn can_mul(self, rhs: Vec2) -> bool {
        &&& i32::MIN <= self.x * rhs.x <= i32::MAX
        &&& i32::MIN <= self.y * rhs.y <= i32::MAX
    }
}

impl AddSpecImpl for Vec2 {
    open spec fn obeys_add_spec() -> bool {
        true
    }

    open spec fn add_req(self, rhs: Vec2) -> bool {
        self.can_add(rhs)
    }

    open spec fn add_spec(self, rhs: Vec2) -> Vec2 {
        Vec2 { x: (self.x + rhs.x) as i32, y: (self.y + rhs.y) as i32 }
    }
}

/// `a + b` adds componentwise.
impl core::ops::Add for Vec2 {
    type Output = Vec2;

    fn add(self, rhs: Self) -> (sum: Vec2)
        ensures
            sum.x == self.x + rhs.x,
            sum.y == self.y + rhs.y,
    {
        Vec2 { x: self.x + rhs.x, y: self.y + rhs.y }
    }
}

impl MulSpecImpl for Vec2 {
    open spec fn obeys_mul_spec() -> bool {
        true
    }

    open spec fn mul_req(self, rhs: Vec2) -> bool {
        self.can_mul(rhs)
    }

    open spec fn mul_spec(self, rhs: Vec2) -> Vec2 {
        Vec2 { x: (self.x * rhs.x) as i32, y: (self.y * rhs.y) as i32 }
    }
}

/// `a * b` multiplies componentwise. With `(1, 0)` or `(0, 1)` as one factor
/// it keeps one axis of the other and clears the second.
impl core::ops::Mul for Vec2 {
    type Output = Vec2;

    fn mul(self, rhs: Self) -> (product: Vec2)
        ensures
            product.x == self.x * rhs.x,
            product.y == self.y * rhs.y,
    {
        Vec2 { x: self.x * rhs.x, y: self.y * rhs.y }
    }
}

} // verus!
