//! Plain integer geometry carried as event payload: points, sizes,
//! rectangles and margins, with the usual component-wise arithmetic.

use vstd::prelude::*;

verus! {

#[derive(Copy, Clone, PartialEq, Eq, Structural, Debug)]
pub struct Point {
    pub x: i32,
    pub y: i32,
}

impl Point {
    pub fn new(x: i32, y: i32) -> (p: Point)
        ensures
            p == (Point { x, y }),
    {
        Point { x, y }
    }
}

#[derive(Copy, Clone, PartialEq, Eq, Structural, Debug)]
pub struct Size {
    pub w: i32,
    pub h: i32,
}

impl Size {
    pub fn new(w: i32, h: i32) -> (s: Size)
        ensures
            s == (Size { w, h }),
    {
        Size { w, h }
    }
}

#[derive(Copy, Clone, PartialEq, Eq, Structural, Debug)]
pub struct Rect {
    pub x: i32,
    pub y: i32,
    pub w: i32,
    pub h: i32,
}

impl Rect {
    pub fn new(x: i32, y: i32, w: i32, h: i32) -> (r: Rect)
        ensures
            r == (Rect { x, y, w, h }),
    {
        Rect { x, y, w, h }
    }

    pub fn new_s(x: i32, y: i32, size: Size) -> (r: Rect)
        ensures
            r == (Rect { x, y, w: size.w, h: size.h }),
    {
        Rect { x, y, w: size.w, h: size.h }
    }

    pub fn new_p(point: Point, w: i32, h: i32) -> (r: Rect)
        ensures
            r == (Rect { x: point.x, y: point.y, w, h }),
    {
        Rect { x: point.x, y: point.y, w, h }
    }

    pub fn new_ps(point: Point, size: Size) -> (r: Rect)
        ensures
            r == (Rect { x: point.x, y: point.y, w: size.w, h: size.h }),
    {
        Rect { x: point.x, y: point.y, w: size.w, h: size.h }
    }

    pub fn point(&self) -> (p: Point)
        ensures
            p == (Point { x: self.x, y: self.y }),
    {
        Point { x: self.x, y: self.y }
    }

    pub fn size(&self) -> (s: Size)
        ensures
            s == (Size { w: self.w, h: self.h }),
    {
        Size { w: self.w, h: self.h }
    }
}

#[derive(Copy, Clone, PartialEq, Eq, Structural, Debug)]
pub struct Margins {
    pub l: i32,
    pub r: i32,
    pub t: i32,
    pub b: i32,
}

impl Margins {
    pub fn new(l: i32, r: i32, t: i32, b: i32) -> (m: Margins)
        ensures
            m == (Margins { l, r, t, b }),
    {
        Margins { l, r, t, b }
    }
}

/// Shapes with a scalar area.
pub trait HasArea {
    spec fn spec_area(&self) -> int;

    fn area(&self) -> (a: i32)
        requires
            i32::MIN <= self.spec_area() <= i32::MAX,
        ensures
            a == self.spec_area(),
    ;
}

impl HasArea for Size {
    open spec fn spec_area(&self) -> int {
        self.w * self.h
    }

    fn area(&self) -> (a: i32)
        ensures
            a == self.spec_area(),
    {
        self.w * self.h
    }
}

impl HasArea for Rect {
    open spec fn spec_area(&self) -> int {
        self.w * self.h
    }

    fn area(&self) -> (a: i32)
        ensures
            a == self.spec_area(),
    {
        self.w * self.h
    }
}

impl vstd::std_specs::ops::AddSpecImpl for Point {
    open spec fn obeys_add_spec() -> bool {
        true
    }

    open spec fn add_req(self, rhs: Point) -> bool {
        &&& i32::MIN <= self.x + rhs.x <= i32::MAX
        &&& i32::MIN <= self.y + rhs.y <= i32::MAX
    }

    open spec fn add_spec(self, rhs: Point) -> Point {
        Point { x: (self.x + rhs.x) as i32, y: (self.y + rhs.y) as i32 }
    }
}

impl core::ops::Add for Point {
    type Output = Point;

    fn add(self, rhs: Point) -> Point {
        Point { x: self.x + rhs.x, y: self.y + rhs.y }
    }
}

impl vstd::std_specs::ops::SubSpecImpl for Point {
    open spec fn obeys_sub_spec() -> bool {
        true
    }

    open spec fn sub_req(self, rhs: Point) -> bool {
        &&& i32::MIN <= self.x - rhs.x <= i32::MAX
        &&& i32::MIN <= self.y - rhs.y <= i32::MAX
    }

    open spec fn sub_spec(self, rhs: Point) -> Point {
        Point { x: (self.x - rhs.x) as i32, y: (self.y - rhs.y) as i32 }
    }
}

impl core::ops::Sub for Point {
    type Output = Point;

    fn sub(self, rhs: Point) -> Point {
        Point { x: self.x - rhs.x, y: self.y - rhs.y }
    }
}

impl vstd::std_specs::ops::MulSpecImpl<i32> for Point {
    open spec fn obeys_mul_spec() -> bool {
        true
    }

    open spec fn mul_req(self, rhs: i32) -> bool {
        &&& i32::MIN <= self.x * rhs <= i32::MAX
        &&& i32::MIN <= self.y * rhs <= i32::MAX
    }

    open spec fn mul_spec(self, rhs: i32) -> Point {
        Point { x: (self.x * rhs) as i32, y: (self.y * rhs) as i32 }
    }
}

impl core::ops::Mul<i32> for Point {
    type Output = Point;

    fn mul(self, rhs: i32) -> Point {
        Point { x: self.x * rhs, y: self.y * rhs }
    }
}

/// Division as the machine truncates it, toward zero.
pub open spec fn div_trunc(a: int, b: int) -> int {
    if a >= 0 {
        a / b
    } else {
        -((-a) / b)
    }
}

impl vstd::std_specs::ops::DivSpecImpl<i32> for Point {
    open spec fn obeys_div_spec() -> bool {
        true
    }

    open spec fn div_req(self, rhs: i32) -> bool {
        &&& rhs != 0
        &&& !(self.x == i32::MIN && rhs == -1)
        &&& !(self.y == i32::MIN && rhs == -1)
    }

    open spec fn div_spec(self, rhs: i32) -> Point {
        Point { x: div_trunc(self.x as int, rhs as int) as i32, y: div_trunc(self.y as int, rhs as int) as i32 }
    }
}

impl core::ops::Div<i32> for Point {
    type Output = Point;

    fn div(self, rhs: i32) -> Point {
        Point { x: self.x / rhs, y: self.y / rhs }
    }
}

impl vstd::std_specs::ops::AddSpecImpl<Margins> for Rect {
    open spec fn obeys_add_spec() -> bool {
        true
    }

    open spec fn add_req(self, rhs: Margins) -> bool {
        &&& i32::MIN <= self.x - rhs.l <= i32::MAX
        &&& i32::MIN <= self.y - rhs.t <= i32::MAX
        &&& i32::MIN <= rhs.l + rhs.r <= i32::MAX
        &&& i32::MIN <= rhs.t + rhs.b <= i32::MAX
        &&& i32::MIN <= self.w + rhs.l + rhs.r <= i32::MAX
        &&& i32::MIN <= self.h + rhs.t + rhs.b <= i32::MAX
    }

    open spec fn add_spec(self, rhs: Margins) -> Rect {
        Rect {
            x: (self.x - rhs.l) as i32,
            y: (self.y - rhs.t) as i32,
            w: (self.w + rhs.l + rhs.r) as i32,
            h: (self.h + rhs.t + rhs.b) as i32,
        }
    }
}

impl core::ops::Add<Margins> for Rect {
    type Output = Rect;

    fn add(self, rhs: Margins) -> Rect {
        Rect {
            x: self.x - rhs.l,
            y: self.y - rhs.t,
            w: self.w + (rhs.l + rhs.r),
            h: self.h + (rhs.t + rhs.b),
        }
    }
}

impl vstd::std_specs::ops::SubSpecImpl<Margins> for Rect {
    open spec fn obeys_sub_spec() -> bool {
        true
    }

    open spec fn sub_req(self, rhs: Margins) -> bool {
        &&& i32::MIN <= self.x + rhs.l <= i32::MAX
        &&& i32::MIN <= self.y + rhs.t <= i32::MAX
        &&& i32::MIN <= rhs.l + rhs.r <= i32::MAX
        &&& i32::MIN <= rhs.t + rhs.b <= i32::MAX
        &&& i32::MIN <= self.w - rhs.l - rhs.r <= i32::MAX
        &&& i32::MIN <= self.h - rhs.t - rhs.b <= i32::MAX
    }

    open spec fn sub_spec(self, rhs: Margins) -> Rect {
        Rect {
            x: (self.x + rhs.l) as i32,
            y: (self.y + rhs.t) as i32,
            w: (self.w - rhs.l - rhs.r) as i32,
            h: (self.h - rhs.t - rhs.b) as i32,
        }
    }
}

impl core::ops::Sub<Margins> for Rect {
    type Output = Rect;

    fn sub(self, rhs: Margins) -> Rect {
        Rect {
            x: self.x + rhs.l,
            y: self.y + rhs.t,
            w: self.w - (rhs.l + rhs.r),
            h: self.h - (rhs.t + rhs.b),
        }
    }
}

} // verus!
