use vstd::prelude::*;

verus! {

/// Sub-pixel units in one pixel.
pub const UNITS_PER_PIXEL: i64 = 1000;

/// Bound on the magnitude of every field of a bubble held by a level.
pub const COORD_LIMIT: i64 = 0x400_0000_0000;

/// A position in sub-pixel units, y growing downward.
#[derive(Clone, Copy, Debug, PartialEq, Eq)]
pub struct Point {
    pub x: i64,
    pub y: i64,
}

impl Point {
    pub fn new(x: i64, y: i64) -> (r: Point)
        ensures
            r.x == x,
            r.y == y,
    {
        Point { x, y }
    }
}

/// One bubble: the top-left corner of its box, its size, and the distance it
/// travels up (`speed`) and sideways (`direction`) in one step.
#[derive(Clone, Copy, Debug, PartialEq, Eq)]
pub struct Bubble {
    pub location: Point,
    pub radius: i64,
    pub speed: i64,
    pub direction: i64,
}

/// The mathematical value of a bubble.
pub ghost struct BubbleModel {
    pub x: int,
    pub y: int,
    pub radius: int,
    pub speed: int,
    pub direction: int,
}

impl BubbleModel {
    /// The bubble after one step: up by its speed, sideways by its drift.
    pub open spec fn risen(self) -> BubbleModel {
        BubbleModel { x: self.x + self.direction, y: self.y - self.speed, ..self }
    }

    /// The box lies strictly inside the open viewport `(0, width) x (0, height)`.
    pub open spec fn inside(self, width: int, height: int) -> bool {
        &&& 0 < self.y
        &&& self.y + self.radius < height
        &&& 0 < self.x
        &&& self.x + self.radius < width
    }

    /// Positive size, and every field of a magnitude that arithmetic on it
    /// cannot overflow.
    pub open spec fn bounded(self) -> bool {
        &&& 0 < self.radius <= COORD_LIMIT
        &&& -COORD_LIMIT <= self.x <= COORD_LIMIT
        &&& -COORD_LIMIT <= self.y <= COORD_LIMIT
        &&& -COORD_LIMIT <= self.speed <= COORD_LIMIT
        &&& -COORD_LIMIT <= self.direction <= COORD_LIMIT
    }
}

impl View for Bubble {
    type V = BubbleModel;

    open spec fn view(&self) -> BubbleModel {
        BubbleModel {
            x: self.location.x as int,
            y: self.location.y as int,
            radius: self.radius as int,
            speed: self.speed as int,
            direction: self.direction as int,
        }
    }
}

/// The models of a sequence of bubbles.
pub open spec fn models(s: Seq<Bubble>) -> Seq<BubbleModel> {
    s.map_values(|b: Bubble| b@)
}

impl Bubble {
    /// Stores the five values as given.
    pub fn new(x: i64, y: i64, radius: i64, speed: i64, direction: i64) -> (r: Bubble)
        ensures
            r@ == (BubbleModel { x: x as int, y: y as int, radius: radius as int, speed: speed as int, direction: direction as int }),
    {
        Bubble { location: Point::new(x, y), radius, speed, direction }
    }

    /// Moves the bubble one step: `y` down by `speed`, `x` up by `direction`.
    pub fn rise(&mut self)
        requires
            i64::MIN <= old(self).location.y - old(self).speed <= i64::MAX,
            i64::MIN <= old(self).location.x + old(self).direction <= i64::MAX,
        ensures
            final(self)@ == old(self)@.risen(),
    {
        self.location.y = self.location.y - self.speed;
        self.location.x = self.location.x + self.direction;
    }
}

} // verus!
