use vstd::prelude::*;
use crate::bubble::{Bubble, BubbleModel, models, COORD_LIMIT};
use crate::draw::draw_between;

verus! {

/// Bound on the width and height of a level.
pub const EXTENT_LIMIT: i64 = 0x100_0000_0000;

/// Size of a new bubble: from 50 px inclusive to 200 px exclusive.
pub const RADIUS_LOW: i64 = 50_000;
pub const RADIUS_HIGH: i64 = 200_000;

/// Horizontal spread of a new bubble on each side of its center.
pub const SPREAD: i64 = 100_000;

/// Upward speed of a new bubble: from 0.2 px inclusive to 1 px exclusive.
pub const SPEED_LOW: i64 = 200;
pub const SPEED_HIGH: i64 = 1000;

/// Sideways drift of a new bubble: from -1 px inclusive to 1 px exclusive.
pub const DRIFT_LOW: i64 = -1000;
pub const DRIFT_HIGH: i64 = 1000;

/// The mathematical value of a level.
pub ghost struct LevelModel {
    pub width: int,
    pub height: int,
    pub bubbles: Seq<BubbleModel>,
}

/// The horizontal reference of a new bubble of size `radius`: half the width,
/// moved left by half the size (each half rounded down to a unit).
pub open spec fn center_of(width: int, radius: int) -> int {
    width / 2 - radius / 2
}

/// The bubbles of `s` whose box lies inside the viewport.
pub open spec fn survivors(s: Seq<BubbleModel>, width: int, height: int) -> Seq<BubbleModel> {
    s.filter(|b: BubbleModel| b.inside(width, height))
}

/// Every bubble of `s` after one step.
pub open spec fn all_risen(s: Seq<BubbleModel>) -> Seq<BubbleModel> {
    s.map_values(|b: BubbleModel| b.risen())
}

impl LevelModel {
    /// A positive extent within bounds, and every bubble bounded.
    pub open spec fn wf(self) -> bool {
        &&& 0 < self.width <= EXTENT_LIMIT
        &&& 0 < self.height <= EXTENT_LIMIT
        &&& forall|i: int| 0 <= i < self.bubbles.len() ==> (#[trigger] self.bubbles[i]).bounded()
    }

    /// The level after one step: every bubble moves, then every bubble
    /// outside the viewport is removed.
    pub open spec fn ticked(self) -> LevelModel {
        LevelModel {
            bubbles: survivors(all_risen(self.bubbles), self.width, self.height),
            ..self
        }
    }

    /// `b` is a bubble that spawning can produce in this level.
    pub open spec fn spawnable(self, b: BubbleModel) -> bool {
        &&& RADIUS_LOW <= b.radius < RADIUS_HIGH
        &&& center_of(self.width, b.radius) - SPREAD <= b.x < center_of(self.width, b.radius) + SPREAD
        &&& SPEED_LOW <= b.speed < SPEED_HIGH
        &&& DRIFT_LOW <= b.direction < DRIFT_HIGH
        &&& b.y == self.height - b.radius
    }
}

/// A viewport and the bubbles that live in it.
pub struct Level {
    width: i64,
    height: i64,
    bubbles: Vec<Bubble>,
}

impl View for Level {
    type V = LevelModel;

    closed spec fn view(&self) -> LevelModel {
        LevelModel { width: self.width as int, height: self.height as int, bubbles: models(self.bubbles@) }
    }
}

/// Filtering a sequence whose elements all pass leaves it as it is.
proof fn lemma_filter_all(s: Seq<BubbleModel>, width: int, height: int)
    requires
        forall|i: int| 0 <= i < s.len() ==> (#[trigger] s[i]).inside(width, height),
    ensures
        survivors(s, width, height) == s,
    decreases s.len(),
{
    reveal(Seq::filter);
    if s.len() > 0 {
        lemma_filter_all(s.drop_last(), width, height);
        assert(s.drop_last().push(s.last()) =~= s);
    }
}

/// After a step, every bubble that is left lies inside the viewport.
pub proof fn lemma_tick_keeps_inside(m: LevelModel)
    ensures
        forall|i: int| 0 <= i < m.ticked().bubbles.len() ==>
            (#[trigger] m.ticked().bubbles[i]).inside(m.width, m.height),
{
    let s = all_risen(m.bubbles);
    assert forall|i: int| 0 <= i < m.ticked().bubbles.len() implies
        (#[trigger] m.ticked().bubbles[i]).inside(m.width, m.height) by {
        s.lemma_filter_pred(|b: BubbleModel| b.inside(m.width, m.height), i);
    }
}

/// A step moves each bubble exactly once: where no bubble leaves the viewport,
/// the bubbles stay, in their order, each up by its own speed and sideways by
/// its own drift.
pub proof fn lemma_tick_moves_each_once(m: LevelModel)
    requires
        forall|i: int| 0 <= i < m.bubbles.len() ==> (#[trigger] m.bubbles[i]).risen().inside(m.width, m.height),
    ensures
        m.ticked().bubbles.len() == m.bubbles.len(),
        forall|i: int| 0 <= i < m.bubbles.len() ==> {
            &&& (#[trigger] m.ticked().bubbles[i]).y == m.bubbles[i].y - m.bubbles[i].speed
            &&& m.ticked().bubbles[i].x == m.bubbles[i].x + m.bubbles[i].direction
            &&& m.ticked().bubbles[i].radius == m.bubbles[i].radius
        },
{
    let s = all_risen(m.bubbles);
    assert forall|i: int| 0 <= i < s.len() implies (#[trigger] s[i]).inside(m.width, m.height) by {
        assert(s[i] == m.bubbles[i].risen());
    }
    lemma_filter_all(s, m.width, m.height);
}

/// A step keeps a level well formed.
proof fn lemma_tick_wf(m: LevelModel)
    requires
        m.wf(),
    ensures
        m.ticked().wf(),
{
    let s = all_risen(m.bubbles);
    let pred = |b: BubbleModel| b.inside(m.width, m.height);
    lemma_tick_keeps_inside(m);
    assert forall|i: int| 0 <= i < m.ticked().bubbles.len() implies (#[trigger] m.ticked().bubbles[i]).bounded() by {
        let e = m.ticked().bubbles[i];
        assert(s.filter(pred).contains(e));
        s.lemma_filter_contains_rev(pred, e);
        let j = choose|j: int| 0 <= j < s.len() && s[j] == e;
        assert(m.bubbles[j].bounded());
    }
}

/// A step on a level without bubbles leaves it without bubbles.
pub proof fn lemma_tick_empty(m: LevelModel)
    requires
        m.bubbles.len() == 0,
    ensures
        m.ticked().bubbles.len() == 0,
        m.ticked().width == m.width,
        m.ticked().height == m.height,
{
    lemma_filter_all(all_risen(m.bubbles), m.width, m.height);
}

impl Level {
    /// An empty level of the given extent, in sub-pixel units.
    pub fn new(width: i64, height: i64) -> (r: Level)
        requires
            0 < width <= EXTENT_LIMIT,
            0 < height <= EXTENT_LIMIT,
        ensures
            r@.wf(),
            r@.width == width,
            r@.height == height,
            r@.bubbles.len() == 0,
    {
        let r = Level { width, height, bubbles: Vec::new() };
        assert(r@.bubbles =~= Seq::<BubbleModel>::empty());
        r
    }

    pub fn width(&self) -> (r: i64)
        ensures
            r == self@.width,
    {
        self.width
    }

    pub fn height(&self) -> (r: i64)
        ensures
            r == self@.height,
    {
        self.height
    }

    /// The live bubbles.
    pub fn bubbles(&self) -> (r: &Vec<Bubble>)
        ensures
            models(r@) == self@.bubbles,
    {
        &self.bubbles
    }
}


impl Level {
    /// One step: every bubble rises, then every bubble whose box is no longer
    /// strictly inside the viewport is removed. The others keep their order.
    pub fn update(&mut self)
        requires
            old(self)@.wf(),
        ensures
            final(self)@.wf(),
            final(self)@ == old(self)@.ticked(),
            forall|i: int| 0 <= i < final(self)@.bubbles.len() ==>
                (#[trigger] final(self)@.bubbles[i]).inside(final(self)@.width, final(self)@.height),
            old(self)@.bubbles.len() == 0 ==> final(self)@.bubbles.len() == 0,
    {
        let ghost start = self@;
        let n = self.bubbles.len();
        let mut i: usize = 0;
        while i < n
            invariant
                start.wf(),
                0 <= i <= n,
                n == self.bubbles@.len(),
                self.width == start.width,
                self.height == start.height,
                start.bubbles.len() == n,
                forall|j: int| 0 <= j < i ==> (#[trigger] self.bubbles@[j])@ == start.bubbles[j].risen(),
                forall|j: int| i <= j < n ==> (#[trigger] self.bubbles@[j])@ == start.bubbles[j],
            decreases n - i,
        {
            let mut b = self.bubbles[i];
            assert(start.bubbles[i as int].bounded());
            b.rise();
            self.bubbles.set(i, b);
            i = i + 1;
        }
        let ghost moved = all_risen(start.bubbles);
        assert(models(self.bubbles@) =~= moved);
        let w = self.width;
        let h = self.height;
        let mut kept: Vec<Bubble> = Vec::new();
        let mut k: usize = 0;
        while k < n
            invariant
                start.wf(),
                0 <= k <= n,
                n == self.bubbles@.len(),
                w == start.width,
                h == start.height,
                moved.len() == n,
                models(self.bubbles@) == moved,
                moved == all_risen(start.bubbles),
                models(kept@) == survivors(moved.take(k as int), w as int, h as int),
            decreases n - k,
        {
            let b = self.bubbles[k];
            assert(b@ == moved[k as int]);
            assert(start.bubbles[k as int].bounded());
            let keep = b.location.y > 0 && b.location.y + b.radius < h && b.location.x > 0
                && b.location.x + b.radius < w;
            let ghost before = kept@;
            if keep {
                kept.push(b);
                assert(models(kept@) =~= models(before).push(b@));
            }
            proof {
                let t = moved.take(k + 1);
                assert(t.drop_last() =~= moved.take(k as int));
                assert(t.last() == b@);
                reveal(Seq::filter);
            }
            k = k + 1;
        }
        assert(moved.take(n as int) =~= moved);
        self.bubbles = kept;
        proof {
            lemma_tick_keeps_inside(start);
            if start.bubbles.len() == 0 {
                lemma_tick_empty(start);
            }
            lemma_tick_wf(start);
        }
    }

    /// Adds the bubble that a spawn with these drawn values makes: size
    /// `radius`, corner at `x` and flush with the bottom edge
    /// (`y == height - radius`), moving by `speed` and `direction` each step.
    pub fn place_bubble(&mut self, radius: i64, x: i64, speed: i64, direction: i64)
        requires
            old(self)@.wf(),
            0 < radius <= EXTENT_LIMIT,
            -COORD_LIMIT <= x <= COORD_LIMIT,
            -COORD_LIMIT <= speed <= COORD_LIMIT,
            -COORD_LIMIT <= direction <= COORD_LIMIT,
        ensures
            final(self)@.wf(),
            final(self)@ == (LevelModel {
                bubbles: old(self)@.bubbles.push(BubbleModel {
                    x: x as int,
                    y: old(self)@.height - radius,
                    radius: radius as int,
                    speed: speed as int,
                    direction: direction as int,
                }),
                ..old(self)@
            }),
    {
        let b = Bubble::new(x, self.height - radius, radius, speed, direction);
        let ghost before = self.bubbles@;
        self.bubbles.push(b);
        assert(models(self.bubbles@) =~= models(before).push(b@));
    }

    /// Adds one bubble with random size, position, speed and drift: its size
    /// in `[RADIUS_LOW, RADIUS_HIGH)`, its corner within `SPREAD` of the center
    /// (left side included), flush with the bottom edge, its speed in
    /// `[SPEED_LOW, SPEED_HIGH)` and its drift in `[DRIFT_LOW, DRIFT_HIGH)`.
    pub fn add_bubble(&mut self)
        requires
            old(self)@.wf(),
        ensures
            final(self)@.wf(),
            final(self)@.width == old(self)@.width,
            final(self)@.height == old(self)@.height,
            final(self)@.bubbles.len() == old(self)@.bubbles.len() + 1,
            final(self)@.bubbles.drop_last() == old(self)@.bubbles,
            old(self)@.spawnable(final(self)@.bubbles.last()),
    {
        let radius = draw_between(RADIUS_LOW, RADIUS_HIGH);
        let center = self.width / 2 - radius / 2;
        let x = draw_between(center - SPREAD, center + SPREAD);
        let speed = draw_between(SPEED_LOW, SPEED_HIGH);
        let direction = draw_between(DRIFT_LOW, DRIFT_HIGH);
        self.place_bubble(radius, x, speed, direction);
        assert(self@.bubbles.drop_last() =~= old(self)@.bubbles);
    }
}

} // verus!
