use vstd::prelude::*;

use std::collections::VecDeque;

use crate::game::grid::wrap_coord;
use crate::game::vec2::Vec2;
use crate::rng::{RandomSource, HALF};

verus! {

/// The orientation a snek starts with: straight up.
pub open spec fn facing_up() -> Vec2 {
    Vec2 { x: 0, y: 1 }
}

/// A direction turned a quarter turn to the left.
pub open spec fn turned_left(v: Vec2) -> Vec2 {
    Vec2 { x: (-v.y) as i32, y: v.x }
}

/// A direction turned a quarter turn to the right.
pub open spec fn turned_right(v: Vec2) -> Vec2 {
    Vec2 { x: v.y, y: (-v.x) as i32 }
}

/// The snek: an ordered queue of body positions, the head at the back, and
/// the direction it is moving in.
#[derive(Debug)]
pub struct Snek {
    pub parts: VecDeque<Vec2>,
    pub orientation: Vec2,
}

impl Default for Snek {
    /// A default snek starts at the origin, facing up.
    fn default() -> (r: Snek)
        ensures
            r.parts@ == seq![Vec2 { x: 0, y: 0 }],
            r.orientation == facing_up(),
            r.wf(),
    {
        Snek::new(Vec2 { x: 0, y: 0 })
    }
}

impl Snek {
    /// A snek always has at least its head.
    pub open spec fn wf(&self) -> bool {
        self.parts@.len() >= 1
    }

    /// The head position, as the contracts see it.
    pub open spec fn head_spec(&self) -> Vec2 {
        self.parts@.last()
    }

    /// A one-part snek at the given position, facing up.
    pub fn new(pos: Vec2) -> (r: Snek)
        ensures
            r.parts@ == seq![pos],
            r.orientation == facing_up(),
            r.wf(),
    {
        let mut parts: VecDeque<Vec2> = VecDeque::new();
        parts.push_back(pos);
        proof {
            assert(parts@ =~= seq![pos]);
        }
        Snek { parts, orientation: Vec2 { x: 0, y: 1 } }
    }

    /// How long the snek is, not counting its head.
    pub fn len(&self) -> (r: usize)
        requires
            self.wf(),
        ensures
            r == self.parts@.len() - 1,
    {
        self.parts.len() - 1
    }

    /// Whether the snek is just a head with no tail.
    pub fn is_empty(&self) -> (r: bool)
        requires
            self.wf(),
        ensures
            r == (self.parts@.len() == 1),
    {
        self.parts.len() == 1
    }

    /// The body positions, tail first, head last.
    pub fn parts(&self) -> (r: Vec<Vec2>)
        ensures
            r@ == self.parts@,
    {
        let mut collected: Vec<Vec2> = Vec::new();
        let mut i: usize = 0;
        while i < self.parts.len()
            invariant
                i <= self.parts@.len(),
                collected@ == self.parts@.subrange(0, i as int),
            decreases self.parts@.len() - i,
        {
            collected.push(self.parts[i]);
            proof {
                assert(collected@ =~= self.parts@.subrange(0, i + 1));
            }
            i = i + 1;
        }
        proof {
            assert(collected@ =~= self.parts@);
        }
        collected
    }

    /// The current position of the head.
    pub fn head(&self) -> (r: &Vec2)
        requires
            self.wf(),
        ensures
            *r == self.head_spec(),
    {
        &self.parts[self.parts.len() - 1]
    }

    /// The current direction of the snek.
    pub fn orientation(&self) -> (r: &Vec2)
        ensures
            *r == self.orientation,
    {
        &self.orientation
    }

    /// The current direction of the snek, under the name the first game
    /// used for it.
    pub fn direction(&self) -> (r: &Vec2)
        ensures
            *r == self.orientation,
    {
        &self.orientation
    }

    /// Points the snek in a new direction, under the name the first game
    /// used for it.
    pub fn set_direction(&mut self, new_direction: Vec2)
        ensures
            final(self).orientation == new_direction,
            final(self).parts@ == old(self).parts@,
    {
        self.orientation = new_direction;
    }

    /// Points the snek in a new direction.
    pub fn set_orientation(&mut self, new_orientation: Vec2)
        ensures
            final(self).orientation == new_orientation,
            final(self).parts@ == old(self).parts@,
    {
        self.orientation = new_orientation;
    }

    /// Turns the snek a quarter turn to the left.
    pub fn turn_left(&mut self)
        requires
            old(self).orientation.y > i32::MIN,
        ensures
            final(self).orientation == turned_left(old(self).orientation),
            final(self).parts@ == old(self).parts@,
    {
        self.orientation = Vec2 { x: -self.orientation.y, y: self.orientation.x };
    }

    /// Turns the snek a quarter turn to the right.
    pub fn turn_right(&mut self)
        requires
            old(self).orientation.x > i32::MIN,
        ensures
            final(self).orientation == turned_right(old(self).orientation),
            final(self).parts@ == old(self).parts@,
    {
        self.orientation = Vec2 { x: self.orientation.y, y: -self.orientation.x };
    }

    /// Points the snek along a random axis: two fair coins pick one of the
    /// four directions.
    pub fn random_direction<R: RandomSource>(&mut self, prng: &mut R)
        ensures
            final(self).parts@ == old(self).parts@,
            final(self).orientation == (Vec2 { x: -1i32, y: 0i32 }) || final(self).orientation
                == (Vec2 { x: 1i32, y: 0i32 }) || final(self).orientation == (Vec2 {
                x: 0i32,
                y: -1i32,
            }) || final(self).orientation == (Vec2 { x: 0i32, y: 1i32 }),
    {
        let horizontal = prng.coin(HALF);
        let backwards = prng.coin(HALF);
        let direction = match (horizontal, backwards) {
            (true, true) => Vec2 { x: -1, y: 0 },
            (true, false) => Vec2 { x: 1, y: 0 },
            (false, true) => Vec2 { x: 0, y: -1 },
            (false, false) => Vec2 { x: 0, y: 1 },
        };
        self.orientation = direction;
    }

    /// Whether any part of the snek sits on `pos`.
    pub fn touches(&self, pos: &Vec2) -> (r: bool)
        ensures
            r == self.parts@.contains(*pos),
    {
        let mut i: usize = 0;
        while i < self.parts.len()
            invariant
                i <= self.parts@.len(),
                forall|j: int| 0 <= j < i ==> self.parts@[j] != *pos,
            decreases self.parts@.len() - i,
        {
            if self.parts[i] == *pos {
                proof {
                    assert(self.parts@.contains(*pos));
                }
                return true;
            }
            i = i + 1;
        }
        proof {
            assert(!self.parts@.contains(*pos));
        }
        false
    }

    /// Whether the head sits on `pos`.
    pub fn head_is_touching(&self, pos: &Vec2) -> (r: bool)
        requires
            self.wf(),
        ensures
            r == (self.head_spec() == *pos),
    {
        *self.head() == *pos
    }

    /// Whether the head has run into the body: some earlier part sits where
    /// the head is.
    pub fn hit_self(&self) -> (r: bool)
        requires
            self.wf(),
        ensures
            r == exists|j: int|
                0 <= j < self.parts@.len() - 1 && self.parts@[j] == self.head_spec(),
    {
        if self.is_empty() {
            return false;
        }
        let head = *self.head();
        let mut i: usize = 0;
        while i < self.parts.len() - 1
            invariant
                self.parts@.len() >= 1,
                i <= self.parts@.len() - 1,
                head == self.head_spec(),
                forall|j: int| 0 <= j < i ==> self.parts@[j] != head,
            decreases self.parts@.len() - 1 - i,
        {
            if self.parts[i] == head {
                return true;
            }
            i = i + 1;
        }
        false
    }

    /// Moves the snek one step in its direction, wrapping at the bounds.
    /// The new head cell is pushed; unless it holds the food — which the
    /// snek then eats, growing by one — the tail cell is popped.  Returns
    /// whether the food was eaten.
    pub fn advance(&mut self, bounds: &Vec2, food: &Vec2) -> (r: bool)
        requires
            old(self).wf(),
            bounds.x >= 1,
            bounds.y >= 1,
        ensures
            final(self).wf(),
            final(self).orientation == old(self).orientation,
            final(self).head_spec() == next_head(*old(self), *bounds),
            r == (next_head(*old(self), *bounds) == *food),
            r ==> final(self).parts@ == old(self).parts@.push(next_head(*old(self), *bounds)),
            !r ==> final(self).parts@ == old(self).parts@.subrange(
                1,
                old(self).parts@.len() as int,
            ).push(next_head(*old(self), *bounds)),
    {
        let head = *self.head();
        let nx = head.x as i64 + self.orientation.x as i64;
        let ny = head.y as i64 + self.orientation.y as i64;
        let new_head = Vec2 {
            x: wrap_coord(nx, bounds.x),
            y: wrap_coord(ny, bounds.y),
        };

        self.parts.push_back(new_head);

        if new_head == *food {
            true
        } else {
            let popped = self.parts.pop_front();
            proof {
                assert(self.parts@ =~= old(self).parts@.subrange(
                    1,
                    old(self).parts@.len() as int,
                ).push(new_head));
            }
            false
        }
    }
}

/// Where the head lands after one step: the head moved by the orientation,
/// wrapped into the bounds.
pub open spec fn next_head(snek: Snek, bounds: Vec2) -> Vec2 {
    Vec2 {
        x: ((snek.head_spec().x + snek.orientation.x) % (bounds.x as int)) as i32,
        y: ((snek.head_spec().y + snek.orientation.y) % (bounds.y as int)) as i32,
    }
}

} // verus!
