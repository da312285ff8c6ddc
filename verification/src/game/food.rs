use vstd::prelude::*;

use crate::game::snek::Snek;
use crate::game::vec2::Vec2;

use crate::rng::RandomSource;

verus! {

/// Whether some cell inside `bounds` is not covered by the snek.
pub open spec fn has_free_cell(bounds: Vec2, snek: Snek) -> bool {
    exists|p: Vec2|
        0 <= p.x < bounds.x && 0 <= p.y < bounds.y && !snek.parts@.contains(p)
}

/// How many random placements are tried before falling back to a scan.
const PLACEMENT_TRIES: usize = 64;

/// A morsel for the snek, somewhere on the grid.
#[derive(Debug, PartialEq, Eq, Structural)]
pub struct Food(pub Vec2);

impl Food {
    /// Food at the given position.
    pub fn new(pos: Vec2) -> (r: Food)
        ensures
            r.0 == pos,
    {
        Food(pos)
    }

    /// Food somewhere inside the bounds and, as long as the snek leaves any
    /// cell free, not on top of the snek.  Random positions are drawn first
    /// — two draws each, one per coordinate — and a scan of the grid stands
    /// in when the snek is too much in the way.
    pub fn random<R: RandomSource>(bounds: &Vec2, snek: &Snek, prng: &mut R) -> (r: Food)
        requires
            bounds.x >= 1,
            bounds.y >= 1,
        ensures
            0 <= r.0.x < bounds.x,
            0 <= r.0.y < bounds.y,
            has_free_cell(*bounds, *snek) ==> !snek.parts@.contains(r.0),
    {
        let mut tries: usize = 0;
        while tries < PLACEMENT_TRIES
            invariant
                bounds.x >= 1,
                bounds.y >= 1,
            decreases PLACEMENT_TRIES - tries,
        {
            let x = prng.next_below(bounds.x as u128) as i32;
            let y = prng.next_below(bounds.y as u128) as i32;
            let proposed = Vec2 { x, y };
            if !snek.touches(&proposed) {
                return Food(proposed);
            }
            tries = tries + 1;
        }

        // The draws kept landing on the snek: take the first free cell, if
        // any cell is free at all.
        let mut y: i32 = 0;
        while y < bounds.y
            invariant
                bounds.x >= 1,
                bounds.y >= 1,
                0 <= y <= bounds.y,
                forall|p: Vec2|
                    0 <= p.x < bounds.x && 0 <= p.y < y ==> snek.parts@.contains(p),
            decreases bounds.y - y,
        {
            let mut x: i32 = 0;
            while x < bounds.x
                invariant
                    bounds.x >= 1,
                    0 <= y < bounds.y,
                    0 <= x <= bounds.x,
                    forall|p: Vec2|
                        0 <= p.x < bounds.x && 0 <= p.y < y ==> snek.parts@.contains(p),
                    forall|p: Vec2|
                        0 <= p.x < x && p.y == y ==> snek.parts@.contains(p),
                decreases bounds.x - x,
            {
                let proposed = Vec2 { x, y };
                if !snek.touches(&proposed) {
                    return Food(proposed);
                }
                x = x + 1;
            }
            y = y + 1;
        }

        proof {
            assert(!has_free_cell(*bounds, *snek));
        }
        Food(Vec2 { x: 0, y: 0 })
    }

    /// Where the food sits.
    pub fn pos(&self) -> (r: &Vec2)
        ensures
            *r == self.0,
    {
        &self.0
    }
}

} // verus!
