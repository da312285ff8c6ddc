use vstd::prelude::*;

use crate::game::food::{has_free_cell, Food};
use crate::game::grid::Grid;
use crate::game::snek::{next_head, Snek};
use crate::game::vec2::Vec2;
use crate::rng::RandomSource;

verus! {

/// One running game: the snek, the food, the grid it all lives on, the
/// source of randomness for new food, and whether play goes on.
pub struct GameState<R: RandomSource> {
    pub snek: Snek,
    pub food: Food,
    pub grid: Grid,
    pub prng: R,
    pub play: bool,
}

impl<R: RandomSource> GameState<R> {
    /// The pieces fit together: a well-formed grid, a well-formed snek, and
    /// food inside the bounds.
    pub open spec fn wf(&self) -> bool {
        &&& self.grid.wf()
        &&& self.snek.wf()
        &&& 0 <= self.food.0.x < self.grid.size.x
        &&& 0 <= self.food.0.y < self.grid.size.y
    }

    /// A fresh game on `grid`: a one-part snek at the origin, food placed
    /// at random, play on.
    pub fn new(grid: Grid, prng: R) -> (r: GameState<R>)
        requires
            grid.wf(),
        ensures
            r.wf(),
            r.grid == grid,
            r.snek.parts@ == seq![Vec2 { x: 0, y: 0 }],
            r.snek.orientation == (Vec2 { x: 0, y: 1 }),
            r.play,
            // On any grid bigger than the single cell the snek occupies,
            // the food starts off the snek.
            grid.size.x >= 2 || grid.size.y >= 2 ==> !r.snek.parts@.contains(r.food.0),
    {
        let snek = Snek::new(Vec2 { x: 0, y: 0 });
        let mut prng = prng;
        let food = Food::random(grid.bounds(), &snek, &mut prng);
        proof {
            // A one-part snek on a grid of at least one cell always leaves
            // a free cell unless the grid is a single cell it occupies; the
            // witness below covers every shape.
            if grid.size.x >= 2 {
                assert(has_free_cell(grid.size, snek)) by {
                    assert(seq![Vec2 { x: 0, y: 0 }].contains(Vec2 { x: 1, y: 0 }) ==> seq![
                        Vec2 { x: 0, y: 0 },
                    ][0] == (Vec2 { x: 1, y: 0 }));
                }
            } else if grid.size.y >= 2 {
                assert(has_free_cell(grid.size, snek)) by {
                    assert(seq![Vec2 { x: 0, y: 0 }].contains(Vec2 { x: 0, y: 1 }) ==> seq![
                        Vec2 { x: 0, y: 0 },
                    ][0] == (Vec2 { x: 0, y: 1 }));
                }
            }
        }
        GameState { snek, food, grid, prng, play: true }
    }

    /// Moves the game forward one frame: point the snek as asked, advance
    /// it, replace eaten food with fresh random food, and stop play when
    /// the snek runs into itself.  A finished game does not move.
    pub fn step(&mut self, orientation: Vec2)
        requires
            old(self).wf(),
        ensures
            final(self).wf(),
            final(self).grid == old(self).grid,
            !old(self).play ==> *final(self) == *old(self),
            old(self).play ==> {
                let moved = Snek {
                    parts: old(self).snek.parts,
                    orientation,
                };
                let landed = next_head(moved, old(self).grid.size);
                let ate = landed == old(self).food.0;
                &&& final(self).snek.orientation == orientation
                &&& final(self).snek.head_spec() == landed
                &&& (ate ==> final(self).snek.parts@ == old(self).snek.parts@.push(landed))
                &&& (!ate ==> final(self).snek.parts@ == old(self).snek.parts@.subrange(
                    1,
                    old(self).snek.parts@.len() as int,
                ).push(landed) && final(self).food == old(self).food)
                &&& final(self).play == !(exists|j: int|
                    0 <= j < final(self).snek.parts@.len() - 1 && final(self).snek.parts@[j]
                        == final(self).snek.head_spec())
            },
    {
        if self.play {
            self.snek.set_orientation(orientation);

            let bounds = Vec2 { x: self.grid.size.x, y: self.grid.size.y };
            let ate = self.snek.advance(&bounds, &self.food.0);
            if ate {
                self.food = Food::random(&bounds, &self.snek, &mut self.prng);
            }

            if self.snek.hit_self() {
                self.play = false;
            }
        }
    }
}

} // verus!
