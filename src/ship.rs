use vstd::prelude::*;

verus! {

/// How many flame sprites the ship has; they come first in its sprite list.
pub const FLAME_SPRITES: usize = 3;

/// Where the hull sprite stands in the ship's sprite list, after the flames.
pub const HULL_SPRITE: usize = 3;

/// The sprites to draw for the ship, by index into its sprite list, in
/// drawing order: with the engine on, the three flames from the big one to the
/// little one, then the hull; with the engine off, the hull alone.
pub open spec fn draw_order(thrust: bool) -> Seq<usize> {
    if thrust {
        seq![0usize, 1, 2, HULL_SPRITE]
    } else {
        seq![HULL_SPRITE]
    }
}

/// Lists the sprites to draw for the ship, in order; the hull comes last, so
/// it stands over the flames.
pub fn sprites_to_draw(thrust: bool) -> (r: Vec<usize>)
    ensures
        r@ == draw_order(thrust),
{
    let mut r: Vec<usize> = Vec::new();
    if thrust {
        let mut i: usize = 0;
        while i < FLAME_SPRITES
            invariant
                i <= FLAME_SPRITES,
                r@.len() == i,
                forall|j: int| 0 <= j < i ==> r@[j] == j,
            decreases FLAME_SPRITES - i,
        {
            r.push(i);
            i = i + 1;
        }
    }
    r.push(HULL_SPRITE);
    proof {
        assert(r@ =~= draw_order(thrust));
    }
    r
}

} // verus!
