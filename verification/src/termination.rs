//! Why the laser always resolves: the cell-by-cell walk of a laser is
//! injective and the fixed corner origins have no predecessor state, so a
//! walk fired from an origin can never revisit a (position, heading) state.
//! There are only 256 such states, so the walk always ends within 256
//! steps, and the reflection bound in the board's laser resolution is
//! never the deciding factor: any larger bound resolves the same outcome.

use vstd::prelude::*;
use vstd::set_lib::{lemma_int_range, lemma_len_subset, set_int_range};

use crate::board::{bounce_spec, cast_spec, cell_idx, laser_origin, ray_budget, Laser};
use crate::geometry::{step_heading, Heading};
use crate::piece::{spec_reflect, Piece, Player};
use crate::render::{mark_char, trace_spec};

verus! {

/// One cell of the laser's walk: the state after testing the current cell
/// for occupancy. `None` means the walk ends here, by exiting the grid or
/// by a terminal hit.
pub open spec fn walk_step(b: Seq<Option<Piece>>, s: Laser) -> Option<Laser> {
    if !s.position.in_bounds() {
        None
    } else {
        match b[cell_idx(s.position)] {
            Some(piece) => match spec_reflect(piece, s.direction) {
                Ok(new_direction) => match step_heading(s.position, new_direction) {
                    Some(next) => Some(Laser { position: next, direction: new_direction }),
                    None => None,
                },
                Err(_) => None,
            },
            None => match step_heading(s.position, s.direction) {
                Some(next) => Some(Laser { position: next, direction: s.direction }),
                None => None,
            },
        }
    }
}

/// The walk state after `k` cells, or `None` once the walk has ended.
pub open spec fn walk_iter(b: Seq<Option<Piece>>, s: Laser, k: nat) -> Option<Laser>
    decreases k,
{
    if k == 0 {
        Some(s)
    } else {
        match walk_iter(b, s, (k - 1) as nat) {
            Some(t) => walk_step(b, t),
            None => None,
        }
    }
}

/// Walking `m1 + m2` cells is walking `m1` cells and then `m2` more.
pub proof fn lemma_walk_iter_add(b: Seq<Option<Piece>>, s: Laser, m1: nat, m2: nat)
    ensures
        walk_iter(b, s, m1 + m2) == (match walk_iter(b, s, m1) {
            Some(t) => walk_iter(b, t, m2),
            None => None::<Laser>,
        }),
    decreases m2,
{
    if m2 > 0 {
        lemma_walk_iter_add(b, s, m1, (m2 - 1) as nat);
    }
}

/// Every state the walk passes through lies on the board.
pub proof fn lemma_walk_iter_in_bounds(b: Seq<Option<Piece>>, s: Laser, k: nat)
    requires
        s.position.in_bounds(),
        walk_iter(b, s, k) is Some,
    ensures
        walk_iter(b, s, k)->Some_0.position.in_bounds(),
    decreases k,
{
    if k > 0 {
        lemma_walk_iter_in_bounds(b, s, (k - 1) as nat);
    }
}

/// A mirror face sends at most one incoming heading out along any given
/// heading, so a reflection can be undone.
pub proof fn lemma_reflect_incoming_unique(p: Piece, d1: Heading, d2: Heading, out: Heading)
    requires
        spec_reflect(p, d1) == Ok::<Heading, Option<Piece>>(out),
        spec_reflect(p, d2) == Ok::<Heading, Option<Piece>>(out),
    ensures
        d1 == d2,
{
}

/// The walk is injective: two distinct states never step to the same
/// state, because the predecessor's position is one cell behind the
/// successor along its heading, and the heading into that cell is forced.
pub proof fn lemma_walk_step_injective(b: Seq<Option<Piece>>, s1: Laser, s2: Laser)
    requires
        s1.position.in_bounds(),
        s2.position.in_bounds(),
        walk_step(b, s1) is Some,
        walk_step(b, s1) == walk_step(b, s2),
    ensures
        s1 == s2,
{
    let t = walk_step(b, s1)->Some_0;
    assert(s1.position == s2.position);
    match b[cell_idx(s1.position)] {
        Some(piece) => {
            lemma_reflect_incoming_unique(piece, s1.direction, s2.direction, t.direction);
        },
        None => {},
    }
}

/// No state steps onto a player's firing origin: the cell behind it lies
/// off the grid.
pub proof fn lemma_origin_has_no_predecessor(b: Seq<Option<Piece>>, s: Laser, player: Player)
    requires
        s.position.in_bounds(),
    ensures
        walk_step(b, s) != Some(laser_origin(player)),
{
}

/// Once the walk has ended it stays ended; contrapositively, a walk still
/// going after `j` cells was still going at every earlier point.
pub proof fn lemma_walk_iter_prefix(b: Seq<Option<Piece>>, s: Laser, i: nat, j: nat)
    requires
        i <= j,
        walk_iter(b, s, j) is Some,
    ensures
        walk_iter(b, s, i) is Some,
{
    lemma_walk_iter_add(b, s, i, (j - i) as nat);
}

/// A walk fired from a player's origin never revisits a state: the origin
/// has no predecessor, and injectivity peels equal tails back to it.
pub proof fn lemma_origin_walk_distinct(b: Seq<Option<Piece>>, player: Player, i: nat, j: nat)
    requires
        i < j,
        walk_iter(b, laser_origin(player), j) is Some,
    ensures
        walk_iter(b, laser_origin(player), i) != walk_iter(b, laser_origin(player), j),
    decreases i,
{
    let origin = laser_origin(player);
    lemma_walk_iter_prefix(b, origin, i, j);
    lemma_walk_iter_prefix(b, origin, (j - 1) as nat, j);
    let prev = walk_iter(b, origin, (j - 1) as nat)->Some_0;
    lemma_walk_iter_in_bounds(b, origin, (j - 1) as nat);
    if i == 0 {
        lemma_origin_has_no_predecessor(b, prev, player);
    } else {
        lemma_walk_iter_prefix(b, origin, (i - 1) as nat, j);
        let before = walk_iter(b, origin, (i - 1) as nat)->Some_0;
        lemma_walk_iter_in_bounds(b, origin, (i - 1) as nat);
        if walk_iter(b, origin, i) == walk_iter(b, origin, j) {
            lemma_walk_step_injective(b, before, prev);
            lemma_origin_walk_distinct(b, player, (i - 1) as nat, (j - 1) as nat);
        }
    }
}

/// A number for each walk state; distinct in-bounds states get distinct
/// numbers in `[0, 256)`.
pub open spec fn state_code(s: Laser) -> int {
    let d = match s.direction {
        Heading::North => 0int,
        Heading::East => 1int,
        Heading::South => 2int,
        Heading::West => 3int,
    };
    d * 64 + cell_idx(s.position)
}

/// Distinct on-board states have distinct codes.
pub proof fn lemma_state_code_injective(s1: Laser, s2: Laser)
    requires
        s1.position.in_bounds(),
        s2.position.in_bounds(),
        state_code(s1) == state_code(s2),
    ensures
        s1 == s2,
{
}

/// The code of the `k`th state of a player's walk, or a value outside
/// `[0, 256)` once the walk has ended.
pub open spec fn walk_code_at(b: Seq<Option<Piece>>, player: Player, k: nat) -> int {
    match walk_iter(b, laser_origin(player), k) {
        Some(s) => state_code(s),
        None => -1,
    }
}

/// The codes of the first `n` states of a player's walk.
pub open spec fn walk_code_set(b: Seq<Option<Piece>>, player: Player, n: nat) -> Set<int> {
    Set::new(|v: int| exists|k: nat| k < n && walk_code_at(b, player, k) == v)
}

/// A walk still going after `n - 1` cells has passed through `n` distinct
/// states, so it has produced `n` distinct codes.
#[verifier::rlimit(50)]
pub proof fn lemma_walk_code_set_card(b: Seq<Option<Piece>>, player: Player, n: nat)
    requires
        n > 0 ==> walk_iter(b, laser_origin(player), (n - 1) as nat) is Some,
    ensures
        walk_code_set(b, player, n).finite(),
        walk_code_set(b, player, n).len() == n,
        walk_code_set(b, player, n).subset_of(set_int_range(0, 256)),
    decreases n,
{
    let origin = laser_origin(player);
    if n == 0 {
        assert(walk_code_set(b, player, 0) =~= Set::<int>::empty());
    } else {
        let m = (n - 1) as nat;
        if m > 0 {
            lemma_walk_iter_prefix(b, origin, (m - 1) as nat, m);
        }
        lemma_walk_code_set_card(b, player, m);
        let last = walk_iter(b, origin, m)->Some_0;
        lemma_walk_iter_in_bounds(b, origin, m);
        assert(walk_code_set(b, player, n) =~= walk_code_set(b, player, m).insert(
            state_code(last),
        )) by {
            assert forall|v: int| walk_code_set(b, player, n).contains(v) implies walk_code_set(
                b,
                player,
                m,
            ).insert(state_code(last)).contains(v) by {
                let k = choose|k: nat| k < n && walk_code_at(b, player, k) == v;
                if k < m {
                    assert(walk_code_set(b, player, m).contains(v));
                }
            }
            assert forall|v: int|
                walk_code_set(b, player, m).insert(state_code(last)).contains(
                    v,
                ) implies walk_code_set(b, player, n).contains(v) by {
                if walk_code_set(b, player, m).contains(v) {
                    let k = choose|k: nat| k < m && walk_code_at(b, player, k) == v;
                    assert(k < n && walk_code_at(b, player, k) == v);
                } else {
                    assert(m < n && walk_code_at(b, player, m) == v);
                }
            }
        }
        assert(!walk_code_set(b, player, m).contains(state_code(last))) by {
            if walk_code_set(b, player, m).contains(state_code(last)) {
                let k = choose|k: nat| k < m && walk_code_at(b, player, k) == state_code(last);
                lemma_walk_iter_prefix(b, origin, k, m);
                let earlier = walk_iter(b, origin, k)->Some_0;
                lemma_walk_iter_in_bounds(b, origin, k);
                lemma_state_code_injective(earlier, last);
                lemma_origin_walk_distinct(b, player, k, m);
            }
        }
        assert forall|v: int| walk_code_set(b, player, n).contains(v) implies set_int_range(
            0,
            256,
        ).contains(v) by {
            let k = choose|k: nat| k < n && walk_code_at(b, player, k) == v;
            lemma_walk_iter_prefix(b, origin, k, m);
            lemma_walk_iter_in_bounds(b, origin, k);
        }
    }
}

/// A walk fired from a player's origin always ends within 256 cells:
/// were it still going, it would have visited 257 distinct states out of
/// the 256 that exist.
pub proof fn lemma_origin_walk_ends(b: Seq<Option<Piece>>, player: Player)
    ensures
        walk_iter(b, laser_origin(player), 256) is None,
{
    if walk_iter(b, laser_origin(player), 256) is Some {
        lemma_walk_code_set_card(b, player, 257);
        lemma_int_range(0, 256);
        lemma_len_subset(walk_code_set(b, player, 257), set_int_range(0, 256));
    }
}

/// How many cells a straight cast traverses before it stops.
pub open spec fn cast_steps(b: Seq<Option<Piece>>, s: Laser) -> nat
    decreases ray_budget(s),
{
    if !s.position.in_bounds() {
        0
    } else if b[cell_idx(s.position)] is Some {
        0
    } else {
        match step_heading(s.position, s.direction) {
            Some(next) => 1 + cast_steps(b, Laser { position: next, direction: s.direction }),
            None => 0,
        }
    }
}

/// A cast that stops on a piece is the walk after `cast_steps` cells: the
/// walk stands on the struck cell, still travelling the same way.
pub proof fn lemma_cast_reaches_hit(b: Seq<Option<Piece>>, s: Laser)
    requires
        s.position.in_bounds(),
        cast_spec(b, s) is Some,
    ensures
        walk_iter(b, s, cast_steps(b, s)) matches Some(t) && t.position == cast_spec(
            b,
            s,
        )->Some_0.0 && t.direction == s.direction,
        b[cell_idx(cast_spec(b, s)->Some_0.0)] == Some(cast_spec(b, s)->Some_0.1),
    decreases ray_budget(s),
{
    if b[cell_idx(s.position)] is Some {
    } else {
        match step_heading(s.position, s.direction) {
            Some(next) => {
                let nl = Laser { position: next, direction: s.direction };
                lemma_cast_reaches_hit(b, nl);
                assert(walk_iter(b, s, 0) == Some(s));
                assert(walk_iter(b, s, 1) == walk_step(b, s));
                lemma_walk_iter_add(b, s, 1, cast_steps(b, nl));
            },
            None => {},
        }
    }
}

/// Wherever the walk from a state ends within `n` cells, the number of
/// reflections the bounce from that state makes is smaller still, so any
/// two reflection bounds of at least `n` resolve the same outcome.
pub proof fn lemma_bounce_bound_from_walk(
    b: Seq<Option<Piece>>,
    s: Laser,
    n: nat,
    fuel1: nat,
    fuel2: nat,
)
    requires
        s.position.in_bounds(),
        walk_iter(b, s, n) is None,
        fuel1 >= n,
        fuel2 >= n,
    ensures
        bounce_spec(b, s, fuel1) == bounce_spec(b, s, fuel2),
    decreases n,
{
    match cast_spec(b, s) {
        None => {},
        Some((hit_coord, hit_piece)) => {
            match spec_reflect(hit_piece, s.direction) {
                Err(_) => {},
                Ok(new_direction) => {
                    match step_heading(hit_coord, new_direction) {
                        None => {},
                        Some(next) => {
                            let continued = Laser { position: next, direction: new_direction };
                            let j = cast_steps(b, s) + 1;
                            lemma_cast_reaches_hit(b, s);
                            lemma_walk_iter_in_bounds(b, s, (j - 1) as nat);
                            let t = walk_iter(b, s, (j - 1) as nat)->Some_0;
                            assert(walk_iter(b, t, 0) == Some(t));
                            assert(walk_iter(b, t, 1) == walk_step(b, t));
                            lemma_walk_iter_add(b, s, (j - 1) as nat, 1);
                            assert(walk_iter(b, s, j) == Some(continued));
                            if j > n {
                                lemma_walk_iter_add(b, s, n, (j - n) as nat);
                            }
                            lemma_walk_iter_add(b, s, j, (n - j) as nat);
                            lemma_bounce_bound_from_walk(
                                b,
                                continued,
                                (n - j) as nat,
                                (fuel1 - 1) as nat,
                                (fuel2 - 1) as nat,
                            );
                        },
                    }
                },
            }
        },
    }
}

/// From either player's fixed firing corner the laser can never cycle, so
/// the walk ends within the 256 states that exist, and the reflection
/// bound the board's laser resolution uses is never the deciding factor:
/// every bound of at least 256 resolves the same outcome.
pub proof fn lemma_origin_bounce_bound_immaterial(
    b: Seq<Option<Piece>>,
    player: Player,
    fuel: nat,
)
    requires
        fuel >= 256,
    ensures
        bounce_spec(b, laser_origin(player), fuel) == bounce_spec(b, laser_origin(player), 256),
{
    lemma_origin_walk_ends(b, player);
    lemma_bounce_bound_from_walk(b, laser_origin(player), 256, fuel, 256);
}

/// The overlay trace advances exactly as the walk does, so wherever the
/// walk from a state ends within `n` cells, any two trace bounds of at
/// least `n` draw the same overlay.
pub proof fn lemma_trace_bound_from_walk(
    b: Seq<Option<Piece>>,
    s: Laser,
    marks: Seq<Option<char>>,
    n: nat,
    fuel1: nat,
    fuel2: nat,
)
    requires
        walk_iter(b, s, n) is None,
        fuel1 >= n,
        fuel2 >= n,
    ensures
        trace_spec(b, s, marks, fuel1) == trace_spec(b, s, marks, fuel2),
    decreases n,
{
    assert(n >= 1);
    if s.position.in_bounds() {
        match walk_step(b, s) {
            None => {},
            Some(next) => {
                assert(walk_iter(b, s, 0) == Some(s));
                assert(walk_iter(b, s, 1) == walk_step(b, s));
                lemma_walk_iter_add(b, s, 1, (n - 1) as nat);
                let i = cell_idx(s.position);
                let advanced_marks = match b[i] {
                    Some(_) => marks,
                    None => marks.update(i, Some(mark_char(marks[i], s.direction))),
                };
                lemma_trace_bound_from_walk(
                    b,
                    next,
                    advanced_marks,
                    (n - 1) as nat,
                    (fuel1 - 1) as nat,
                    (fuel2 - 1) as nat,
                );
            },
        }
    }
}

/// From either player's fixed firing corner the overlay bound of the
/// laser trace is never the deciding factor either: every bound of at
/// least 256 draws the same overlay.
pub proof fn lemma_origin_trace_bound_immaterial(
    b: Seq<Option<Piece>>,
    player: Player,
    marks: Seq<Option<char>>,
    fuel: nat,
)
    requires
        fuel >= 256,
    ensures
        trace_spec(b, laser_origin(player), marks, fuel) == trace_spec(
            b,
            laser_origin(player),
            marks,
            256,
        ),
{
    lemma_origin_walk_ends(b, player);
    lemma_trace_bound_from_walk(b, laser_origin(player), marks, 256, fuel, 256);
}

} // verus!
