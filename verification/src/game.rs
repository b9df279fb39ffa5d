//! The starting state of a match and the dice primitive.

use vstd::prelude::*;
use crate::bg_rules::Player;

verus! {

/// Who controls offering the doubling cube; `Nobody` while the cube is still
/// centred.
pub type CubeOwner = Player;

/// Backgammon uses 25 checker slots per side: the 24 standard points plus a
/// bar slot. Available for bounds reasoning by consumers of the board.
pub const CHECKERS: u8 = 25;

/// The standard opening layout. Indices 0 to 23 are the 24 points of the
/// board, the last two slots hold the checkers on the bar for each side. A
/// positive count marks checkers of one player, a negative count checkers of
/// the other; the magnitude is the number of checkers on the slot.
pub open spec fn starting_board() -> Seq<i8> {
    seq![
        2i8, 0i8, 0i8, 0i8, 0i8, -5i8,
        0i8, -3i8, 0i8, 0i8, 0i8, 5i8,
        -5i8, 0i8, 0i8, 0i8, 3i8, 0i8,
        5i8, 0i8, 0i8, 0i8, 0i8, -2i8,
        0i8, 0i8,
    ]
}

/// A snapshot of one match's live state: target score, board, doubling cube
/// and Crawford bookkeeping.
#[derive(Debug, Clone, Copy, PartialEq, Eq)]
pub struct Game {
    /// The target score of this match instance.
    pub points: u32,
    /// 26 slots of signed checker counts: 24 points and the two bar slots.
    pub board: [i8; 26],
    /// The current stake multiplier; 0 while the cube has not been offered.
    pub cube: u32,
    /// Who controls offering the cube; `Nobody` before any offer.
    pub cube_owner: CubeOwner,
    /// Whose conceptual turn indicator is active.
    pub one_plays: bool,
    /// Whether the current game is the post-Crawford-trigger game.
    pub crawford: bool,
    /// How many games have elapsed since the Crawford game, for Holland-rule
    /// bookkeeping.
    pub since_crawford: u8,
}

impl Default for Game {
    /// The canonical starting state: the standard opening layout, the cube
    /// still centred and untouched, and the first turn indicator active.
    fn default() -> (g: Game)
        ensures
            g.points == 3,
            g.board@ == starting_board(),
            g.cube == 0,
            g.cube_owner == Player::Nobody,
            g.one_plays == true,
            g.crawford == false,
            g.since_crawford == 0,
    {
        let board: [i8; 26] = [
            2, 0, 0, 0, 0, -5,
            0, -3, 0, 0, 0, 5,
            -5, 0, 0, 0, 3, 0,
            5, 0, 0, 0, 0, -2,
            0, 0,
        ];
        proof {
            assert(board@ =~= starting_board());
        }
        Game {
            points: 3,
            board,
            cube: 0,
            cube_owner: Player::Nobody,
            one_plays: true,
            crawford: false,
            since_crawford: 0,
        }
    }
}

/// The net sum of a board: positive and negative checker counts cancel.
pub open spec fn net_sum(s: Seq<i8>) -> int
    decreases s.len(),
{
    if s.len() == 0 {
        0
    } else {
        net_sum(s.drop_last()) + s.last()
    }
}

/// How many checkers of the positively-counted side stand on the board.
pub open spec fn positive_checkers(s: Seq<i8>) -> int
    decreases s.len(),
{
    if s.len() == 0 {
        0
    } else {
        positive_checkers(s.drop_last()) + if s.last() > 0 {
            s.last() as int
        } else {
            0
        }
    }
}

/// How many checkers of the negatively-counted side stand on the board.
pub open spec fn negative_checkers(s: Seq<i8>) -> int
    decreases s.len(),
{
    if s.len() == 0 {
        0
    } else {
        negative_checkers(s.drop_last()) + if s.last() < 0 {
            -(s.last() as int)
        } else {
            0
        }
    }
}

/// The starting board is balanced: each side fields 15 checkers, so the
/// signed counts sum to zero net.
pub proof fn lemma_starting_board_balanced()
    ensures
        net_sum(starting_board()) == 0,
        positive_checkers(starting_board()) == 15,
        negative_checkers(starting_board()) == 15,
{
    reveal_with_fuel(net_sum, 27);
    reveal_with_fuel(positive_checkers, 27);
    reveal_with_fuel(negative_checkers, 27);
    assert(net_sum(starting_board()) == 0);
    assert(positive_checkers(starting_board()) == 15);
    assert(negative_checkers(starting_board()) == 15);
}

/// Generates two random numbers between 1 and 6, replicating a perfect pair
/// of dice. The operating system's entropy source drives the generator.
pub fn roll() -> (d: (u8, u8))
    ensures
        1 <= d.0 <= 6,
        1 <= d.1 <= 6,
{
    (sample_die(), sample_die())
}

/// Relies on rand's `Uniform::new_inclusive(1, 6)` and
/// `Distribution::sample`: a sample drawn from the inclusive uniform range
/// lies within that range. `thread_rng` supplies OS-seeded entropy, so
/// nothing beyond the bounds holds of any one outcome.
#[verifier::external_body]
fn sample_die() -> (r: u8)
    ensures
        1 <= r <= 6,
{
    let between = rand::distributions::Uniform::new_inclusive(1u8, 6u8);
    rand::distributions::Distribution::sample(&between, &mut rand::thread_rng())
}

} // verus!
