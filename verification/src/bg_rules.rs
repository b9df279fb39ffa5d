//! The rules of a backgammon match: the two seats, the match options and the
//! fluent builder that configures them.

use vstd::prelude::*;
use vstd::string::StringExecFns;
use crate::text::bool_text;
use crate::text::bool_to_text;
use crate::text::dec_text;
use crate::text::u32_to_text;

verus! {

/// One of the two seats of a match, or nobody. The game is for exactly two
/// players, and in some situations (before the first roll, a centred cube)
/// no player is distinguished, so `Nobody` is the default.
#[derive(Debug, Clone, Copy, PartialEq, Eq, Structural, PartialOrd, Ord, Hash)]
pub enum Player {
    /// none of the two players, e.g. at start
    Nobody,
    /// Player 1
    Player1,
    /// Player 2
    Player2,
}

/// The canonical textual form of a player tag.
pub open spec fn player_text(p: Player) -> Seq<char> {
    match p {
        Player::Nobody => "Nobody"@,
        Player::Player1 => "Player 1"@,
        Player::Player2 => "Player 2"@,
    }
}

impl Player {
    /// Renders the tag as its canonical human-readable string: exactly one of
    /// `"Nobody"`, `"Player 1"` and `"Player 2"`. Pure and total.
    pub fn to_text(&self) -> (s: String)
        ensures
            s@ == player_text(*self),
    {
        match *self {
            Player::Nobody => String::from_str("Nobody"),
            Player::Player1 => String::from_str("Player 1"),
            Player::Player2 => String::from_str("Player 2"),
        }
    }
}

impl Default for Player {
    /// Before anyone has acted, no player is distinguished.
    fn default() -> (p: Player)
        ensures
            p == Player::Nobody,
    {
        Player::Nobody
    }
}

/// Holds the rules of the match.
#[derive(Debug, Clone, Copy, PartialEq, Eq, Structural, PartialOrd, Ord, Hash)]
pub struct Rules {
    /// The amount of points to reach for declaring a winner, default is 7.
    pub points: u32,
    /// When offered the cube, allow to re-double but keep it, default is false.
    pub beaver: bool,
    /// If a player plays "beaver", the other may double again, letting the
    /// opponent keep the cube. Default is false.
    pub raccoon: bool,
    /// If both players roll the same opening number, the dice is doubled,
    /// remaining in the middle of the board. Default is false.
    pub murphy: bool,
    /// How often to apply the automatic doubling rule. 0 means always on.
    /// Default is 0.
    pub murphy_limit: u8,
    /// Gammon and Backgammon only count for double or triple values if the
    /// cube has already been offered. Default is false.
    pub jacoby: bool,
    /// When a player first reaches a score of points - 1, no doubling is
    /// allowed for the following game. Default is true.
    pub crawford: bool,
    /// Permits to double after the Crawford game only if both players have
    /// rolled at least twice. Default is false.
    pub holland: bool,
}

/// The canonical starting configuration of a match.
pub open spec fn default_rules() -> Rules {
    Rules {
        points: 7,
        beaver: false,
        raccoon: false,
        murphy: false,
        murphy_limit: 0,
        jacoby: false,
        crawford: true,
        holland: false,
    }
}

impl Default for Rules {
    /// Returns the canonical starting configuration: 7 points, Crawford on,
    /// every other option off.
    fn default() -> (r: Rules)
        ensures
            r == default_rules(),
    {
        Rules {
            points: 7,
            beaver: false,
            raccoon: false,
            murphy: false,
            murphy_limit: 0,
            jacoby: false,
            crawford: true,
            holland: false,
        }
    }
}

/// The canonical one-line textual form of a rule set: every field labelled,
/// in declaration order, with its literal value substituted.
pub open spec fn rules_text(r: Rules) -> Seq<char> {
    "Points: "@ + dec_text(r.points as nat) + ", Beaver: "@ + bool_text(r.beaver)
        + ", Raccoon: "@ + bool_text(r.raccoon) + ", Murphy: "@ + bool_text(r.murphy)
        + ", Murphy Limit: "@ + dec_text(r.murphy_limit as nat) + ", Jacoby: "@
        + bool_text(r.jacoby) + ", Crawford: "@ + bool_text(r.crawford) + ", Holland: "@
        + bool_text(r.holland)
}

impl Rules {
    /// Renders the rule set as its canonical field-labelled line, for example
    /// `"Points: 7, Beaver: false, ..."`. Pure and total.
    pub fn to_text(&self) -> (s: String)
        ensures
            s@ == rules_text(*self),
    {
        let mut s = String::from_str("Points: ");
        let points = u32_to_text(self.points);
        s.append(points.as_str());
        s.append(", Beaver: ");
        let beaver = bool_to_text(self.beaver);
        s.append(beaver.as_str());
        s.append(", Raccoon: ");
        let raccoon = bool_to_text(self.raccoon);
        s.append(raccoon.as_str());
        s.append(", Murphy: ");
        let murphy = bool_to_text(self.murphy);
        s.append(murphy.as_str());
        s.append(", Murphy Limit: ");
        let limit = u32_to_text(self.murphy_limit as u32);
        s.append(limit.as_str());
        s.append(", Jacoby: ");
        let jacoby = bool_to_text(self.jacoby);
        s.append(jacoby.as_str());
        s.append(", Crawford: ");
        let crawford = bool_to_text(self.crawford);
        s.append(crawford.as_str());
        s.append(", Holland: ");
        let holland = bool_to_text(self.holland);
        s.append(holland.as_str());
        proof {
            assert(s@ =~= rules_text(*self));
        }
        s
    }
}

/// SetRules allows to modify the rules. Each operation consumes the current
/// value and returns a new one with exactly its target field(s) set, leaving
/// every other field unchanged, so calls chain in any order and are
/// idempotent when repeated. The `spec_with_*` functions state, field by
/// field, what each operation returns.
pub trait SetRules: Sized {
    /// What `with_points` returns.
    spec fn spec_with_points(self, points: u32) -> Self;

    /// Set the amount of points to reach for declaring a winner.
    fn with_points(self, points: u32) -> (r: Self)
        ensures
            r == self.spec_with_points(points),
    ;

    /// What `with_beaver` returns.
    spec fn spec_with_beaver(self) -> Self;

    /// When offered the cube, allow to re-double but keep it.
    fn with_beaver(self) -> (r: Self)
        ensures
            r == self.spec_with_beaver(),
    ;

    /// What `with_raccoon` returns.
    spec fn spec_with_raccoon(self) -> Self;

    /// If a player plays "beaver", the other may double again, letting the
    /// opponent keep the cube.
    fn with_raccoon(self) -> (r: Self)
        ensures
            r == self.spec_with_raccoon(),
    ;

    /// What `with_murphy` returns.
    spec fn spec_with_murphy(self, limit: u8) -> Self;

    /// If both players roll the same opening number, the dice is doubled,
    /// remaining in the middle of the board.
    fn with_murphy(self, limit: u8) -> (r: Self)
        ensures
            r == self.spec_with_murphy(limit),
    ;

    /// What `with_jacoby` returns.
    spec fn spec_with_jacoby(self) -> Self;

    /// Gammon and Backgammon only count for double or triple values if the
    /// cube has already been offered.
    fn with_jacoby(self) -> (r: Self)
        ensures
            r == self.spec_with_jacoby(),
    ;

    /// What `with_crawford` returns.
    spec fn spec_with_crawford(self) -> Self;

    /// When a player first reaches a score of points - 1, no doubling is
    /// allowed for the following game.
    fn with_crawford(self) -> (r: Self)
        ensures
            r == self.spec_with_crawford(),
    ;

    /// What `with_holland` returns.
    spec fn spec_with_holland(self) -> Self;

    /// Permits to double after the Crawford game only if both players have
    /// rolled at least twice. Does not itself switch the Crawford rule on:
    /// the caller is responsible for that pairing.
    fn with_holland(self) -> (r: Self)
        ensures
            r == self.spec_with_holland(),
    ;
}

impl SetRules for Rules {
    open spec fn spec_with_points(self, points: u32) -> Rules {
        Rules { points, ..self }
    }

    fn with_points(self, points: u32) -> (r: Rules) {
        Rules { points, ..self }
    }

    open spec fn spec_with_beaver(self) -> Rules {
        Rules { beaver: true, ..self }
    }

    fn with_beaver(self) -> (r: Rules) {
        Rules { beaver: true, ..self }
    }

    open spec fn spec_with_raccoon(self) -> Rules {
        Rules { raccoon: true, ..self }
    }

    fn with_raccoon(self) -> (r: Rules) {
        Rules { raccoon: true, ..self }
    }

    open spec fn spec_with_murphy(self, limit: u8) -> Rules {
        Rules { murphy: true, murphy_limit: limit, ..self }
    }

    fn with_murphy(self, limit: u8) -> (r: Rules) {
        Rules { murphy: true, murphy_limit: limit, ..self }
    }

    open spec fn spec_with_jacoby(self) -> Rules {
        Rules { jacoby: true, ..self }
    }

    fn with_jacoby(self) -> (r: Rules) {
        Rules { jacoby: true, ..self }
    }

    open spec fn spec_with_crawford(self) -> Rules {
        Rules { crawford: true, ..self }
    }

    fn with_crawford(self) -> (r: Rules) {
        Rules { crawford: true, ..self }
    }

    open spec fn spec_with_holland(self) -> Rules {
        Rules { holland: true, ..self }
    }

    fn with_holland(self) -> (r: Rules) {
        Rules { holland: true, ..self }
    }
}

} // verus!
