//! Rules, starting state and dice for a two-player backgammon match.
//!
//! The crate models the configurable rule set of a match (`Rules` and the
//! fluent `SetRules` builder), the identity of the two seats (`Player`), the
//! canonical starting `Game` snapshot (board layout, doubling cube, turn
//! indicator), and a fair two-die `roll` primitive.

pub mod bg_rules;
pub mod game;
pub mod text;

pub use bg_rules::Player;
pub use bg_rules::Rules;
pub use bg_rules::SetRules;
pub use game::CubeOwner;
pub use game::Game;
pub use game::roll;
pub use game::CHECKERS;
