//! Riichi mahjong hand evaluation and scoring.
//!
//! The crate parses tile-group notation into a validated hand model,
//! detects the scoring patterns (yaku) the hand satisfies, derives the
//! fu sub-score from the hand's structure, and converts han and fu into
//! the four-way payment table, including the fixed limit-hand tiers and
//! per-honba surcharges.

pub mod calc;
pub mod error;
pub mod fu;
pub mod hand;
pub mod limit_hand;
pub mod round_context;
pub mod score;
pub mod tile;
pub mod yaku;

pub use error::HandErr;
pub use fu::Fu;
pub use hand::Hand;
pub use limit_hand::{is_limit_hand, LimitHands};
pub use tile::{GroupType, Suit, TileGroup};
