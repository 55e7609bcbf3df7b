//! The decision logic of a card-pack opening sequence: which step the pack is
//! in, which tweens each step starts, how tween completions and player swipes
//! advance or interrupt the sequence, and which completions are stale.

pub mod tween;
pub mod cards;
pub mod model;
pub mod sequence;
pub mod laws;
pub mod order_laws;
