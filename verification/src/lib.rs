//! Verified core of a live dashboard for Counter-Strike 2 Game State
//! Integration: weapon classification, label rendering, snapshot building
//! and the mapping from game events to browser events.

pub mod text;
pub mod weapon;
pub mod clock;
pub mod model;
pub mod labels;
pub mod ui;
pub mod roster;
pub mod snapshot;
pub mod summary;
pub mod events;

pub use clock::now_ts;
pub use weapon::classify_weapon;
pub mod buckets;
