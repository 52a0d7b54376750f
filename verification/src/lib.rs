//! An ordered collection of elements with one focused position.
//!
//! [`Ring`] keeps a sequence of elements together with a single focused
//! index and supports rotating the whole sequence, moving the focus,
//! dragging the focused element, and addressing elements through a
//! [`Selector`]. [`Direction`] names the two ways to walk the ring.
//! The remaining types are small value types used by a window manager
//! built on top of these operations.

mod ring;
mod types;

pub use ring::lemma_reverse_involutive;
pub use ring::lemma_rotate_round_trip;
pub use ring::spec_clamp_focus;
pub use ring::spec_drag;
pub use ring::spec_next_index;
pub use ring::spec_rotate;
pub use ring::Direction;
pub use ring::Ring;
pub use ring::Selector;
pub use types::Border;
pub use types::Change;
pub use types::ColorScheme;
pub use types::KeyCode;
pub use types::Point;
pub use types::Region;
pub use types::WinId;
