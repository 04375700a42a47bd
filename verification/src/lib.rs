//! Overlay one channel of audio samples onto another.
//!
//! [`overlay`] lays a source buffer over a destination buffer from a given
//! sample position on. Silence in the destination is overwritten; elsewhere
//! the two samples are mixed by bounded addition, which adds them in a wider
//! representation and saturates the sum at the limits of their own. The
//! destination can grow to hold what reaches past its end.
//!
//! Samples are signed integers of 8, 16, 32 or 64 bits; another
//! representation joins them by implementing [`Overlayable`] for its samples
//! and [`ValueBounds`] for the representation of its sums. For audio of
//! several channels, overlay each channel by itself.
//!
//! ```
//! use audio_overlay::overlay;
//!
//! let src: Vec<i16> = vec![100, 100, 100];
//! let mut dst: Vec<i16> = vec![50];
//! overlay(&src, &mut dst, 0, true);
//! assert_eq!(dst, vec![150, 100, 100]);
//! ```

pub mod bounds;
pub mod engine;
pub mod laws;
pub mod mix;

pub use bounds::ValueBounds;
pub use engine::overlay;
pub use mix::clamp;
pub use mix::Overlayable;
