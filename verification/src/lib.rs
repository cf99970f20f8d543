//! A sprite that turns and walks under the arrow keys, with a line that shows
//! where it faces: the rules of the demo, stated and proved.
//!
//! The heading is a single-precision angle kept by its bit pattern, so that
//! the comparisons the turn rules need are integer comparisons. Sums,
//! differences and the rotation are the caller's: they are handed in as
//! functions, and every contract says which arguments they get and what is
//! done with whatever they return.

pub mod angle;
pub mod geometry;
pub mod input;
pub mod player;

pub use angle::Radians;
pub use geometry::{Offset, Point, Rect};
pub use input::{Key, Keys, Signal};
pub use player::{Anchor, Color, Command, Player, Style};
