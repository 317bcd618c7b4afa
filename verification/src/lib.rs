//! A verified model of a small retained-mode UI widget scene.
//!
//! The library models a handful of screen widgets (a banner with a text
//! label, a frames-per-second readout, and a simple column widget) as an
//! explicit registry of nodes with tag flags, optional layout styles and
//! optional text sections.  All scalar quantities that the surrounding
//! runtime measures in fractional units (pixels, font sizes, colour
//! channels, frames per second) are held here in thousandths, so that
//! every rule — colour bucketing, absolute repositioning, the circular
//! banner trajectory, and the spawn-once guards — is exact integer
//! arithmetic with a proved contract.

pub mod color;
pub mod fps;
pub mod style;
pub mod text;
pub mod trajectory;
pub mod widgets;
pub mod world;
