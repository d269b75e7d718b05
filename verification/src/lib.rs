//! Rendering core of a single-line text-input widget.
//!
//! The crate models the widget's in-memory text and selection state, the
//! cursor-geometry and cursor-painting engine, the style resolver, and the
//! element that drives the host's three-phase layout protocol
//! (measure, prepaint, paint) while bridging to the platform's input-method
//! composition callbacks.  The host rendering runtime, the text-shaping
//! service, the focus dispatcher, and the asset loader are external
//! collaborators: each phase takes their answers as plain values and returns
//! plain values (paint commands, geometry) for the host to execute.

pub mod assets;
pub mod color;
pub mod geometry;
pub mod input_state;
pub mod keymap;
pub mod style;
pub mod shaping;
pub mod scene;
pub mod cursor;
pub mod element;
pub mod handler;
pub mod icons;
pub mod input;
pub mod interaction;
