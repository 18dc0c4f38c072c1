//! dataplotlib is a hassle-free library for plotting data.
//!
//! The library side holds the plot data model (`plotbuilder`), the plotter
//! lifecycle state machine (`plotter`) and the coordinate utilities (`util`).
//! Opening windows and drawing into them is the business of a renderer that
//! sits outside this crate; the plotter hands it one render task per window.

pub mod plotbuilder;
pub mod plotter;
pub mod util;
