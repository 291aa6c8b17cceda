//! A three-line dialogue box whose text is revealed one step at a time.
//!
//! The text is first compiled into a queue of reveal events
//! ([`compiler`]); a [`text_box::TextBox`] then plays that queue into
//! its window and hands out the three visible lines after every step
//! that changes them. The contracts speak of a mathematical model of the
//! reveal ([`window`]), and what holds of every queue, of every reveal
//! and of the reveal of every text is proved in [`scan_laws`],
//! [`reveal_laws`] and [`text_laws`].
//!
//! Around the box stand the arguments of a run ([`cli`]) and the layout
//! of the canvas on which a renderer draws the lines ([`layout`]), with
//! the pictures of the `image` crate behind it ([`canvas`]).

pub mod canvas;
pub mod cli;
pub mod compiler;
pub mod layout;
pub mod reveal_laws;
pub mod scan_laws;
pub mod std_specs;
pub mod text_box;
pub mod text_laws;
pub mod window;
