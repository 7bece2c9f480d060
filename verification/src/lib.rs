//! Layout and navigation logic of the Bottles front end.
//!
//! Everything here is plain data and arithmetic: the toolkit that draws the
//! windows lives outside this crate and only consumes the values computed here.

pub mod app;
pub mod config;
pub mod grid;
pub mod icons;
pub mod pages;
