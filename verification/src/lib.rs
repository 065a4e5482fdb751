//! Lays photos out on print-ready sheets.
//!
//! A sheet is a fixed grid of cells. Every photo is turned to landscape,
//! scaled to a common height and placed in the next free cell, row by row;
//! when a sheet is full the next one begins.
//!
//! - `layout`: the pixel grid of a sheet.
//! - `batch`: cutting the photos of a run into one batch per sheet.
//! - `normalize`: bringing a photo to the shape of a cell.
//! - `compose`: drawing a sheet from a batch.
//! - `progress`: the events that report how far a run has come.
//! - `display`: what the progress display does with each event.
//! - `imaging`: what is taken on trust about the `image` crate.

pub mod batch;
pub mod compose;
pub mod display;
pub mod imaging;
pub mod layout;
pub mod normalize;
pub mod progress;
