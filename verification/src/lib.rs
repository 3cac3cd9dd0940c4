//! A personal time-tracking ledger: time blocks tagged with a category,
//! a live timer over the single open block, relative-order addressing of
//! blocks, a paginated block picker, and a daily per-category summary.
//!
//! The crate is organised leaves first: [`text`] holds verified string
//! building blocks, [`errors`] the error model, [`parse`] the duration and
//! timestamp grammars, [`clock`] the civil-time boundary, [`domain`] the
//! block/timer data model, [`order`] the relative addressing, [`picker`]
//! the pager state machine, [`view`] the daily aggregation, and
//! [`commands`] the command layer that ties them together.

pub mod clock;
pub mod commands;
pub mod domain;
pub mod errors;
pub mod order;
pub mod parse;
pub mod picker;
pub mod plan;
pub mod text;
pub mod view;
