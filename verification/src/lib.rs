//! Verified core of an inspection-form automation tool.
//!
//! The library classifies OCR'd screenshot text into a closed set of
//! document labels, extracts inspection dates, groups image files by
//! station, and plans the exact sequence of browser interactions that
//! records a station's inspection in a remote web form. All decision
//! logic lives here, verified; an unverified shell performs the actual
//! network, filesystem and browser I/O.

pub mod actions;
pub mod classify;
pub mod dates;
pub mod grouping;
pub mod session;
pub mod station;
pub mod text;
