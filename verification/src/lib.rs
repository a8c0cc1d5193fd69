//! Cross-provider timetable normalization for registered lines of interest.
//!
//! A line of interest (LIO) ties a transit line, a direction and a station to
//! one of several transit-data providers. This library resolves free-text
//! station and line inputs against provider catalogs, matches registered LIOs
//! to live line data, normalizes heterogeneous provider departure records into
//! one canonical departure shape, and assembles the final timetable.

pub mod dtos;
pub mod errors;
pub mod messages;
pub mod models;
pub mod oebb;
pub mod resolver;
pub mod text;
pub mod time;
pub mod timetable;
pub mod wl;
