//! Classification-and-relocation engine for organizing a directory's files
//! into per-category subfolders.
//!
//! The crate is split in three layers, leaves first:
//! - [`categories`]: the fixed extension-to-category table and folder names;
//! - [`scanner`]: turns a raw directory listing into a categorized scan result;
//! - [`organizer`]: plans category directories and decides, per file, whether
//!   and how a move proceeds, accumulating a moved/skipped/failed report.
//!
//! All filesystem access stays outside this crate: callers hand in plain
//! values describing what the filesystem answered (directory listings, probe
//! results, rename outcomes), and every decision taken on those values is
//! verified.

pub mod categories;
pub mod organizer;
pub mod scanner;
pub mod text;
