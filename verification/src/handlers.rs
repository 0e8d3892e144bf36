//! The commands of groups that keep their collections row by row.

pub mod collect;
pub mod list;
