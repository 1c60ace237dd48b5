//! A verified core for an interactive dataset explorer: connection-string
//! parsing, command routing, the single-worker dispatch state machine and
//! the layout of the column-wise statistics report.
pub mod command;
pub mod conn;
pub mod describe;
pub mod text;
pub mod worker;
