//! Logic of a system-tray launcher for Lux Wine: the application list it
//! shows, the menu it renders, the commands its items run and the decisions
//! of the loop that keeps the list fresh.
//!
//! Nothing here touches the outside world. A front end reads the environment
//! and the application directory, hands the values in, and carries out what
//! comes back.
//!
//! - [`text`] splits text into lines and into fields.
//! - [`apps`] reads the application list.
//! - [`menu`] holds the nodes of the menu tree, [`model`] says what the
//!   tray's menu is, and [`tray`] holds the tray's state and renders it.
//! - [`command`] builds the command lines and decides what a click does.
//! - [`poll`] decides when the application list is rebuilt.
//! - [`environment`] names what is read from the surroundings.

pub mod apps;
pub mod command;
pub mod environment;
pub mod menu;
pub mod model;
pub mod poll;
mod render;
pub mod text;
pub mod tray;
