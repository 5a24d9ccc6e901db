//! Verified core of a terminal resource dashboard.
//!
//! The library holds everything that can be checked: the data model for one
//! metric snapshot, the severity classifier, the layout engine that splits a
//! terminal rectangle into section regions, the renderer that turns a snapshot
//! plus a layout into plain paint instructions, and the controller state
//! machine that decides when the dashboard keeps running and when the
//! terminal is released. Reading the metrics, painting the instructions and
//! polling the keyboard are I/O and live outside the library.

pub mod controller;
pub mod format;
pub mod layout;
pub mod model;
pub mod render;
pub mod severity;
