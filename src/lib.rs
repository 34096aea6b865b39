//! Keeps one remote USB device attached to the local virtual host controller.
//!
//! The library holds the decisions: reading the controller's status table,
//! matching a port's binding against the wanted device, reporting state
//! changes without repeats, and choosing what the polling loop does next.
//! The program around it reads the files, runs the attach tool and sleeps.

pub mod text;
pub mod decimal;
pub mod status;
pub mod report;
pub mod reconcile;
