//! Session controller for a terminal client of an accounting service:
//! screens, navigation, form capture, list synchronisation and the
//! credential lifecycle, all as verified state transitions.

pub mod screen;
pub mod help;
pub mod records;
pub mod text;
pub mod collection;
pub mod form;
pub mod session;
pub mod auth;
