//! The decisions of a desktop shell: which locale to report, how a menu bar
//! is laid out, and what a click on one of its items sets off.

pub mod locale;
pub mod menu;
pub mod dispatch;
pub mod scope;
