//! A poller's decision core: it tracks game autosave files, reconciles their
//! modification times against a persisted record, and sequences the
//! discovery, tracking and export modes.
pub mod common;
pub mod controller;
pub mod mode;
pub mod report;
