//! Iris: the verified core of a desktop front end for the CorridorKey keyer.
pub mod text;
pub mod paths;
pub mod json;
pub mod event;
pub mod bridge;
pub mod viewer;
pub mod names;
pub mod panel;
pub mod queue;
pub mod setup;
pub mod footer;
pub mod preview;
pub mod models;
pub mod install;
pub mod pip;
pub mod download;
pub mod order;
pub mod archive;
