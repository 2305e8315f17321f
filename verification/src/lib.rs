//! Coordination core of a scene-document authoring backend.
//!
//! A `Package` holds an ordered list of `Scene`s; each scene carries parallel
//! lists of `Position`s and `PositionInfo`s and an ordered list of `Stage`s.
//! `AppState` owns the single package together with the dirty and dark-mode
//! flags and the satellite-editor sessions, and exposes the command surface
//! that a front end drives: scene upsert/delete, project reset/load/save,
//! offset import, and the one-shot hand-off of an `EditorPayload` to a stage
//! editor window.

pub mod errors;
pub mod gate;
pub mod id;
pub mod import;
pub mod laws;
pub mod menu;
pub mod model;
pub mod orchestrator;
pub mod state;
pub mod title;
