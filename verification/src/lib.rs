//! An append-only clinical journal whose entries are linked by content digest
//! and by amendment references, with a verifier that replays the whole
//! journal, and the registries and housekeeping of the repository round it.
//!
//! The journal is a value: [`journal::Journal`] holds the stored entries of
//! every patient, [`writer`] adds entries to it, [`verify`] replays it, and
//! [`laws`] and [`round_trip`] state what holds of all of them. Reading and
//! writing files is left to the caller.

pub mod text;
pub mod timestamp;
pub mod digest;
pub mod yaml;
pub mod fs_layout;
pub mod error;
pub mod entry;
pub mod codec;
pub mod journal;
pub mod links;
pub mod writer;
pub mod verify;
pub mod laws;
pub mod round_trip;

pub mod contributor;
pub mod remote;
pub mod state;
pub mod status;
pub mod git;
pub mod maintenance;
pub mod objects;
pub mod gui;
