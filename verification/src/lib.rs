//! A launcher for games: how each kind of runner turns a game and its
//! settings into the invocation of a process, how the launch options of the
//! user change that invocation, and how the process is supervised while it
//! runs.
//!
//! Everything here decides and computes on plain values. Spawning the
//! process, reading its output, looking at the disk and reading settings
//! files is left to the program around the library, which reports what it
//! found and does what it is told.

pub mod bridge;
pub mod citra;
pub mod command;
pub mod config;
pub mod date;
pub mod defaults;
pub mod document;
pub mod document_laws;
pub mod duckstation;
pub mod environment;
pub mod format;
pub mod games;
pub mod locations;
pub mod mame;
pub mod native;
pub mod order;
pub mod paths;
pub mod pcsx2;
pub mod rpcs3;
pub mod ryujinx;
pub mod screens;
pub mod sort;
pub mod steam;
pub mod streams;
pub mod strmap;
pub mod supervisor;
pub mod supervisor_laws;
pub mod text;
pub mod umu;
pub mod vita3k;
pub mod wine;
pub mod yuzu;
