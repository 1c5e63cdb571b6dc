//! The rules of AntiSupport, a small desktop program that holds a license for
//! a session, or runs a trial, and starts and kills a set of target programs.
//!
//! Everything here computes. What the program asks of the world (processes,
//! requests, windows) comes out as values, and what the world answers comes in
//! as values; so does the time.
//!
//! - [`tdc_app`]: the program, from one event to the next;
//! - [`model`]: the same as a state machine in mathematical terms;
//! - [`operations`]: what each operation does;
//! - [`laws`]: what holds of the program as a whole;
//! - [`screens`]: what the screens show;
//! - [`auth`]: the requests to the license server and its replies;
//! - [`hwid`]: the id of the machine;
//! - [`process_mgr`]: the target programs;
//! - [`expiry`]: the end of life of this version;
//! - [`fonts`], [`browser`]: the search for a font, and how a page is opened;
//! - [`clock`], [`text`]: points in time, and computed text.

pub mod auth;
pub mod browser;
pub mod clock;
pub mod expiry;
pub mod fonts;
pub mod hwid;
pub mod laws;
pub mod model;
pub mod operations;
pub mod process_mgr;
pub mod screens;
pub mod tdc_app;
pub mod text;
