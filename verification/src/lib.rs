//! Hours logging and its companions.
//!
//! The heart is a timer that banks active time across pause and resume
//! ([`loopstate`], with its laws over whole runs in [`timeline`]), the same
//! timer bound to the process clock ([`state`]), and the decisions of the
//! interactive session that drives it ([`session`]). Around it stand the
//! log and its dates ([`entries`], [`dates`], [`db`]), the drives a sync run
//! goes to ([`config`], [`drives`], [`gdrive`]), and two small tools
//! ([`numeral`], [`names`]).

pub mod config;
pub mod dates;
pub mod db;
pub mod drives;
pub mod entries;
pub mod gdrive;
pub mod loopstate;
pub mod names;
pub mod numeral;
pub mod session;
pub mod state;
pub mod timeline;
