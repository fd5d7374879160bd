//! A personal journal: dated notes appended to named journals, each kept in
//! one file, and a registry that says which journals there are.
//!
//! The library computes and decides; it reads and writes no file. An
//! operation on a journal or on the registry takes the text that the file
//! holds and gives the text that it is to hold.
//!
//! - [`entry`]: an entry and its builder, with the rules for stars and titles.
//! - [`journal`]: the entries of a journal and the changes made to them, and
//!   what every kind of journal offers.
//! - [`file_journal`]: the journal that is kept in a file.
//! - [`config`]: the registry, and the rule that picks a journal by name.
//! - [`cli`], [`cli_args`]: what one call of the program is to do.
//! - [`codec`]: entries as JSON.
//! - [`json`], [`ident`], [`clock`]: what is taken on trust from
//!   `rustc_serialize`, `uuid` and `chrono`.
//! - [`scan`]: the texts that the JSON parser can be given.
//! - [`text`], [`search`], [`error`]: texts, sequences and failures.

pub mod cli;
pub mod cli_args;
pub mod clock;
pub mod codec;
pub mod config;
pub mod entry;
pub mod error;
pub mod file_journal;
pub mod ident;
pub mod journal;
pub mod json;
pub mod scan;
pub mod search;
pub mod text;
