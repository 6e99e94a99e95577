//! Acquisition of secret material for a command-line encryption tool:
//! where identity files are looked for, how they are loaded in order, and
//! how a passphrase is taken from the user or generated from a word list.

pub mod config;
pub mod english;
pub mod identities;
pub mod words;
pub mod passphrase;
