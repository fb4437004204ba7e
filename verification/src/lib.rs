//! Mirrors the keys that are down on a keyboard to a connected peer.
//!
//! The keyboard is sampled at a fixed pace. Whenever the set of keys that are
//! down differs from the sample before, and at least one key is down, the
//! peer gets one text message that lists the keys by their tokens.
//!
//! - `device`: what is taken from `device_query` without proof
//! - `keymap`: the vocabulary, from a key's name to its token
//! - `raw_key`: a physical key, known by its name
//! - `snapshot`: the set of keys that are down at one instant
//! - `combo`: the message for a snapshot
//! - `poller`: change detection between one sample and the next
//! - `session`: one connection, as a state machine that its owner drives
//! - `acceptor`: the listening side, as a state machine that its owner drives
//! - `text`: comparison of text

pub mod acceptor;
pub mod combo;
pub mod device;
pub mod keymap;
pub mod poller;
pub mod raw_key;
pub mod session;
pub mod snapshot;
pub mod text;
