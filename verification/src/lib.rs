//! Episode navigation and playback control for a terminal anime player.
//!
//! The crate holds the rules of the program and proves them; it performs no
//! input or output itself. Its caller starts the player, talks to the
//! network and draws the screen, and asks the crate at every step what to do
//! next.
//!
//! - [`player`]: the playback controller, its wire format, the player's
//!   arguments and the watched fraction.
//! - [`watch`]: the episode cursor, the order in which sources are tried and
//!   the decision to report progress.
//! - [`provider`] and [`api`]: the addresses and queries of the stream
//!   provider and of the catalogue, and how their answers are read.
//! - [`tui`] and [`cli`]: the state of the terminal interface, what the keys
//!   do and the words that are shown.
//! - [`models`], [`config`] and [`registry`]: plain data.
//! - [`json`] and [`text`]: JSON and text, as far as the rest needs them.

pub mod api;
pub mod cli;
pub mod config;
pub mod json;
pub mod models;
pub mod player;
pub mod provider;
pub mod registry;
pub mod text;
pub mod tui;
pub mod watch;
