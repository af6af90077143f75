//! The decisions behind a Nix front end.
//!
//! The front end turns an operation on a project (open a shell, build, evaluate,
//! keep a root) into calls of Nix. Here it is decided what each call looks like,
//! what follows from the way it ends, and which binary caches it may use. Nothing
//! here starts a process, opens a file or reaches the network: an operation gives
//! a [`requests::Request`], a command on its way and a search for caches give one
//! action after another, and whoever performs an action hands back what became
//! of it. What the user is to be told is added to a log.
//!
//! - [`nix`] holds the settings and makes requests into commands.
//! - [`requests`], [`keeping`] and [`roots`] hold the operations.
//! - [`run`] leads a command from its start to its end.
//! - [`cachix`] leads the search for binary caches, whose keys are in [`keys`].
//! - [`laws`] states what holds of all of it.
pub mod bytes;
pub mod caches;
pub mod cachix;
pub mod clock;
pub mod command;
pub mod error;
pub mod inputs;
pub mod keeping;
pub mod keys;
pub mod laws;
pub mod nix;
pub mod notice;
pub mod options;
pub mod path;
pub mod requests;
pub mod roots;
pub mod run;
pub mod text;
