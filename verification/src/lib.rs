//! An interactive shell for the management API of a home gateway.
//!
//! The crate holds everything the shell decides: the table of commands and
//! the validation of their arguments, the requests that an authenticated
//! client may send, what each answer of the gateway means, and the lines that
//! are shown to the operator. Reading the terminal and talking to the network
//! are left to the program around it, which hands plain values in and out.
pub mod api;
pub mod repl;
pub mod state;
pub mod utils;
