//! The state machine and the request and response pipeline of a terminal
//! HTTP client.
//!
//! A user composes a request in one of several tabs, sends it and looks at
//! the answer. This library holds everything that is decided on the way:
//!
//! - `app`: the application state, the tab store with its rule that the
//!   selected index always names a tab, and the saving and restoring of the
//!   edit buffers around every switch of tabs;
//! - `handlers`: what each key does on each screen;
//! - `event_loop`: what the loop around the keys does with a key and with
//!   the outcome of an exchange;
//! - `logic`: the request with its validation and URL assembly, and the
//!   response with the reading of headers and the formatting of the body;
//! - `error`: the error kinds and their texts;
//! - `terminal` and `ui`: the arithmetic and the texts of the interface;
//! - `text`: the work on characters that the rest is built on.
//!
//! Every function is stated over a model: strings are sequences of
//! characters, the application state is an `AppView`, and each operation
//! has a spec function that says what it makes of the state.
//!
//! Three outside crates do work for the library, and what is taken from
//! them on trust stands in three small modules: `encoding` (percent
//! encoding), `json` (parsing and printing of documents) and `transport`
//! (the method and error types of the HTTP client). Three functions of the
//! standard library's strings are taken on trust at the head of `text`.
//! Waiting for keys, drawing and talking to the server are left to the
//! program that uses the library.

pub mod app;
pub mod encoding;
pub mod error;
pub mod event_loop;
pub mod handlers;
pub mod json;
pub mod logic;
pub mod terminal;
pub mod text;
pub mod transport;
pub mod ui;
