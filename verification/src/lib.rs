//! A proxy between the agent of the Warp terminal and a model of the user's own choice.
//!
//! A request of the client becomes a request to a backend that speaks the chat or the responses
//! interface (`history`, `chat`, `tools`, `requests`, `send`), and what the backend streams back
//! becomes the events that the client expects (`sse`, `wire`, `backend`, `calls`, `args`,
//! `outputs`, `events`, `session`). Around that stand the configuration (`config`, `paths`,
//! `addresses`, `toml`), the smaller questions of the client (`suggest`, `queries`, `titles`,
//! `ranking`, `features`), the supervision of the proxy's process (`supervisor`), and the objects
//! of a user without a server (`local_object`). What holds of a whole request or a whole call is
//! stated on its own (`told`, `offered`, `asked`, `recalled`, `replay`,
//! `positional`). The library does no input or output of its own.
#![allow(unused_imports)]

pub mod addresses;
pub mod args;
pub mod asked;
pub mod backend;
pub mod body;
pub mod bytes;
pub mod calls;
pub mod chat;
pub mod config;
pub mod events;
pub mod features;
pub mod headers;
pub mod history;
pub mod ids;
pub mod json;
pub mod lists;
pub mod local_object;
pub mod offered;
pub mod outputs;
pub mod past_calls;
pub mod paths;
pub mod positional;
pub mod queries;
pub mod ranking;
pub mod recalled;
pub mod record;
pub mod replay;
pub mod requests;
pub mod results;
pub mod send;
pub mod session;
pub mod sse;
pub mod suggest;
pub mod supervisor;
pub mod text;
pub mod titles;
pub mod told;
pub mod toml;
pub mod tools;
pub mod warp;
pub mod wire;
