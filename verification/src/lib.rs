//! Core logic of a peer-to-peer chat node: identities and peer names, vector
//! clocks and message ids, the node's protocol decisions, the view models and
//! layout of the terminal screen, and the chat history and reply reading of
//! the language model client.
#![allow(non_snake_case)]

pub mod assoc;
pub mod chat;
pub mod controller;
pub mod gossipsub;
pub mod gpt;
pub mod model;
pub mod net;
pub mod node;
pub mod text;
pub mod time;
pub mod tls;
pub mod screen;
pub mod tui;
pub mod view;
