//! The protocol core of a language server that talks JSON-RPC with its client.
//!
//! The library decides and performs no input or output of its own. A message comes as bytes with
//! a header in front ([`frame`]). Its content is JSON ([`json`]), out of which the message is read
//! with its parameters ([`message`], [`params`], [`reader`]). The service ([`service`]) tells what is to be done about it and what
//! the server offers ([`capabilities`]). What is sent back are the texts of [`output`].
//! What the operations are for is stated in [`laws`].
pub mod capabilities;
pub mod frame;
pub mod json;
pub mod laws;
pub mod message;
pub mod output;
pub mod params;
pub mod reader;
pub mod service;
pub mod text;
