//! Verified core of an HTTP-over-UDP proxy.
//!
//! A sender accepts HTTP requests, forwards each one as a datagram to a
//! receiver, and answers with the response that comes back; the receiver
//! performs the request against its target and sends the response back.
//! This crate holds the decisions and data of both sides; the sockets,
//! the HTTP stacks and the wire encoding live in the program around it.
pub mod text;

pub mod address;
pub mod body;
pub mod exchange;
pub mod header;
pub mod listener;
pub mod method;
pub mod relay;
pub mod request;
pub mod response;
pub mod responses;
pub mod status;
