//! A programmable mock HTTP server for test suites: the rules by which it
//! matches, routes and answers requests, stated and proved.
//!
//! A server has a [`Registry`] of [`Resource`]s. A resource is created for a
//! URI declaration such as `/user/{userId}?filter=*`, and configured with the
//! method it answers to and the response it gives. A request goes to the first
//! resource that matches its target and answers to its method; where none
//! does, the server answers `404 Not Found` or `405 Method Not Allowed`
//! itself. A [`Connection`] says, step by step, what is to be done for one
//! client: when to wait, what to write, what to report, and when to relay a
//! stream.
//!
//! Nothing here opens a socket or starts a thread. Whoever owns them drives
//! the connections and keeps the registry behind a lock.
//!
//! The modules, from the leaves up:
//!
//! - [`text`]: characters, searching and replacing;
//! - [`params`]: an ordered map from names to values;
//! - [`http`]: methods and statuses;
//! - [`error`]: errors of configuration;
//! - [`uri`]: the grammar of URI declarations and of request targets;
//! - [`matcher`]: the regular-expression engine, which is taken on trust;
//! - [`stream`]: the subscribers of a stream;
//! - [`resource`]: resources;
//! - [`registry`]: the resources of a server, and routing;
//! - [`request`]: request lines and header lines;
//! - [`connection`]: the steps of a connection.

pub mod connection;
pub mod error;
pub mod http;
pub mod matcher;
pub mod params;
pub mod registry;
pub mod request;
pub mod resource;
pub mod stream;
pub mod text;
pub mod uri;

pub use connection::Connection;
pub use registry::Registry;
pub use request::Request;
pub use resource::{RequestParameters, Resource};
