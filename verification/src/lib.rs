//! Core of a desktop-portal backend: the response envelope every portal
//! method returns, the request/session lifecycle protocol with its
//! exactly-once teardown guarantees, and the bootstrap composition that lets
//! the capture backends share one compositor connection.

pub mod bootstrap;
pub mod request;
pub mod response;
pub mod session;
pub mod transport;
