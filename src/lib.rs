//! Session persistence, remote-call outcome handling and background-task pacing
//! for a terminal client of an authentication and profile service.
pub mod store;
pub mod client;
pub mod session;
pub mod runner;
pub mod flows;
pub mod jwt;
