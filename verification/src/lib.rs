//! Typed access to the MLB Stats API: identifiers, request URLs, and the rules that the
//! responses follow.

pub mod text;
pub mod ids;
pub mod date;
pub mod types;
pub mod attendance;
pub mod request;
pub mod stream;
pub mod sports;
pub mod venue;
pub mod league;
pub mod teams;
pub mod team_requests;
pub mod roster;
pub mod transactions;
pub mod stats;
pub mod draft;
pub mod game;
pub mod boxscore;
pub mod linescore;
pub mod plays;
pub mod feeds;
pub mod jobs;
pub mod timestamps;
pub mod device;
