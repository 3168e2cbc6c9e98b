//! The quiz ("kawoof") service's logic: accounts and log-in decisions,
//! the storage form of quizzes and their questions, and the live events
//! that a hosted quiz sends to its players.

pub mod model;
pub mod text;
pub mod password;
pub mod auth;
pub mod kawoofs;
pub mod events;
pub mod laws;
