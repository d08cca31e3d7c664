//! Decision logic of a small team of language-model agents that turn a user's
//! request into a backend web server: prompt construction, answer
//! classification, and the state machines that drive each agent.

pub mod helpers;
pub mod models;
