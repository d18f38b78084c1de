//! A chat bot core that runs submitted code and threads follow-up replies
//! back to the code they refer to.
pub mod code;
pub mod context;
pub mod language;
pub mod outcome;
pub mod session;
pub mod text;
