//! Decoding and validation of JSON Web Tokens, and the state machine of an
//! interactive session that shows a decoded token.

pub mod base64url;
pub mod cli;
pub mod clock;
pub mod codec;
pub mod crash;
pub mod event;
pub mod instant;
pub mod json;
pub mod laws;
pub mod mac;
pub mod outcome;
pub mod session;
pub mod text;
pub mod theme;
pub mod token;
pub mod validator;
