//! Decision logic of a chat slash-command that searches repositories:
//! access control, query normalisation, reply formatting and the
//! `User-Agent` header codec, each with a machine-checked contract.

pub mod access;
pub mod handler;
pub mod reply;
pub mod search;
pub mod text;
pub mod useragent;
