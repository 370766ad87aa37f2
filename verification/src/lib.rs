//! Publishes the lines of a text file, one signed post per interval.

pub mod account;
pub mod event;
pub mod post;
pub mod posting_loop;
pub mod question;
pub mod request;
pub mod response;
pub mod shuffler;
pub mod source;
pub mod state;
mod text;
