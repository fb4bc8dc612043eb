//! A smaller TorBox client whose requests carry only a URL, a method and an
//! API key.

pub mod request;
pub mod usenet;
pub mod user;
