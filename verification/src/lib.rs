//! The rules of Federog, a small single-user microblog that federates over
//! ActivityPub: what its pages say, which requests it admits, and what it
//! stores and delivers for each of them.

pub mod account;
pub mod actor;
pub mod address;
pub mod content;
pub mod document;
pub mod escape;
pub mod following;
pub mod inbox;
pub mod json;
pub mod pages;
pub mod posting;
pub mod reading;
pub mod replies;
pub mod request;
pub mod routes;
pub mod setup;
pub mod startup;
pub mod text;
