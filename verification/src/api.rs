//! The decisions of the transport layer, free of any transport: each
//! function takes what a request carried and answers what is to be sent.

pub mod dish;
pub mod meal;
pub mod path;
pub mod response;
