//! What holds of the library as a whole.

pub mod calls;
pub mod ends;
pub mod fees;
pub mod lines;
pub mod messages;
pub mod relays;
pub mod requests;
pub mod sessions;
pub mod views;
