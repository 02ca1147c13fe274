//! What a request is answered with, decided on the plain values of the
//! request: its method and its body.

pub mod taker;
pub mod world;
