//! The verified core of a two-player chess client: the wire messages, the
//! move-message decoding, the decisions of the network link and the state
//! machine behind the board's mouse handling.
pub mod chess_communicator;
pub mod chess_controller;
pub mod laws;
pub mod link;
pub mod message;

pub use chess_communicator::bits_to_coord;
