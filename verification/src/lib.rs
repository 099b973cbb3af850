//! The rules of a one-paddle Pong court, as a state machine over plain values.
//!
//! The library owns everything the game decides: which keys are held, where
//! the paddle stands after a tick, and which rectangles make up a frame. It
//! opens no window and draws nothing itself; a front end feeds it events and
//! paints the frames it returns.

pub mod court;
pub mod player;
pub mod ball;
pub mod input;
pub mod app;
