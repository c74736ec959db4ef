//! Decision logic of a browser tool that records the bytes arriving on a
//! serial port into a file: the controller state machine, the byte-counting
//! transfer loop, the baud-rate selector and the text shown to the user.

pub mod text;
pub mod view;
pub mod app;
pub mod worker;
pub mod startup;
