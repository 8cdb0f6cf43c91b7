//! Command execution for a desktop shell host: which interpreter runs a
//! command string on each family of systems, and how the outcome of starting
//! or running it becomes the text handed back to the front end. Starting the
//! process and talking to the window system belong to the host application.

pub mod executor;
pub mod platform;
pub mod window;
