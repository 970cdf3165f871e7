//! Decision logic of a tool that waits for a named process to stop and then
//! fires a webhook.
//!
//! The library never touches the operating system itself: it validates the
//! request, decides what the surrounding program must do next (load a `.env`
//! file, read the webhook variable, look the process up, pause and poll it,
//! send the notification) and turns what the program observed into the next
//! step, with every transition stated and proved.
pub mod config;
pub mod request;
pub mod session;
pub mod trace;
