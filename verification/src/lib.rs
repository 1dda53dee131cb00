//! The policy core of a screen-locker daemon for an X11 session.
//!
//! The daemon watches for inactivity, shows a screen saver, locks the
//! session, checks the user's secret to unlock it, powers the monitor down,
//! and answers the desktop's screensaver interface on the session bus. It
//! is built from workers that exchange typed messages: an idle timer, an
//! authenticator, a bus server and a locker that owns the display, with a
//! coordinator in the middle that alone holds the session's state.
//!
//! This crate holds what those workers decide, free of threads and of the
//! bus and the display themselves, with every rule stated as a contract and
//! proved:
//!
//! * [`coordinator`]: the session's state and its answer to every message;
//! * [`timer`]: the deadlines for saver, lock and blanking, and the
//!   heartbeat;
//! * [`server`]: the requests, responses and signals of the bus, and in
//!   [`server::dispatch`] what the dispatcher decides for each method call;
//! * [`locker`]: the locker's messages, and in [`locker::display`] what it
//!   decides about the display;
//! * [`auth`]: the authenticator's messages;
//! * [`client`]: the method calls behind the command line's actions;
//! * [`config`]: the parts of the configuration that the rules read;
//! * [`cookies`]: the cookies handed to bus clients;
//! * [`clock`]: readings of the monotonic clock;
//! * [`error`]: the errors that the rules give rise to;
//! * [`laws`]: what holds of the coordinator and the timer over whole runs.
//!
//! A program around this crate owns the threads, the bus connection and the
//! display. It feeds each worker's messages to the state machines here and
//! carries out the commands they hand back.

pub mod auth;
pub mod client;
pub mod clock;
pub mod config;
pub mod cookies;
pub mod coordinator;
pub mod error;
pub mod laws;
pub mod locker;
pub mod server;
pub mod timer;
