//! Core of a terminal dashboard for cloud compute resources: settings, logging,
//! and the event-driven application state machine, with the work that needs the
//! network, processes or a terminal handed to the caller as commands.

pub mod logger;
pub mod settings;
pub mod text;
mod clock;
pub mod config;
pub mod event;
pub mod aws;
pub mod app;
pub mod actions;
pub mod handlers;
pub mod laws;
