//! Verified core of a router-reboot daemon: on a cron-derived schedule it
//! logs in to a home-router administration interface and issues a reboot
//! command. This library holds the scheduling arithmetic, the request
//! construction and the login-then-reboot cycle decisions; the surrounding
//! process (argument handling, HTTP transport, logging, sleeping) drives it
//! from outside.

pub mod http;
pub mod urls;
pub mod numfmt;
pub mod config;
pub mod requests;
pub mod cycle;
pub mod sched;
