//! Automatic login to a gating proxy.
//!
//! A network path may sit behind a proxy that answers every request with a
//! redirection to its login page until credentials are handed in. This
//! library holds the decisions of a program that probes for such a proxy and
//! logs in: how a reply to the probe is read, what is sent to the login page,
//! when a failed attempt is tried again, and when the next scheduled check is
//! due. It performs no request and never sleeps itself: it says what is to be
//! done next, and is told what came of it.

pub mod checker;
pub mod cycle;
pub mod drive;
pub mod options;
pub mod response;
pub mod schedule;
