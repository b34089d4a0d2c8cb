//! Desktop-widget embedding: the shell protocol that turns an ordinary
//! top-level window into a background widget.
//!
//! The library models the whole negotiation as plain data and verified
//! decisions: resolving a native handle from a realized surface
//! ([`handles`]), locating the shell's background host and worker surface
//! among the enumerated top-level windows ([`locator`]), computing a
//! placement against a monitor's work area ([`geometry`]), planning the
//! style and z-order mutation ([`embedder`]), and scheduling the settle
//! delay and the repaint loop ([`lifecycle`]). The platform calls
//! themselves — surface queries, window enumeration, style and position
//! writes, timers — are made by the surrounding program, which feeds their
//! results to these functions and applies the plans they return.

pub mod diagnostics;
pub mod embedder;
pub mod geometry;
pub mod handles;
pub mod lifecycle;
pub mod locator;
pub mod widget;
