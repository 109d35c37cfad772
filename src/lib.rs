//! Verified core of a local media remote-control gateway: the scripts and
//! commands each route issues, the replies it renders, the status report
//! built from two scripted queries, and the two-step audio hardware probe.

pub mod text;
pub mod script;
pub mod dispatch;
pub mod status;
pub mod probe;
