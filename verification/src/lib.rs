//! Typed control surface over the Linux sysfs PWM interface.
//!
//! A PWM controller ("chip") exposes one or more output channels through a
//! tree of small text files. Driving a channel means exporting it (asking the
//! OS to materialize its attribute files), reading and writing attribute
//! values as ASCII text, and unexporting it again. This crate holds the
//! verified part of that protocol: the attribute codec (how every value is
//! rendered to and recovered from file text), the sysfs path layout, and the
//! decisions the export/unexport lifecycle makes. The actual file operations
//! are left to a thin unverified shell that hands file contents in and carries
//! write requests out, so the same verified core serves a blocking and a
//! task-suspending (async) deployment alike.

pub mod chip;
pub mod codec;
pub mod common;
pub mod paths;
pub mod pwm;
