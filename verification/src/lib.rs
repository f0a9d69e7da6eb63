//! Announce ownership of an IPv4 address on an Ethernet link with gratuitous
//! ARP, and watch the link for competing announcements.
//!
//! The crate holds the decisions of the announcer: the frame codec, the
//! jittered schedule, the conflict predicate, the lookup in the host's address
//! list and the life cycle of a run. Sockets, sleeping, signals and the host's
//! address API belong to the caller, which feeds their results in as events.

pub mod addr;
pub mod address;
pub mod announcer;
pub mod codec;
pub mod options;
pub mod schedule;
pub mod supervisor;
pub mod text;
pub mod time;
pub mod watcher;
