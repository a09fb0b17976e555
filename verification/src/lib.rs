//! Host firewall core: a policy compiler that turns a declarative rule set
//! into an ordered batch of kernel firewall commands, a packet classification
//! engine that decodes queued packets and appends audit log entries, an
//! introspector that joins a flat kernel listing into a table/chain/rule tree,
//! and a renderer that turns kernel-reported match expressions into text.
//!
//! Kernel sockets, files and the clock sit at the edge: callers perform the
//! transport and hand plain values in and out.

pub mod rules;
pub mod numfmt;
pub mod types;
pub mod statement;
pub mod compile;
pub mod logging;
pub mod interface;
pub mod netlink;
pub mod engine;
pub mod introspect;
