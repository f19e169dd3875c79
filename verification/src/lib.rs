//! Incremental IMAP command receiver and argument parser.
//!
//! The receiver turns a byte stream of arbitrary fragmentation into typed
//! command structures, honouring the literal/continuation sub-protocol and
//! the syntactic differences between protocol revisions. Command argument
//! parsers validate token count and type and build typed argument values or
//! precise, tagged syntax errors. A mailbox-name codec decodes modified
//! UTF-7 names for the older revision.

pub mod error;
pub mod permission;
pub mod quota;
pub mod receiver;
pub mod token;
pub mod utf7;

use vstd::prelude::*;

verus! {

/// Protocol revision, fixed for the lifetime of a connection. Mailbox names
/// under `Rev1` arrive wire-encoded in modified UTF-7; under `Rev2` they are
/// already UTF-8 and must be taken as they stand.
#[derive(Clone, Copy, PartialEq, Eq, Debug)]
pub enum ProtocolVersion {
    Rev1,
    Rev2,
}

} // verus!
