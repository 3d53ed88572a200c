//! Server protocol versions.
//!
//! Versions form a total order used to gate operations and request fields that
//! older servers do not support. When the server has not yet identified
//! itself, a conservative baseline is assumed; when it reports a version
//! string the engine does not know, the most recent known version is assumed
//! instead, keeping the client forward-compatible with newer servers.

use vstd::prelude::*;

use crate::text::str_eq;

verus! {

/// A known server version, ordered from oldest to newest.
#[allow(non_camel_case_types)]
#[derive(Debug, Clone, Copy, PartialEq, Eq, Structural)]
pub enum ExchangeServerVersion {
    Exchange2007,
    Exchange2007_SP1,
    Exchange2010,
    Exchange2010_SP1,
    Exchange2010_SP2,
    Exchange2013,
    Exchange2013_SP1,
}

impl ExchangeServerVersion {
    /// The position of this version in the total order, oldest first.
    pub open spec fn spec_rank(self) -> int {
        match self {
            ExchangeServerVersion::Exchange2007 => 0,
            ExchangeServerVersion::Exchange2007_SP1 => 1,
            ExchangeServerVersion::Exchange2010 => 2,
            ExchangeServerVersion::Exchange2010_SP1 => 3,
            ExchangeServerVersion::Exchange2010_SP2 => 4,
            ExchangeServerVersion::Exchange2013 => 5,
            ExchangeServerVersion::Exchange2013_SP1 => 6,
        }
    }

    /// The position of this version in the total order, oldest first.
    pub fn rank(&self) -> (r: u64)
        ensures
            r == self.spec_rank(),
    {
        match self {
            ExchangeServerVersion::Exchange2007 => 0,
            ExchangeServerVersion::Exchange2007_SP1 => 1,
            ExchangeServerVersion::Exchange2010 => 2,
            ExchangeServerVersion::Exchange2010_SP1 => 3,
            ExchangeServerVersion::Exchange2010_SP2 => 4,
            ExchangeServerVersion::Exchange2013 => 5,
            ExchangeServerVersion::Exchange2013_SP1 => 6,
        }
    }

    /// Whether `self` is the same version as `other` or older.
    pub fn le(&self, other: &ExchangeServerVersion) -> (r: bool)
        ensures
            r == (self.spec_rank() <= other.spec_rank()),
    {
        self.rank() <= other.rank()
    }
}

/// The version at a given rank; ranks outside the known range yield the most
/// recent known version.
pub open spec fn spec_version_from_rank(rank: int) -> ExchangeServerVersion {
    if rank == 0 {
        ExchangeServerVersion::Exchange2007
    } else if rank == 1 {
        ExchangeServerVersion::Exchange2007_SP1
    } else if rank == 2 {
        ExchangeServerVersion::Exchange2010
    } else if rank == 3 {
        ExchangeServerVersion::Exchange2010_SP1
    } else if rank == 4 {
        ExchangeServerVersion::Exchange2010_SP2
    } else if rank == 5 {
        ExchangeServerVersion::Exchange2013
    } else {
        ExchangeServerVersion::Exchange2013_SP1
    }
}

/// The version at a given rank; ranks outside the known range yield the most
/// recent known version.
pub fn version_from_rank(rank: u64) -> (v: ExchangeServerVersion)
    ensures
        v == spec_version_from_rank(rank as int),
{
    if rank == 0 {
        ExchangeServerVersion::Exchange2007
    } else if rank == 1 {
        ExchangeServerVersion::Exchange2007_SP1
    } else if rank == 2 {
        ExchangeServerVersion::Exchange2010
    } else if rank == 3 {
        ExchangeServerVersion::Exchange2010_SP1
    } else if rank == 4 {
        ExchangeServerVersion::Exchange2010_SP2
    } else if rank == 5 {
        ExchangeServerVersion::Exchange2013
    } else {
        ExchangeServerVersion::Exchange2013_SP1
    }
}

/// The baseline assumed before the server has identified itself. The first
/// service pack of the oldest supported server is preferred over the plain
/// release because it settled the identifier format still used today.
pub fn default_server_version() -> (v: ExchangeServerVersion)
    ensures
        v == ExchangeServerVersion::Exchange2007_SP1,
{
    ExchangeServerVersion::Exchange2007_SP1
}

/// The version a wire identifier names, if it is a known one.
pub open spec fn spec_version_from_wire(s: Seq<char>) -> Option<ExchangeServerVersion> {
    if s == "Exchange2007"@ {
        Some(ExchangeServerVersion::Exchange2007)
    } else if s == "Exchange2007_SP1"@ {
        Some(ExchangeServerVersion::Exchange2007_SP1)
    } else if s == "Exchange2010"@ {
        Some(ExchangeServerVersion::Exchange2010)
    } else if s == "Exchange2010_SP1"@ {
        Some(ExchangeServerVersion::Exchange2010_SP1)
    } else if s == "Exchange2010_SP2"@ {
        Some(ExchangeServerVersion::Exchange2010_SP2)
    } else if s == "Exchange2013"@ {
        Some(ExchangeServerVersion::Exchange2013)
    } else if s == "Exchange2013_SP1"@ {
        Some(ExchangeServerVersion::Exchange2013_SP1)
    } else {
        None
    }
}

/// Parses a wire version identifier into a known version, if any.
pub fn version_from_wire(s: &str) -> (v: Option<ExchangeServerVersion>)
    ensures
        v == spec_version_from_wire(s@),
{
    if str_eq(s, "Exchange2007") {
        Some(ExchangeServerVersion::Exchange2007)
    } else if str_eq(s, "Exchange2007_SP1") {
        Some(ExchangeServerVersion::Exchange2007_SP1)
    } else if str_eq(s, "Exchange2010") {
        Some(ExchangeServerVersion::Exchange2010)
    } else if str_eq(s, "Exchange2010_SP1") {
        Some(ExchangeServerVersion::Exchange2010_SP1)
    } else if str_eq(s, "Exchange2010_SP2") {
        Some(ExchangeServerVersion::Exchange2010_SP2)
    } else if str_eq(s, "Exchange2013") {
        Some(ExchangeServerVersion::Exchange2013)
    } else if str_eq(s, "Exchange2013_SP1") {
        Some(ExchangeServerVersion::Exchange2013_SP1)
    } else {
        None
    }
}

} // verus!
