//! The bond record and the timestamp type it uses.
#![allow(non_snake_case)]

use vstd::prelude::*;

verus! {

/// A timestamp without time zone: whole seconds since 1970-01-01T00:00:00
/// and the nanoseconds within that second.
#[derive(Clone, Copy, Debug, PartialEq, Eq, Structural)]
pub struct Timestamp {
    pub seconds: i64,
    pub nanos: u32,
}

impl Timestamp {
    /// A timestamp is well formed when the sub-second part stays below one second.
    pub open spec fn wf(self) -> bool {
        self.nanos < 1_000_000_000
    }

    /// `self` is not later than `other`.
    pub open spec fn spec_le(self, other: Timestamp) -> bool {
        self.seconds < other.seconds || (self.seconds == other.seconds && self.nanos <= other.nanos)
    }

    /// Builds a timestamp, refusing a sub-second part of one second or more.
    pub fn new(seconds: i64, nanos: u32) -> (r: Option<Timestamp>)
        ensures
            r is Some <==> nanos < 1_000_000_000,
            r matches Some(t) ==> t.seconds == seconds && t.nanos == nanos && t.wf(),
    {
        if nanos < 1_000_000_000 {
            Some(Timestamp { seconds, nanos })
        } else {
            None
        }
    }

    /// Whether `self` is not later than `other`.
    pub fn is_not_after(&self, other: &Timestamp) -> (r: bool)
        ensures
            r == self.spec_le(*other),
    {
        self.seconds < other.seconds || (self.seconds == other.seconds && self.nanos <= other.nanos)
    }
}

/// One government bond issuance.
#[derive(Debug)]
pub struct Bond {
    pub id: i32,
    pub bondCode: String,
    pub issueDate: Timestamp,
    pub isReissue: bool,
    pub repaymentDate: Timestamp,
    pub auctionHappeningDate: Timestamp,
    pub auctionSettlementDate: Timestamp,
    pub pressReleaseWeblink: String,
}

/// What a bond holds, with its text fields as character sequences.
pub struct BondView {
    pub id: i32,
    pub bondCode: Seq<char>,
    pub issueDate: Timestamp,
    pub isReissue: bool,
    pub repaymentDate: Timestamp,
    pub auctionHappeningDate: Timestamp,
    pub auctionSettlementDate: Timestamp,
    pub pressReleaseWeblink: Seq<char>,
}

impl BondView {
    /// Every timestamp is well formed, repayment is not before issue, and
    /// settlement is not before the auction.
    pub open spec fn wf(self) -> bool {
        &&& self.issueDate.wf()
        &&& self.repaymentDate.wf()
        &&& self.auctionHappeningDate.wf()
        &&& self.auctionSettlementDate.wf()
        &&& self.issueDate.spec_le(self.repaymentDate)
        &&& self.auctionHappeningDate.spec_le(self.auctionSettlementDate)
    }
}

impl View for Bond {
    type V = BondView;

    open spec fn view(&self) -> BondView {
        BondView {
            id: self.id,
            bondCode: self.bondCode@,
            issueDate: self.issueDate,
            isReissue: self.isReissue,
            repaymentDate: self.repaymentDate,
            auctionHappeningDate: self.auctionHappeningDate,
            auctionSettlementDate: self.auctionSettlementDate,
            pressReleaseWeblink: self.pressReleaseWeblink@,
        }
    }
}

impl Bond {
    /// Every timestamp is well formed, repayment is not before issue, and
    /// settlement is not before the auction.
    pub open spec fn wf(self) -> bool {
        self@.wf()
    }

    /// Whether the record meets the data model's rules.
    pub fn is_well_formed(&self) -> (r: bool)
        ensures
            r == self.wf(),
    {
        self.issueDate.nanos < 1_000_000_000 && self.repaymentDate.nanos < 1_000_000_000
            && self.auctionHappeningDate.nanos < 1_000_000_000
            && self.auctionSettlementDate.nanos < 1_000_000_000
            && self.issueDate.is_not_after(&self.repaymentDate)
            && self.auctionHappeningDate.is_not_after(&self.auctionSettlementDate)
    }
}

} // verus!
