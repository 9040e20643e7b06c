use vstd::prelude::*;

verus! {

/// Where a user's identity verification stands.
#[derive(Debug, Clone, Copy, PartialEq, Eq, Structural)]
pub enum KycStatus {
    Pending,
    Submitted,
    Verified,
    Rejected,
}

/// The stored text of a KYC status.
pub open spec fn kyc_status_text(s: KycStatus) -> Seq<char> {
    match s {
        KycStatus::Pending => "pending"@,
        KycStatus::Submitted => "submitted"@,
        KycStatus::Verified => "verified"@,
        KycStatus::Rejected => "rejected"@,
    }
}

impl KycStatus {
    /// The stored text of this status.
    pub fn as_str(&self) -> (r: &'static str)
        ensures
            r@ == kyc_status_text(*self),
    {
        match self {
            KycStatus::Pending => "pending",
            KycStatus::Submitted => "submitted",
            KycStatus::Verified => "verified",
            KycStatus::Rejected => "rejected",
        }
    }
}

} // verus!
