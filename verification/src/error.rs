use vstd::prelude::*;

verus! {

/// Why an operation of the market program was refused.
#[derive(Clone, Copy, Debug, PartialEq, Eq, Structural)]
pub enum ErrorCode {
    TweetUrlTooLong,
    MarketIdTooLong,
    IpfsCidTooLong,
    MarketNotOpen,
    MarketNotResolved,
    InsufficientCred,
    InvalidAmount,
    InvalidOutcome,
    UnauthorizedResolver,
    UnauthorizedMinter,
    TooManyEvidenceSubmissions,
    Overflow,
    UserDidNotWin,
}

/// The first failure code of the program; the variants follow in order.
pub const ERROR_CODE_OFFSET: u32 = 6000;

impl ErrorCode {
    /// Position of the variant in the enumeration, from 0.
    pub open spec fn ordinal(self) -> nat {
        match self {
            ErrorCode::TweetUrlTooLong => 0,
            ErrorCode::MarketIdTooLong => 1,
            ErrorCode::IpfsCidTooLong => 2,
            ErrorCode::MarketNotOpen => 3,
            ErrorCode::MarketNotResolved => 4,
            ErrorCode::InsufficientCred => 5,
            ErrorCode::InvalidAmount => 6,
            ErrorCode::InvalidOutcome => 7,
            ErrorCode::UnauthorizedResolver => 8,
            ErrorCode::UnauthorizedMinter => 9,
            ErrorCode::TooManyEvidenceSubmissions => 10,
            ErrorCode::Overflow => 11,
            ErrorCode::UserDidNotWin => 12,
        }
    }

    /// The failure code reported to the caller.
    pub fn code(self) -> (r: u32)
        ensures
            r == ERROR_CODE_OFFSET + self.ordinal(),
    {
        match self {
            ErrorCode::TweetUrlTooLong => 6000,
            ErrorCode::MarketIdTooLong => 6001,
            ErrorCode::IpfsCidTooLong => 6002,
            ErrorCode::MarketNotOpen => 6003,
            ErrorCode::MarketNotResolved => 6004,
            ErrorCode::InsufficientCred => 6005,
            ErrorCode::InvalidAmount => 6006,
            ErrorCode::InvalidOutcome => 6007,
            ErrorCode::UnauthorizedResolver => 6008,
            ErrorCode::UnauthorizedMinter => 6009,
            ErrorCode::TooManyEvidenceSubmissions => 6010,
            ErrorCode::Overflow => 6011,
            ErrorCode::UserDidNotWin => 6012,
        }
    }

    /// What the failure means, as text.
    pub open spec fn message_text(self) -> Seq<char> {
        match self {
            ErrorCode::TweetUrlTooLong => "Tweet URL exceeds maximum length of 280 characters"@,
            ErrorCode::MarketIdTooLong => "Market ID exceeds maximum length of 32 characters"@,
            ErrorCode::IpfsCidTooLong => "IPFS CID exceeds maximum length"@,
            ErrorCode::MarketNotOpen => "Market is not open for participation"@,
            ErrorCode::MarketNotResolved => "Market has not been resolved yet"@,
            ErrorCode::InsufficientCred => "Insufficient Cred balance"@,
            ErrorCode::InvalidAmount => "Invalid amount specified"@,
            ErrorCode::InvalidOutcome => "Invalid outcome value (must be 0 or 1)"@,
            ErrorCode::UnauthorizedResolver =>
                "Unauthorized resolver - only AgentExecutor authority can resolve"@,
            ErrorCode::UnauthorizedMinter =>
                "Unauthorized minter - only AgentExecutor authority can mint Cred"@,
            ErrorCode::TooManyEvidenceSubmissions =>
                "Too many evidence submissions for this market"@,
            ErrorCode::Overflow => "Arithmetic overflow"@,
            ErrorCode::UserDidNotWin => "User did not win this market"@,
        }
    }

    /// What the failure means, as text.
    pub fn message(self) -> (r: &'static str)
        ensures
            r@ == self.message_text(),
    {
        match self {
            ErrorCode::TweetUrlTooLong => "Tweet URL exceeds maximum length of 280 characters",
            ErrorCode::MarketIdTooLong => "Market ID exceeds maximum length of 32 characters",
            ErrorCode::IpfsCidTooLong => "IPFS CID exceeds maximum length",
            ErrorCode::MarketNotOpen => "Market is not open for participation",
            ErrorCode::MarketNotResolved => "Market has not been resolved yet",
            ErrorCode::InsufficientCred => "Insufficient Cred balance",
            ErrorCode::InvalidAmount => "Invalid amount specified",
            ErrorCode::InvalidOutcome => "Invalid outcome value (must be 0 or 1)",
            ErrorCode::UnauthorizedResolver =>
                "Unauthorized resolver - only AgentExecutor authority can resolve",
            ErrorCode::UnauthorizedMinter =>
                "Unauthorized minter - only AgentExecutor authority can mint Cred",
            ErrorCode::TooManyEvidenceSubmissions =>
                "Too many evidence submissions for this market",
            ErrorCode::Overflow => "Arithmetic overflow",
            ErrorCode::UserDidNotWin => "User did not win this market",
        }
    }
}

/// Distinct failures have distinct codes.
pub proof fn lemma_codes_distinct(a: ErrorCode, b: ErrorCode)
    ensures
        a.ordinal() == b.ordinal() <==> a == b,
{
}

} // verus!
