use crate::pubkey::Pubkey;
use vstd::prelude::*;

verus! {

/// Why an operation of the minter was refused.
#[derive(Clone, Copy, Debug, PartialEq, Eq, Structural)]
pub enum ErrorCode {
    UnauthorizedMinter,
    Overflow,
}

impl ErrorCode {
    /// The failure code reported to the caller: 6000 and 6001.
    pub fn code(self) -> (r: u32)
        ensures
            r == (match self {
                ErrorCode::UnauthorizedMinter => 6000u32,
                ErrorCode::Overflow => 6001u32,
            }),
    {
        match self {
            ErrorCode::UnauthorizedMinter => 6000,
            ErrorCode::Overflow => 6001,
        }
    }

    /// What the failure means, as text.
    pub open spec fn message_text(self) -> Seq<char> {
        match self {
            ErrorCode::UnauthorizedMinter =>
                "Unauthorized minter - only the configured authority can mint"@,
            ErrorCode::Overflow => "Arithmetic overflow"@,
        }
    }

    /// What the failure means, as text.
    pub fn message(self) -> (r: &'static str)
        ensures
            r@ == self.message_text(),
    {
        match self {
            ErrorCode::UnauthorizedMinter =>
                "Unauthorized minter - only the configured authority can mint",
            ErrorCode::Overflow => "Arithmetic overflow",
        }
    }
}

/// Who may mint proof records, and how many were minted.
#[derive(Clone, Copy, Debug)]
pub struct MinterConfig {
    pub authority: Pubkey,
    pub mints_count: u64,
    pub bump: u8,
}

/// Tells that the proof record of a market was minted.
#[derive(Debug)]
pub struct ProofNFTMinted {
    pub mint: Pubkey,
    pub recipient: Pubkey,
    pub market_id: String,
    pub outcome: u8,
    pub metadata_uri: String,
    pub timestamp: i64,
}

/// What the token programs are asked for when one proof record is minted: one
/// token of the mint, its metadata, and a master edition that admits no
/// further copy.
#[derive(Debug)]
pub struct MintOrder {
    /// How many tokens are minted to the recipient.
    pub amount: u64,
    pub name: String,
    pub symbol: String,
    pub uri: String,
    pub seller_fee_basis_points: u16,
    /// The one creator named in the metadata.
    pub creator: Pubkey,
    pub creator_verified: bool,
    /// The creator's share, in percent.
    pub creator_share: u8,
    pub is_mutable: bool,
    pub update_authority_is_signer: bool,
    /// How many prints the master edition admits, if it is limited.
    pub max_supply: Option<u64>,
}

/// The order for one proof record with the given texts, signed by `authority`.
pub open spec fn proof_nft_order(authority: Pubkey, name: String, symbol: String, uri: String)
    -> MintOrder {
    MintOrder {
        amount: 1,
        name,
        symbol,
        uri,
        seller_fee_basis_points: 0,
        creator: authority,
        creator_verified: true,
        creator_share: 100,
        is_mutable: true,
        update_authority_is_signer: true,
        max_supply: Some(0u64),
    }
}

/// Creates the minter configuration: `authority` may mint; nothing is minted yet.
pub fn initialize_minter(authority: Pubkey, bump: u8) -> (r: MinterConfig)
    ensures
        r == (MinterConfig { authority, mints_count: 0, bump }),
{
    MinterConfig { authority, mints_count: 0, bump }
}

/// Decides whether `authority` may mint a proof record, and if so what the
/// token programs are to be asked for. Only the configured authority may
/// mint. The configuration counts the mint when `complete_mint` is told that
/// the order was carried out.
pub fn mint_proof_nft(
    config: &MinterConfig,
    authority: Pubkey,
    name: String,
    symbol: String,
    uri: String,
) -> (r: Result<MintOrder, ErrorCode>)
    ensures
        authority == config.authority ==> r == Ok::<MintOrder, ErrorCode>(
            proof_nft_order(authority, name, symbol, uri),
        ),
        authority != config.authority ==> r == Err::<MintOrder, ErrorCode>(
            ErrorCode::UnauthorizedMinter,
        ),
{
    if authority != config.authority {
        return Err(ErrorCode::UnauthorizedMinter);
    }
    Ok(
        MintOrder {
            amount: 1,
            name,
            symbol,
            uri,
            seller_fee_basis_points: 0,
            creator: authority,
            creator_verified: true,
            creator_share: 100,
            is_mutable: true,
            update_authority_is_signer: true,
            max_supply: Some(0),
        },
    )
}

/// Counts a proof record that was minted at `mint` for `recipient`, for the
/// market `market_id` and its outcome, and returns the event. Where the count
/// cannot grow, the mint is refused and the configuration stays as it was.
pub fn complete_mint(
    config: &mut MinterConfig,
    mint: Pubkey,
    recipient: Pubkey,
    market_id: String,
    outcome: u8,
    uri: String,
    now: i64,
) -> (r: Result<ProofNFTMinted, ErrorCode>)
    ensures
        old(config).mints_count < u64::MAX ==> {
            &&& *final(config) == (MinterConfig {
                mints_count: (old(config).mints_count + 1) as u64,
                ..*old(config)
            })
            &&& r == Ok::<ProofNFTMinted, ErrorCode>(
                ProofNFTMinted {
                    mint,
                    recipient,
                    market_id,
                    outcome,
                    metadata_uri: uri,
                    timestamp: now,
                },
            )
        },
        old(config).mints_count == u64::MAX ==> {
            &&& *final(config) == *old(config)
            &&& r == Err::<ProofNFTMinted, ErrorCode>(ErrorCode::Overflow)
        },
{
    let count: u64 = match config.mints_count.checked_add(1) {
        Some(v) => v,
        None => { return Err(ErrorCode::Overflow); },
    };
    config.mints_count = count;
    Ok(ProofNFTMinted { mint, recipient, market_id, outcome, metadata_uri: uri, timestamp: now })
}

/// Hands the right to mint over to `new_authority`. Only the present
/// authority may do so.
pub fn update_minter_authority(config: &mut MinterConfig, authority: Pubkey, new_authority: Pubkey)
    -> (r: Result<(), ErrorCode>)
    ensures
        authority == old(config).authority ==> {
            &&& r is Ok
            &&& *final(config) == (MinterConfig { authority: new_authority, ..*old(config) })
        },
        authority != old(config).authority ==> {
            &&& r == Err::<(), ErrorCode>(ErrorCode::UnauthorizedMinter)
            &&& *final(config) == *old(config)
        },
{
    if authority != config.authority {
        return Err(ErrorCode::UnauthorizedMinter);
    }
    config.authority = new_authority;
    Ok(())
}

} // verus!
