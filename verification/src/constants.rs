use vstd::prelude::*;

verus! {

/// Decimals of every ledger record of this protocol.
pub const TOKEN_DECIMALS: u8 = 0;

/// The most units an asset can ever have in circulation.
pub const TOKEN_MAX_SUPPLY: u64 = 1;

/// Royalty recorded for a new asset, in basis points.
pub const DEFAULT_ROYALTY_BPS: u16 = 100;

/// The share of the single creator of a new asset, in percent.
pub const FULL_SHARE: u8 = 100;

/// Largest royalty that metadata may record, in basis points.
pub const MAX_ROYALTY_BPS: u16 = 10000;

/// Longest name, in bytes.
pub const MAX_NAME_LENGTH: usize = 32;

/// Longest symbol, in bytes.
pub const MAX_SYMBOL_LENGTH: usize = 10;

/// Longest URI, in bytes.
pub const MAX_URI_LENGTH: usize = 200;

/// Most creators that metadata may list.
pub const MAX_CREATORS: usize = 5;

/// Storage of a ledger record, in bytes.
pub const MINT_SIZE: u64 = 82;

/// Storage of an ownership-index record, in bytes.
pub const INDEX_SIZE: u64 = 165;

/// Storage of a metadata record, in bytes.
pub const METADATA_SIZE: u64 = 679;

/// Storage of an edition record, in bytes.
pub const EDITION_SIZE: u64 = 282;

} // verus!
