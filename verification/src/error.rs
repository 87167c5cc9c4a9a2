use vstd::prelude::*;

verus! {

/// Why a protocol step, or one of the ledger operations under it, was refused.
#[derive(Clone, Copy, Debug, PartialEq, Eq, Structural)]
pub enum NftError {
    /// An address in a derived role is not the one its seeds derive.
    InvalidAccountDerivation,
    /// A required signature is missing, or an authority is not the recorded one.
    AuthorizationFailure,
    /// The funder cannot pay the rent of the storage asked for.
    InsufficientFunding,
    /// Issuing would take the supply above the cap.
    SupplyExceeded,
    /// The asset already has its edition record.
    EditionAlreadyExists,
    /// An operation came before the one it depends on.
    OrderingViolation,
    /// Name, symbol, URI, creators or royalty are outside their limits.
    InvalidMetadata,
    /// Storage was asked for at an address that already holds a record.
    AddressInUse,
    /// An update asked to make cleared metadata mutable again.
    MetadataImmutable,
}

} // verus!
