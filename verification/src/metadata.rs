//! The display metadata of an asset.

use near_contract_standards::fungible_token::metadata::FungibleTokenMetadata;
use vstd::prelude::*;

verus! {

/// What an asset service says of itself. The pool shows it and decides
/// nothing by it.
#[derive(Debug, PartialEq)]
pub struct TokenMetadata {
    pub name: String,
    pub symbol: String,
    pub decimals: u8,
}

/// The metadata of an asset as mathematical values.
pub struct TokenMetadataView {
    pub name: Seq<char>,
    pub symbol: Seq<char>,
    pub decimals: u8,
}

impl View for TokenMetadata {
    type V = TokenMetadataView;

    open spec fn view(&self) -> TokenMetadataView {
        TokenMetadataView { name: self.name@, symbol: self.symbol@, decimals: self.decimals }
    }
}

impl Clone for TokenMetadata {
    fn clone(&self) -> (res: Self)
        ensures
            res@ == self@,
    {
        TokenMetadata {
            name: self.name.clone(),
            symbol: self.symbol.clone(),
            decimals: self.decimals,
        }
    }
}

/// The view of optional metadata.
pub open spec fn metadata_view(meta: Option<TokenMetadata>) -> Option<TokenMetadataView> {
    match meta {
        Some(m) => Some(m@),
        None => None,
    }
}

/// What `serde_json::from_slice` reads out of `bytes` as the metadata of a
/// fungible token: its name, symbol and decimals, or nothing where the bytes
/// are not such a document.
pub uninterp spec fn metadata_in(bytes: Seq<u8>) -> Option<TokenMetadataView>;

/// Parses the answer of an asset service with `serde_json::from_slice`, as
/// a `FungibleTokenMetadata`, and keeps its name, symbol and decimals.
///
/// Trusted: the result depends on the bytes alone. Nothing else is claimed
/// of it.
#[verifier::external_body]
fn parse_metadata(bytes: &[u8]) -> (res: Option<TokenMetadata>)
    ensures
        metadata_view(res) == metadata_in(bytes@),
{
    match near_sdk::serde_json::from_slice::<FungibleTokenMetadata>(bytes) {
        Ok(m) => Some(TokenMetadata { name: m.name, symbol: m.symbol, decimals: m.decimals }),
        Err(_) => None,
    }
}

/// The metadata that an asset service has sent, or nothing where its answer
/// cannot be read.
pub fn read_metadata(bytes: &Vec<u8>) -> (res: Option<TokenMetadata>)
    ensures
        metadata_view(res) == metadata_in(bytes@),
{
    parse_metadata(bytes.as_slice())
}

} // verus!
