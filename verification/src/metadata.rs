//! The metadata record of a created token, and the space it may take.

use crate::address::Address;
use crate::error::GatewayError;
use vstd::prelude::*;
use vstd::utf8::encode_utf8;

verus! {

/// Bytes reserved for a metadata record when it is created. A record is never resized.
pub const RESERVED_SPACE: usize = 105;

/// Bytes of a stored record that do not depend on its texts: an 8-byte tag, the 32-byte
/// ledger entry id, one byte of precision, a 4-byte length in front of each of the two texts,
/// and the 32-byte administrator.
pub const FIXED_SPACE: usize = 8 + 32 + 1 + 4 + 4 + 32;

/// Bytes left for the UTF-8 encodings of name and symbol together.
pub const TEXT_SPACE: usize = 24;

/// The descriptive record of a created token.
#[derive(Debug, PartialEq, Eq)]
pub struct TokenInfo {
    /// The ledger entry that the record describes.
    pub mint: Address,
    /// Decimal precision of the token, the same as the ledger entry's.
    pub decimals: u8,
    /// Human-readable label.
    pub name: String,
    /// Short ticker.
    pub symbol: String,
    /// The identity that created the token and was made its mint authority. The field
    /// describes; the gateway does not consult it when more is minted.
    pub authority: Address,
}

/// What a [`TokenInfo`] holds, with its texts as sequences of characters.
pub struct TokenInfoView {
    pub mint: Address,
    pub decimals: u8,
    pub name: Seq<char>,
    pub symbol: Seq<char>,
    pub authority: Address,
}

impl View for TokenInfo {
    type V = TokenInfoView;

    open spec fn view(&self) -> TokenInfoView {
        TokenInfoView {
            mint: self.mint,
            decimals: self.decimals,
            name: self.name@,
            symbol: self.symbol@,
            authority: self.authority,
        }
    }
}

impl Clone for TokenInfo {
    fn clone(&self) -> (copy: TokenInfo)
        ensures
            copy@ == self@,
    {
        TokenInfo {
            mint: self.mint,
            decimals: self.decimals,
            name: self.name.clone(),
            symbol: self.symbol.clone(),
            authority: self.authority,
        }
    }
}

/// Number of bytes that a text takes when stored, its length prefix not counted.
pub open spec fn text_len(text: Seq<char>) -> nat {
    encode_utf8(text).len()
}

/// Number of bytes that a record with these texts takes when stored.
pub open spec fn record_size(name: Seq<char>, symbol: Seq<char>) -> nat {
    FIXED_SPACE as nat + text_len(name) + text_len(symbol)
}

/// Whether a record with these texts fits in the space reserved for it.
pub open spec fn fits_reserved_space(name: Seq<char>, symbol: Seq<char>) -> bool {
    record_size(name, symbol) <= RESERVED_SPACE
}

/// Tells whether a record with these texts fits in the space reserved for it.
pub fn record_fits(name: &String, symbol: &String) -> (fits: bool)
    ensures
        fits == fits_reserved_space(name@, symbol@),
        fits == (text_len(name@) + text_len(symbol@) <= TEXT_SPACE),
{
    let name_len: usize = name.as_str().as_bytes().len();
    let symbol_len: usize = symbol.as_str().as_bytes().len();
    name_len <= TEXT_SPACE && symbol_len <= TEXT_SPACE - name_len
}

} // verus!
