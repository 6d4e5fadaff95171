//! Where token prices come from.

use vstd::prelude::*;

use crate::json::{float_bits_of, member_of, Json, JsonView};

verus! {

/// Where the price of SOL is asked.
pub const COINGECKO_API_URL: &'static str =
    "https://api.coingecko.com/api/v3/simple/price?ids=solana&vs_currencies=usd";

/// Where the price of ORE is asked.
pub const DEXSCREENER_API_URL: &'static str =
    "https://api.dexscreener.com/latest/dex/pairs/solana/ggadtfbqdgjozz3fp7zrtofgwnrs4e6mczmmd5ni1mxj";

/// The bits of the number at `outer`, then `inner`; those of zero where there is none.
pub open spec fn price_bits(response: JsonView, outer: Seq<char>, inner: Seq<char>) -> u64 {
    match float_bits_of(member_of(member_of(response, outer), inner)) {
        Some(bits) => bits,
        None => 0,
    }
}

/// Reads the number at `outer`, then `inner`.
fn read_price(response: &Json, outer: &str, inner: &str) -> (bits: u64)
    ensures
        bits == price_bits(response.meaning(), outer@, inner@),
{
    match response.member(outer) {
        Some(found) => match found.member(inner) {
            Some(price) => match price.as_float_bits() {
                Some(bits) => bits,
                None => 0,
            },
            None => 0,
        },
        None => 0,
    }
}

/// The price of SOL in a response of [`COINGECKO_API_URL`], as the bits of a double-precision
/// number; zero where the response holds none.
pub fn get_solana_price_usd(response: &Json) -> (bits: u64)
    ensures
        bits == price_bits(response.meaning(), "solana"@, "usd"@),
{
    read_price(response, "solana", "usd")
}

/// The price of ORE in a response of [`DEXSCREENER_API_URL`], as the bits of a double-precision
/// number; zero where the response holds none.
pub fn get_ore_price_usd(response: &Json) -> (bits: u64)
    ensures
        bits == price_bits(response.meaning(), "pair"@, "priceUsd"@),
{
    read_price(response, "pair", "priceUsd")
}

} // verus!
