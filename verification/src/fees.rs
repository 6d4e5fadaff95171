//! Dynamic priority fees: whom to ask, what to ask, and what the answer amounts to.

use vstd::prelude::*;

use crate::chain::{
    address_text, bus_address, bus_address_at, bus_count, display_address, ore_program_id, BUSES,
    ORE_PROGRAM_ID,
};
use crate::float64::{truncate, whole_part};
use crate::json::{float_bits_of, last_item_of, member_of, unsigned_of, Json, JsonView, Number};
use crate::miner::{capped, Miner};
use crate::text::{contains, occurs};

verus! {

/// A service that estimates fees.
#[derive(Clone, Copy, PartialEq, Eq, Structural)]
pub enum FeeStrategy {
    Helius,
    Triton,
}

/// Why no service can be told from an address.
#[derive(Clone, Copy, PartialEq, Eq, Structural)]
pub enum FeeUrlError {
    /// The address is no URL.
    Invalid,
    /// The URL names no host.
    NoHost,
}

/// A response that does not hold the fee that was asked for.
#[derive(Clone, Copy, PartialEq, Eq, Structural)]
pub struct MissingFee;

/// A question to a service.
pub struct FeeRequest {
    pub strategy: FeeStrategy,
    pub url: String,
    pub body: Json,
}

/// The error of the URL parser.
#[verifier::external_type_specification]
#[verifier::external_body]
pub struct ExParseError(url::ParseError);

/// The host that `Url::parse` and `Url::host_str` find in a text: `None` where the text does not
/// parse, `Some(None)` where the URL has no host.
pub uninterp spec fn host_of_url(text: Seq<char>) -> Option<Option<Seq<char>>>;

/// The characters of an optional text.
pub open spec fn text_view(text: Option<String>) -> Option<Seq<char>> {
    match text {
        Some(t) => Some(t@),
        None => None,
    }
}

/// Calls `Url::parse` and, on what it gives, `Url::host_str`. Both are functions of the text.
#[verifier::external_body]
fn url_host(text: &str) -> (r: Result<Option<String>, url::ParseError>)
    ensures
        match r {
            Ok(host) => host_of_url(text@) == Some(text_view(host)),
            Err(_) => host_of_url(text@) is None,
        },
{
    let parsed = url::Url::parse(text)?;
    Ok(parsed.host_str().map(|host| host.to_string()))
}

/// The service that a host belongs to.
pub open spec fn strategy_of(host: Seq<char>) -> Option<FeeStrategy> {
    if occurs(host, "helius-rpc.com"@) {
        Some(FeeStrategy::Helius)
    } else if occurs(host, "rpcpool.com"@) {
        Some(FeeStrategy::Triton)
    } else {
        None
    }
}

/// Tells the service from a host name.
pub fn strategy_for_host(host: &str) -> (r: Option<FeeStrategy>)
    ensures
        r == strategy_of(host@),
{
    if contains(host, "helius-rpc.com") {
        Some(FeeStrategy::Helius)
    } else if contains(host, "rpcpool.com") {
        Some(FeeStrategy::Triton)
    } else {
        None
    }
}

/// The service that a URL leads to, given the host found in it.
pub open spec fn strategy_of_lookup(
    host: Option<Option<Seq<char>>>,
) -> Result<Option<FeeStrategy>, FeeUrlError> {
    match host {
        None => Err(FeeUrlError::Invalid),
        Some(None) => Err(FeeUrlError::NoHost),
        Some(Some(name)) => Ok(strategy_of(name)),
    }
}

/// Tells the service from a URL.
pub fn strategy_for_url(url: &str) -> (r: Result<Option<FeeStrategy>, FeeUrlError>)
    ensures
        r == strategy_of_lookup(host_of_url(url@)),
{
    match url_host(url) {
        Ok(Some(host)) => Ok(strategy_for_host(host.as_str())),
        Ok(None) => Err(FeeUrlError::NoHost),
        Err(_) => Err(FeeUrlError::Invalid),
    }
}

/// The addresses that fees are asked for: the ORE program and its buses, in order.
pub open spec fn fee_addresses() -> Seq<JsonView> {
    Seq::new(
        (BUSES + 1) as nat,
        |i: int|
            if i == 0 {
                JsonView::Text(address_text(ORE_PROGRAM_ID@))
            } else {
                JsonView::Text(address_text(bus_address_at(i - 1)))
            },
    )
}

/// Lists the addresses that fees are asked for.
fn ore_addresses() -> (r: Json)
    ensures
        r.meaning() == JsonView::Array(fee_addresses()),
{
    let mut items: Vec<Json> = Vec::new();
    let program = ore_program_id();
    items.push(Json::Text(display_address(&program)));
    let count: usize = bus_count();
    let mut i: usize = 0;
    while i < count
        invariant
            count == BUSES,
            i <= count,
            items@.len() == i + 1,
            forall|k: int|
                0 <= k <= i ==> (#[trigger] items@[k]).meaning() == fee_addresses()[k],
        decreases count - i,
    {
        let address = bus_address(i);
        items.push(Json::Text(display_address(&address)));
        i = i + 1;
    }
    let r = Json::Array(items);
    assert(r.meaning()->Array_0 =~= fee_addresses());
    r
}

/// A text value.
fn text(s: &str) -> (r: Json)
    ensures
        r.meaning() == JsonView::Text(s@),
{
    Json::Text(s.to_string())
}

/// An array of one item.
fn array_of_one(item: Json) -> (r: Json)
    ensures
        r.meaning() == JsonView::Array(seq![item.meaning()]),
{
    let r = Json::Array(vec![item]);
    assert(r.meaning()->Array_0 =~= seq![item.meaning()]);
    r
}

/// An array of two items.
fn array_of_two(first: Json, second: Json) -> (r: Json)
    ensures
        r.meaning() == JsonView::Array(seq![first.meaning(), second.meaning()]),
{
    let r = Json::Array(vec![first, second]);
    assert(r.meaning()->Array_0 =~= seq![first.meaning(), second.meaning()]);
    r
}

/// An object with one member.
fn object_of_one(name: &str, value: Json) -> (r: Json)
    ensures
        r.meaning() == JsonView::Object(seq![(name@, value.meaning())]),
{
    let r = Json::Object(vec![(name.to_string(), value)]);
    assert(r.meaning()->Object_0 =~= seq![(name@, value.meaning())]);
    r
}

/// An object with two members.
fn object_of_two(name: &str, value: Json, other_name: &str, other_value: Json) -> (r: Json)
    ensures
        r.meaning() == JsonView::Object(
            seq![(name@, value.meaning()), (other_name@, other_value.meaning())],
        ),
{
    let r = Json::Object(vec![(name.to_string(), value), (other_name.to_string(), other_value)]);
    assert(r.meaning()->Object_0 =~= seq![
        (name@, value.meaning()),
        (other_name@, other_value.meaning()),
    ]);
    r
}

/// A remote procedure call with the given method and parameters.
pub open spec fn call_view(method: Seq<char>, params: JsonView) -> JsonView {
    JsonView::Object(
        seq![
            ("jsonrpc"@, JsonView::Text("2.0"@)),
            ("id"@, JsonView::Text("priority-fee-estimate"@)),
            ("method"@, JsonView::Text(method)),
            ("params"@, params),
        ],
    )
}

/// Builds a remote procedure call.
fn call(method: &str, params: Json) -> (r: Json)
    ensures
        r.meaning() == call_view(method@, params.meaning()),
{
    let r = Json::Object(
        vec![
            ("jsonrpc".to_string(), text("2.0")),
            ("id".to_string(), text("priority-fee-estimate")),
            ("method".to_string(), text(method)),
            ("params".to_string(), params),
        ],
    );
    assert(r.meaning()->Object_0 =~= call_view(method@, params.meaning())->Object_0);
    r
}

/// The percentile of recent fees that Triton is asked for, in hundredths of a percent.
pub const PERCENTILE: u64 = 5000;

/// The bits of [`PERCENTILE`] as a double-precision number.
pub const PERCENTILE_BITS: u64 = 0x40b3_8800_0000_0000;

/// The body of the question to a service.
pub open spec fn body_view(strategy: FeeStrategy) -> JsonView {
    match strategy {
        FeeStrategy::Helius => call_view(
            "getPriorityFeeEstimate"@,
            JsonView::Array(
                seq![
                    JsonView::Object(
                        seq![
                            ("accountKeys"@, JsonView::Array(fee_addresses())),
                            (
                                "options"@,
                                JsonView::Object(seq![("recommended"@, JsonView::Bool(true))]),
                            ),
                        ],
                    ),
                ],
            ),
        ),
        FeeStrategy::Triton => call_view(
            "getRecentPrioritizationFees"@,
            JsonView::Array(
                seq![
                    JsonView::Array(fee_addresses()),
                    JsonView::Object(
                        seq![
                            (
                                "percentile"@,
                                JsonView::Number(
                                    Number {
                                        unsigned: Some(PERCENTILE),
                                        float_bits: Some(PERCENTILE_BITS),
                                    },
                                ),
                            ),
                        ],
                    ),
                ],
            ),
        ),
    }
}

/// Builds the body of the question to a service.
pub fn request_body(strategy: FeeStrategy) -> (r: Json)
    ensures
        r.meaning() == body_view(strategy),
{
    match strategy {
        FeeStrategy::Helius => {
            let options = object_of_one("recommended", Json::Bool(true));
            let params = array_of_one(
                object_of_two("accountKeys", ore_addresses(), "options", options),
            );
            call("getPriorityFeeEstimate", params)
        },
        FeeStrategy::Triton => {
            let percentile = Json::Number(
                Number { unsigned: Some(PERCENTILE), float_bits: Some(PERCENTILE_BITS) },
            );
            let params = array_of_two(ore_addresses(), object_of_one("percentile", percentile));
            call("getRecentPrioritizationFees", params)
        },
    }
}

/// The fee in the response of a service, if the response holds one: Helius gives an estimate with a
/// fraction, which is cut off; Triton gives a list of whole fees, of which the last counts.
pub open spec fn fee_in(strategy: FeeStrategy, response: JsonView) -> Option<u64> {
    match strategy {
        FeeStrategy::Helius => match float_bits_of(
            member_of(member_of(response, "result"@), "priorityFeeEstimate"@),
        ) {
            Some(bits) => Some(whole_part(bits) as u64),
            None => None,
        },
        FeeStrategy::Triton => unsigned_of(
            member_of(last_item_of(member_of(response, "result"@)), "prioritizationFee"@),
        ),
    }
}

/// Reads the fee in the response of a service.
pub fn read_fee(strategy: FeeStrategy, response: &Json) -> (r: Option<u64>)
    ensures
        r == fee_in(strategy, response.meaning()),
{
    let result = match response.member("result") {
        Some(result) => result,
        None => return None,
    };
    match strategy {
        FeeStrategy::Helius => match result.member("priorityFeeEstimate") {
            Some(estimate) => match estimate.as_float_bits() {
                Some(bits) => Some(truncate(bits)),
                None => None,
            },
            None => None,
        },
        FeeStrategy::Triton => match result.last_item() {
            Some(last) => match last.member("prioritizationFee") {
                Some(fee) => fee.as_unsigned(),
                None => None,
            },
            None => None,
        },
    }
}

impl Miner {
    /// The URL that fees are asked from: the one that is set, else that of the node.
    pub open spec fn fee_url_view(&self, rpc_url: Seq<char>) -> Seq<char> {
        match self.dynamic_fee_url {
            Some(url) => url@,
            None => rpc_url,
        }
    }

    /// The URL that fees are asked from.
    pub fn fee_url(&self, rpc_url: &str) -> (r: String)
        ensures
            r@ == self.fee_url_view(rpc_url@),
    {
        match &self.dynamic_fee_url {
            Some(url) => url.clone(),
            None => rpc_url.to_string(),
        }
    }

    /// What to ask for a fee, where `rpc_url` is the address of the node. There is nothing to ask
    /// where the host belongs to no known service.
    pub fn dynamic_fee_request(&self, rpc_url: &str) -> (r: Result<Option<FeeRequest>, FeeUrlError>)
        ensures
            match (r, strategy_of_lookup(host_of_url(self.fee_url_view(rpc_url@)))) {
                (Ok(Some(request)), Ok(Some(strategy))) => {
                    &&& request.strategy == strategy
                    &&& request.url@ == self.fee_url_view(rpc_url@)
                    &&& request.body.meaning() == body_view(strategy)
                },
                (Ok(None), Ok(None)) => true,
                (Err(e), Err(expected)) => e == expected,
                _ => false,
            },
    {
        let url = self.fee_url(rpc_url);
        match strategy_for_url(url.as_str()) {
            Ok(Some(strategy)) => Ok(
                Some(FeeRequest { strategy, url, body: request_body(strategy) }),
            ),
            Ok(None) => Ok(None),
            Err(e) => Err(e),
        }
    }

    /// The fee that the response of a service amounts to, no more than the most that it may be.
    pub fn dynamic_fee(&self, strategy: FeeStrategy, response: &Json) -> (r: Result<u64, MissingFee>)
        ensures
            match fee_in(strategy, response.meaning()) {
                Some(fee) => r == Ok::<u64, MissingFee>(capped(fee, self.dynamic_fee_max)),
                None => r == Err::<u64, MissingFee>(MissingFee),
            },
            r is Ok && self.dynamic_fee_max is Some ==> r->Ok_0 <= self.dynamic_fee_max->0,
    {
        match read_fee(strategy, response) {
            Some(fee) => Ok(self.cap_fee(fee)),
            None => Err(MissingFee),
        }
    }
}

} // verus!
