//! What is read from a JSON document, what services are asked, and what their answers amount to.

use vstd::prelude::*;

use crate::chain::{address_text, bus_address_at, ORE_PROGRAM_ID};
use crate::encoding_laws::{law_middle_occurs, law_what_occurs_is_in_the_middle};
use crate::fees::{
    body_view, call_view, fee_addresses, fee_in, strategy_of, strategy_of_lookup, text_view,
    FeeStrategy, FeeUrlError,
};
use crate::float64::whole_part;
use crate::json::{
    first_member, float_bits_of, last_item_of, member_of, unsigned_of, Json, JsonView, Number,
};
use crate::miner::{capped, or_zero, Miner};
use crate::prices::price_bits;
use crate::text::occurs;

verus! {

/// Is no member called `name`?
pub open spec fn unnamed(members: Seq<(Seq<char>, JsonView)>, name: Seq<char>) -> bool {
    forall|i: int| 0 <= i < members.len() ==> (#[trigger] members[i]).0 != name
}

/// The member of an object is the first with its name, whatever stands around it.
pub proof fn law_first_member_is_found(
    before: Seq<(Seq<char>, JsonView)>,
    name: Seq<char>,
    value: JsonView,
    after: Seq<(Seq<char>, JsonView)>,
)
    requires
        unnamed(before, name),
    ensures
        member_of(JsonView::Object(before + seq![(name, value)] + after), name) == value,
{
    lemma_first_member(before, name, value, after);
}

/// The first member with a name, as found.
proof fn lemma_first_member(
    before: Seq<(Seq<char>, JsonView)>,
    name: Seq<char>,
    value: JsonView,
    after: Seq<(Seq<char>, JsonView)>,
)
    requires
        unnamed(before, name),
    ensures
        first_member(before + seq![(name, value)] + after, name) == Some(value),
    decreases before.len(),
{
    let members = before + seq![(name, value)] + after;
    if before.len() == 0 {
        assert(members[0] == (name, value));
    } else {
        let rest = before.skip(1);
        assert(members[0] == before[0]);
        assert(members.skip(1) =~= rest + seq![(name, value)] + after);
        assert forall|i: int| 0 <= i < rest.len() implies (#[trigger] rest[i]).0 != name by {
            assert(rest[i] == before[i + 1]);
        }
        lemma_first_member(rest, name, value, after);
    }
}

/// A member that is not there is null, and so is any member of what is no object.
pub proof fn law_missing_member_is_null(
    members: Seq<(Seq<char>, JsonView)>,
    other: JsonView,
    name: Seq<char>,
)
    requires
        unnamed(members, name),
        other !is Object,
    ensures
        member_of(JsonView::Object(members), name) == JsonView::Null,
        member_of(other, name) == JsonView::Null,
    decreases members.len(),
{
    if members.len() > 0 {
        let rest = members.skip(1);
        assert(members[0].0 != name);
        assert forall|i: int| 0 <= i < rest.len() implies (#[trigger] rest[i]).0 != name by {
            assert(rest[i] == members[i + 1]);
        }
        law_missing_member_is_null(rest, other, name);
        if let Some(found) = first_member(rest, name) {
            lemma_found_is_named(rest, name);
        }
    }
}

/// What is found is a member with the name.
proof fn lemma_found_is_named(members: Seq<(Seq<char>, JsonView)>, name: Seq<char>)
    requires
        first_member(members, name) is Some,
    ensures
        !unnamed(members, name),
    decreases members.len(),
{
    if members.len() > 0 {
        assert(members[0].0 == members[0].0);
        if members[0].0 != name {
            let rest = members.skip(1);
            lemma_found_is_named(rest, name);
            let i = choose|i: int| 0 <= i < rest.len() && (#[trigger] rest[i]).0 == name;
            assert(members[i + 1] == rest[i]);
        }
    }
}

/// The last item of an array is the last, however many are before it; without items, or of what is
/// no array, it is null.
pub proof fn law_last_item_is_the_last(items: Seq<JsonView>, last: JsonView, other: JsonView)
    requires
        other !is Array,
    ensures
        last_item_of(JsonView::Array(items.push(last))) == last,
        last_item_of(JsonView::Array(Seq::empty())) == JsonView::Null,
        last_item_of(other) == JsonView::Null,
{
}

/// A number is read as what it says, anything else as no number.
pub proof fn law_numbers_are_read(unsigned: Option<u64>, float_bits: Option<u64>, other: JsonView)
    requires
        other !is Number,
    ensures
        unsigned_of(JsonView::Number(Number { unsigned, float_bits })) == unsigned,
        float_bits_of(JsonView::Number(Number { unsigned, float_bits })) == float_bits,
        unsigned_of(other) is None,
        float_bits_of(other) is None,
{
}

/// A value says what it holds: the same scalar, the same items in the same places, the same members
/// under the same names in the same places.
pub proof fn law_value_says_what_it_holds(value: Json)
    ensures
        value is Null <==> value.meaning() is Null,
        value is Bool <==> value.meaning() is Bool,
        value is Number <==> value.meaning() is Number,
        value is Text <==> value.meaning() is Text,
        value is Array <==> value.meaning() is Array,
        value is Object <==> value.meaning() is Object,
        value is Bool ==> value.meaning()->Bool_0 == value->Bool_0,
        value is Number ==> value.meaning()->Number_0 == value->Number_0,
        value is Text ==> value.meaning()->Text_0 == value->Text_0@,
        value is Array ==> {
            &&& value.meaning()->Array_0.len() == value->Array_0@.len()
            &&& forall|i: int|
                0 <= i < value->Array_0@.len() ==> #[trigger] value.meaning()->Array_0[i]
                    == value->Array_0@[i].meaning()
        },
        value is Object ==> {
            &&& value.meaning()->Object_0.len() == value->Object_0@.len()
            &&& forall|i: int|
                0 <= i < value->Object_0@.len() ==> #[trigger] value.meaning()->Object_0[i] == (
                    value->Object_0@[i].0@,
                    value->Object_0@[i].1.meaning(),
                )
        },
{
}

/// The price is the number at the inner member of the outer member, where there is a number; else
/// it is zero.
pub proof fn law_price_is_the_number_found(
    response: JsonView,
    outer: Seq<char>,
    inner: Seq<char>,
    bits: u64,
)
    ensures
        float_bits_of(member_of(member_of(response, outer), inner)) == Some(bits) ==> price_bits(
            response,
            outer,
            inner,
        ) == bits,
        float_bits_of(member_of(member_of(response, outer), inner)) is None ==> price_bits(
            response,
            outer,
            inner,
        ) == 0,
{
}

/// The Triton fee is that of the last entry, however many there are.
pub proof fn law_triton_fee_is_that_of_the_last_entry(
    response: JsonView,
    entries: Seq<JsonView>,
    last: JsonView,
)
    requires
        member_of(response, "result"@) == JsonView::Array(entries.push(last)),
    ensures
        fee_in(FeeStrategy::Triton, response) == unsigned_of(member_of(last, "prioritizationFee"@)),
{
    law_last_item_is_the_last(entries, last, JsonView::Null);
}

/// Two Triton responses with the same last entry give the same fee, whatever is before it.
pub proof fn law_triton_looks_at_the_last_entry_only(
    one: JsonView,
    other: JsonView,
    entries: Seq<JsonView>,
    other_entries: Seq<JsonView>,
    last: JsonView,
)
    requires
        member_of(one, "result"@) == JsonView::Array(entries.push(last)),
        member_of(other, "result"@) == JsonView::Array(other_entries.push(last)),
    ensures
        fee_in(FeeStrategy::Triton, one) == fee_in(FeeStrategy::Triton, other),
{
    law_triton_fee_is_that_of_the_last_entry(one, entries, last);
    law_triton_fee_is_that_of_the_last_entry(other, other_entries, last);
}

/// A Triton response without entries has no fee.
pub proof fn law_triton_needs_an_entry(response: JsonView)
    requires
        member_of(response, "result"@) !is Array || member_of(response, "result"@)
            == JsonView::Array(Seq::empty()),
    ensures
        fee_in(FeeStrategy::Triton, response) is None,
{
}

/// The Helius fee is the whole part of the estimate, where there is an estimate that is a number,
/// whatever else the response holds.
pub proof fn law_helius_fee_is_the_whole_part(response: JsonView, estimate: JsonView)
    requires
        member_of(member_of(response, "result"@), "priorityFeeEstimate"@) == estimate,
    ensures
        fee_in(FeeStrategy::Helius, response) is Some <==> estimate is Number
            && estimate->Number_0.float_bits is Some,
        fee_in(FeeStrategy::Helius, response) is Some ==> fee_in(FeeStrategy::Helius, response)->0
            == whole_part(estimate->Number_0.float_bits->0),
{
    if estimate is Number && estimate->Number_0.float_bits is Some {
        crate::float64::law_whole_part_is_the_floor(estimate->Number_0.float_bits->0);
    }
}

/// A capped fee is the smaller of the fee and the most that it may be; without a most it is the fee.
pub proof fn law_cap_is_the_smaller(fee: u64, max: u64)
    ensures
        capped(fee, Some(max)) <= fee,
        capped(fee, Some(max)) <= max,
        capped(fee, Some(max)) == fee || capped(fee, Some(max)) == max,
        capped(fee, None) == fee,
        or_zero(Some(fee)) == fee,
        or_zero(None) == 0,
{
}

/// A host with the name of Helius in it belongs to Helius, wherever the name stands in it and
/// whatever else it holds.
pub proof fn law_helius_by_name(before: Seq<char>, after: Seq<char>)
    ensures
        strategy_of(before + "helius-rpc.com"@ + after) == Some(FeeStrategy::Helius),
{
    law_middle_occurs(before, "helius-rpc.com"@, after);
}

/// A host with the name of Triton in it, and not that of Helius, belongs to Triton.
pub proof fn law_triton_by_name(before: Seq<char>, after: Seq<char>)
    requires
        !occurs(before + "rpcpool.com"@ + after, "helius-rpc.com"@),
    ensures
        strategy_of(before + "rpcpool.com"@ + after) == Some(FeeStrategy::Triton),
{
    law_middle_occurs(before, "rpcpool.com"@, after);
}

/// A host belongs to a service only where it has its name in it.
pub proof fn law_no_service_without_its_name(host: Seq<char>)
    ensures
        strategy_of(host) == Some(FeeStrategy::Helius) ==> exists|before: Seq<char>, after: Seq<char>|
            host == #[trigger] (before + "helius-rpc.com"@ + after),
        strategy_of(host) == Some(FeeStrategy::Triton) ==> exists|before: Seq<char>, after: Seq<char>|
            host == #[trigger] (before + "rpcpool.com"@ + after),
{
    if strategy_of(host) == Some(FeeStrategy::Helius) {
        let around = law_what_occurs_is_in_the_middle(host, "helius-rpc.com"@);
        assert(host == around.0 + "helius-rpc.com"@ + around.1);
    }
    if strategy_of(host) == Some(FeeStrategy::Triton) {
        let around = law_what_occurs_is_in_the_middle(host, "rpcpool.com"@);
        assert(host == around.0 + "rpcpool.com"@ + around.1);
    }
}

/// What is no URL, and a URL without a host, are refused, each for its own reason; any other goes by
/// its host.
pub proof fn law_urls_go_by_their_host(host: Seq<char>)
    ensures
        strategy_of_lookup(None) == Err::<Option<FeeStrategy>, FeeUrlError>(FeeUrlError::Invalid),
        strategy_of_lookup(Some(None)) == Err::<Option<FeeStrategy>, FeeUrlError>(
            FeeUrlError::NoHost,
        ),
        strategy_of_lookup(Some(Some(host))) == Ok::<Option<FeeStrategy>, FeeUrlError>(
            strategy_of(host),
        ),
{
}

/// The URL of a miner is asked before that of the node.
pub proof fn law_own_url_comes_first(miner: Miner, rpc_url: Seq<char>)
    ensures
        miner.dynamic_fee_url is Some ==> miner.fee_url_view(rpc_url) == miner.dynamic_fee_url->0@,
        miner.dynamic_fee_url is None ==> miner.fee_url_view(rpc_url) == rpc_url,
{
}

/// An optional text is seen as what it is.
pub proof fn law_optional_text(text: String)
    ensures
        text_view(Some(text)) == Some(text@),
        text_view(None) is None,
{
}

/// The four members of a call are found under their names.
proof fn lemma_call(method: Seq<char>, params: JsonView)
    ensures
        member_of(call_view(method, params), "jsonrpc"@) == JsonView::Text("2.0"@),
        member_of(call_view(method, params), "id"@) == JsonView::Text("priority-fee-estimate"@),
        member_of(call_view(method, params), "method"@) == JsonView::Text(method),
        member_of(call_view(method, params), "params"@) == params,
        call_view(method, params) is Object && call_view(method, params)->Object_0.len() == 4,
{
    reveal_strlit("jsonrpc");
    reveal_strlit("id");
    reveal_strlit("method");
    reveal_strlit("params");
    let m = call_view(method, params)->Object_0;
    assert("jsonrpc"@.len() == 7 && "id"@.len() == 2 && "method"@.len() == 6 && "params"@.len() == 6);
    assert("method"@[0] == 'm' && "params"@[0] == 'p');
    assert(m.skip(1)[0] == m[1]);
    assert(m.skip(1).skip(1)[0] == m[2]);
    assert(m.skip(1).skip(1).skip(1)[0] == m[3]);
    reveal_with_fuel(first_member, 5);
}

/// Is `value` the list of the ORE program and its eight buses, in order, each by its address?
pub open spec fn lists_program_and_buses(value: JsonView) -> bool {
    &&& value is Array
    &&& value->Array_0.len() == 9
    &&& value->Array_0[0] == JsonView::Text(address_text(ORE_PROGRAM_ID@))
    &&& forall|i: int|
        1 <= i <= 8 ==> #[trigger] value->Array_0[i] == JsonView::Text(
            address_text(bus_address_at(i - 1)),
        )
}

/// Helius is asked by the method for a priority fee estimate, with one parameter: an object with the
/// addresses, and the option that asks for the recommended fee.
pub proof fn law_helius_is_asked(body: JsonView)
    requires
        body == body_view(FeeStrategy::Helius),
    ensures
        body is Object && body->Object_0.len() == 4,
        member_of(body, "jsonrpc"@) == JsonView::Text("2.0"@),
        member_of(body, "id"@) == JsonView::Text("priority-fee-estimate"@),
        member_of(body, "method"@) == JsonView::Text("getPriorityFeeEstimate"@),
        member_of(body, "params"@) is Array,
        member_of(body, "params"@)->Array_0.len() == 1,
        ({
            let param = member_of(body, "params"@)->Array_0[0];
            &&& param is Object && param->Object_0.len() == 2
            &&& lists_program_and_buses(member_of(param, "accountKeys"@))
            &&& member_of(param, "options"@) is Object
            &&& member_of(param, "options"@)->Object_0.len() == 1
            &&& member_of(member_of(param, "options"@), "recommended"@) == JsonView::Bool(true)
        }),
{
    let params = body->Object_0[3].1;
    lemma_call("getPriorityFeeEstimate"@, params);
    lemma_addresses();
    reveal_strlit("accountKeys");
    reveal_strlit("options");
    assert("accountKeys"@.len() == 11 && "options"@.len() == 7);
    let m = params->Array_0[0]->Object_0;
    assert(m.skip(1)[0] == m[1]);
    reveal_with_fuel(first_member, 3);
}

/// Triton is asked by the method for recent fees, with two parameters: the addresses, and an object
/// with the percentile, fifty percent.
pub proof fn law_triton_is_asked(body: JsonView)
    requires
        body == body_view(FeeStrategy::Triton),
    ensures
        body is Object && body->Object_0.len() == 4,
        member_of(body, "jsonrpc"@) == JsonView::Text("2.0"@),
        member_of(body, "id"@) == JsonView::Text("priority-fee-estimate"@),
        member_of(body, "method"@) == JsonView::Text("getRecentPrioritizationFees"@),
        member_of(body, "params"@) is Array,
        member_of(body, "params"@)->Array_0.len() == 2,
        lists_program_and_buses(member_of(body, "params"@)->Array_0[0]),
        ({
            let options = member_of(body, "params"@)->Array_0[1];
            &&& options is Object && options->Object_0.len() == 1
            &&& unsigned_of(member_of(options, "percentile"@)) == Some(5000u64)
            &&& float_bits_of(member_of(options, "percentile"@)) == Some(0x40b3_8800_0000_0000u64)
        }),
{
    let params = body->Object_0[3].1;
    lemma_call("getRecentPrioritizationFees"@, params);
    lemma_addresses();
    reveal_with_fuel(first_member, 2);
}

/// The addresses that fees are asked for.
proof fn lemma_addresses()
    ensures
        lists_program_and_buses(JsonView::Array(fee_addresses())),
{
}

} // verus!
