//! What the choice of a bus gives, in terms of the accounts that it is made from.

use vstd::prelude::*;

use crate::buses::{
    all_readable, buses_in, is_top_address, law_top_bus_has_the_largest_rewards, top_after,
};
use crate::bytes::{law_u64_bytes_round_trip, u64_bytes};
use crate::chain::{bus_address_at, bus_in, readable, Bus};

verus! {

/// The account of a bus is read as that bus, whatever else it holds.
pub proof fn law_bus_account_reads_back(id: u64, rewards: u64, header: Seq<u8>, rest: Seq<u8>)
    requires
        header.len() == 7,
        rest.len() == 16,
    ensures
        ({
            let data = seq![100u8] + header + u64_bytes(id) + u64_bytes(rewards) + rest;
            bus_in(data) == Some(Bus { id, rewards }) && readable(data)
        }),
{
    let data = seq![100u8] + header + u64_bytes(id) + u64_bytes(rewards) + rest;
    assert(data.subrange(8, 16) =~= u64_bytes(id));
    assert(data.subrange(16, 24) =~= u64_bytes(rewards));
    law_u64_bytes_round_trip(id);
    law_u64_bytes_round_trip(rewards);
}

/// An account of another length or another kind holds no bus. An empty one cannot be looked at, nor
/// one that begins like a bus and ends before its eighth byte; every other one can.
pub proof fn law_other_accounts_hold_no_bus(data: Seq<u8>)
    ensures
        data.len() != 40 ==> bus_in(data) is None,
        data.len() > 0 && data[0] != 100 ==> bus_in(data) is None && readable(data),
        data.len() == 0 ==> !readable(data),
        data.len() >= 8 ==> readable(data),
        0 < data.len() < 8 && data[0] == 100 ==> !readable(data),
{
}

/// There is a top bus exactly where none with an id of eight or more ever takes the lead, that is,
/// has more rewards than every bus before it, and some.
pub proof fn law_when_there_is_a_top_bus(buses: Seq<Option<Bus>>)
    ensures
        top_after(buses) is None <==> exists|i: int|
            {
                &&& 0 <= i < buses.len()
                &&& (#[trigger] buses[i]) is Some
                &&& buses[i]->0.id >= 8
                &&& buses[i]->0.rewards > 0
                &&& forall|j: int|
                    0 <= j < i && (#[trigger] buses[j]) is Some ==> buses[j]->0.rewards
                        < buses[i]->0.rewards
            },
    decreases buses.len(),
{
    if buses.len() > 0 {
        let front = buses.drop_last();
        let last = buses.len() - 1;
        law_when_there_is_a_top_bus(front);
        assert forall|i: int| 0 <= i < front.len() implies #[trigger] front[i] == buses[i] by {}
        assert(buses.last() == buses[last]);
        if top_after(front) is None {
            let i = choose|i: int|
                {
                    &&& 0 <= i < front.len()
                    &&& (#[trigger] front[i]) is Some
                    &&& front[i]->0.id >= 8
                    &&& front[i]->0.rewards > 0
                    &&& forall|j: int|
                        0 <= j < i && (#[trigger] front[j]) is Some ==> front[j]->0.rewards
                            < front[i]->0.rewards
                };
            assert(buses[i] is Some);
            assert forall|j: int| 0 <= j < i && (#[trigger] buses[j]) is Some implies buses[j]->0.rewards
                < buses[i]->0.rewards by {
                assert(front[j] == buses[j]);
            }
        } else {
            law_top_bus_has_the_largest_rewards(front);
            let top = top_after(front)->0;
            if top_after(buses) is None {
                assert(buses[last] is Some);
                assert forall|j: int| 0 <= j < last && (#[trigger] buses[j]) is Some implies buses[j]->0.rewards
                    < buses[last]->0.rewards by {
                    assert(front[j] == buses[j]);
                }
            } else if exists|i: int|
                {
                    &&& 0 <= i < buses.len()
                    &&& (#[trigger] buses[i]) is Some
                    &&& buses[i]->0.id >= 8
                    &&& buses[i]->0.rewards > 0
                    &&& forall|j: int|
                        0 <= j < i && (#[trigger] buses[j]) is Some ==> buses[j]->0.rewards
                            < buses[i]->0.rewards
                } {
                let i = choose|i: int|
                    {
                        &&& 0 <= i < buses.len()
                        &&& (#[trigger] buses[i]) is Some
                        &&& buses[i]->0.id >= 8
                        &&& buses[i]->0.rewards > 0
                        &&& forall|j: int|
                            0 <= j < i && (#[trigger] buses[j]) is Some ==> buses[j]->0.rewards
                                < buses[i]->0.rewards
                    };
                if i < last {
                    assert(front[i] is Some);
                    assert forall|j: int| 0 <= j < i && (#[trigger] front[j]) is Some implies front[j]->0.rewards
                        < front[i]->0.rewards by {
                        assert(front[j] == buses[j]);
                    }
                } else if top.rewards > 0 {
                    let k = choose|k: int|
                        {
                            &&& 0 <= k < front.len()
                            &&& (#[trigger] front[k]) is Some
                            &&& front[k]->0.rewards == top.rewards
                            &&& front[k]->0.id == top.index
                            &&& forall|j: int|
                                0 <= j < k && (#[trigger] front[j]) is Some ==> front[j]->0.rewards
                                    < top.rewards
                        };
                    assert(buses[k] is Some);
                }
            }
        }
    }
}

/// Where every bus that is there has an id below eight, there is a top bus.
pub proof fn law_good_ids_give_a_top_bus(buses: Seq<Option<Bus>>)
    requires
        forall|i: int| 0 <= i < buses.len() && (#[trigger] buses[i]) is Some ==> buses[i]->0.id < 8,
    ensures
        top_after(buses) is Some,
{
    law_when_there_is_a_top_bus(buses);
}

/// The address that is chosen, in terms of the accounts: with only ids below eight there always is
/// one. It is that of the bus in one of the accounts, which no account exceeds in rewards and none
/// before it reaches, or that of bus 0 where no account holds a bus with any rewards.
pub proof fn law_chosen_address(accounts: Seq<Option<Vec<u8>>>, address: Option<[u8; 32]>)
    requires
        is_top_address(buses_in(accounts), address),
    ensures
        (forall|i: int|
            0 <= i < accounts.len() && (#[trigger] accounts[i]) is Some && bus_in(accounts[i]->0@) is Some
                ==> bus_in(accounts[i]->0@)->0.id < 8) ==> address is Some,
        address is Some ==> {
            ||| address->0@ == bus_address_at(0) && forall|i: int|
                0 <= i < accounts.len() && (#[trigger] accounts[i]) is Some && bus_in(
                    accounts[i]->0@,
                ) is Some ==> bus_in(accounts[i]->0@)->0.rewards == 0
            ||| exists|i: int|
                {
                    &&& 0 <= i < accounts.len()
                    &&& (#[trigger] accounts[i]) is Some
                    &&& bus_in(accounts[i]->0@) is Some
                    &&& bus_in(accounts[i]->0@)->0.rewards > 0
                    &&& bus_in(accounts[i]->0@)->0.id < 8
                    &&& address->0@ == bus_address_at(bus_in(accounts[i]->0@)->0.id as int)
                    &&& forall|j: int|
                        0 <= j < accounts.len() && (#[trigger] accounts[j]) is Some && bus_in(
                            accounts[j]->0@,
                        ) is Some ==> {
                            &&& bus_in(accounts[j]->0@)->0.rewards <= bus_in(
                                accounts[i]->0@,
                            )->0.rewards
                            &&& j < i ==> bus_in(accounts[j]->0@)->0.rewards < bus_in(
                                accounts[i]->0@,
                            )->0.rewards
                        }
                }
        },
{
    let buses = buses_in(accounts);
    assert forall|i: int| 0 <= i < accounts.len() implies #[trigger] buses[i] == (if accounts[i] is Some {
        bus_in(accounts[i]->0@)
    } else {
        None
    }) by {}
    if forall|i: int|
        0 <= i < accounts.len() && (#[trigger] accounts[i]) is Some && bus_in(accounts[i]->0@) is Some
            ==> bus_in(accounts[i]->0@)->0.id < 8 {
        assert forall|i: int| 0 <= i < buses.len() && (#[trigger] buses[i]) is Some implies buses[i]->0.id
            < 8 by {
            assert(accounts[i] is Some);
        }
        law_good_ids_give_a_top_bus(buses);
    }
    if address is Some {
        law_top_bus_has_the_largest_rewards(buses);
        let top = top_after(buses)->0;
        assert forall|i: int|
            0 <= i < accounts.len() && (#[trigger] accounts[i]) is Some && bus_in(
                accounts[i]->0@,
            ) is Some implies bus_in(accounts[i]->0@)->0.rewards <= top.rewards by {
            assert(buses[i] is Some);
        }
        if top.rewards > 0 {
            let i = choose|i: int|
                {
                    &&& 0 <= i < buses.len()
                    &&& (#[trigger] buses[i]) is Some
                    &&& buses[i]->0.rewards == top.rewards
                    &&& buses[i]->0.id == top.index
                    &&& forall|j: int|
                        0 <= j < i && (#[trigger] buses[j]) is Some ==> buses[j]->0.rewards
                            < top.rewards
                };
            assert(accounts[i] is Some);
            assert forall|j: int|
                0 <= j < accounts.len() && (#[trigger] accounts[j]) is Some && bus_in(
                    accounts[j]->0@,
                ) is Some && j < i implies bus_in(accounts[j]->0@)->0.rewards < top.rewards by {
                assert(buses[j] is Some);
            }
        }
    }
}

/// One account that cannot be looked at is enough for no choice to be made; else one is.
pub proof fn law_all_accounts_count(accounts: Seq<Option<Vec<u8>>>)
    ensures
        all_readable(accounts) <==> forall|i: int|
            0 <= i < accounts.len() && (#[trigger] accounts[i]) is Some ==> accounts[i]->0@.len() >= 8
                || (accounts[i]->0@.len() > 0 && accounts[i]->0@[0] != 100),
{
    if all_readable(accounts) {
        assert forall|i: int| 0 <= i < accounts.len() && (#[trigger] accounts[i]) is Some implies accounts[i]->0@.len()
            >= 8 || (accounts[i]->0@.len() > 0 && accounts[i]->0@[0] != 100) by {
            assert(readable(accounts[i]->0@));
        }
    }
}

} // verus!
