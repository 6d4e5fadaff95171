//! The choice of the bus that a solution goes to.

use vstd::prelude::*;

use crate::chain::{
    bus_address, bus_address_at, bus_count, bus_in, decode_bus, readable, Bus, BUSES,
};
use crate::host::{draw_below, drawn_below};

verus! {

/// The rewards and the index of a bus that leads.
pub struct TopBus {
    pub rewards: u64,
    pub index: int,
}

/// The largest rewards of the buses and the id of the first bus that has them; id 0 where no bus
/// has any. `None` where a bus that is ahead of all before it has an id that is no index.
pub open spec fn top_after(buses: Seq<Option<Bus>>) -> Option<TopBus>
    decreases buses.len(),
{
    if buses.len() == 0 {
        Some(TopBus { rewards: 0, index: 0 })
    } else {
        match top_after(buses.drop_last()) {
            Some(top) => match buses.last() {
                Some(bus) => if bus.rewards > top.rewards {
                    if bus.id < BUSES {
                        Some(TopBus { rewards: bus.rewards, index: bus.id as int })
                    } else {
                        None
                    }
                } else {
                    Some(top)
                },
                None => Some(top),
            },
            None => None,
        }
    }
}

/// The index of the bus with the largest rewards.
pub fn top_bus(buses: &Vec<Option<Bus>>) -> (r: Option<usize>)
    ensures
        match r {
            Some(index) => top_after(buses@) is Some && top_after(buses@)->0.index == index && index
                < BUSES,
            None => top_after(buses@) is None,
        },
{
    let count: usize = bus_count();
    let mut top_bus_balance: u64 = 0;
    let mut top: usize = 0;
    let mut i: usize = 0;
    assert(buses@.take(0) =~= Seq::empty());
    while i < buses.len()
        invariant
            i <= buses.len(),
            count == BUSES,
            top < BUSES,
            top_after(buses@.take(i as int)) == Some(
                TopBus { rewards: top_bus_balance, index: top as int },
            ),
        decreases buses.len() - i,
    {
        assert(buses@.take(i + 1).drop_last() =~= buses@.take(i as int));
        if let Some(bus) = buses[i] {
            if bus.rewards > top_bus_balance {
                if bus.id >= count as u64 {
                    proof {
                        lemma_no_top(buses@, i + 1);
                    }
                    return None;
                }
                top_bus_balance = bus.rewards;
                top = bus.id as usize;
            }
        }
        i = i + 1;
    }
    assert(buses@.take(i as int) =~= buses@);
    Some(top)
}

/// Once there is no top bus, more buses do not bring one about.
proof fn lemma_no_top(buses: Seq<Option<Bus>>, n: int)
    requires
        0 <= n <= buses.len(),
        top_after(buses.take(n)) is None,
    ensures
        top_after(buses) is None,
    decreases buses.len() - n,
{
    if n < buses.len() {
        assert(buses.take(n + 1).drop_last() =~= buses.take(n));
        lemma_no_top(buses, n + 1);
    } else {
        assert(buses.take(n) =~= buses);
    }
}

/// The bus in an account, if there is an account and it holds one.
pub open spec fn bus_at(account: Option<Vec<u8>>) -> Option<Bus> {
    match account {
        Some(data) => bus_in(data@),
        None => None,
    }
}

/// The buses in the given accounts.
pub open spec fn buses_in(accounts: Seq<Option<Vec<u8>>>) -> Seq<Option<Bus>> {
    Seq::new(accounts.len(), |i: int| bus_at(accounts[i]))
}

/// Can every account that is there be looked at as a bus?
pub open spec fn all_readable(accounts: Seq<Option<Vec<u8>>>) -> bool {
    forall|i: int|
        0 <= i < accounts.len() && (#[trigger] accounts[i]) is Some ==> readable(accounts[i]->0@)
}

/// Is `address` that of the bus with the largest rewards, where the buses are `buses`? `None`
/// stands for a bus whose id is no index.
pub open spec fn is_top_address(buses: Seq<Option<Bus>>, address: Option<[u8; 32]>) -> bool {
    match address {
        Some(bytes) => top_after(buses) is Some && bytes@ == bus_address_at(top_after(buses)->0.index),
        None => top_after(buses) is None,
    }
}

/// The address of the bus with the largest rewards among the given accounts. `None` where an
/// account is too short to be looked at, or where a bus that leads has an id that is no index.
pub fn top_bus_address(accounts: &Vec<Option<Vec<u8>>>) -> (r: Option<[u8; 32]>)
    ensures
        if all_readable(accounts@) {
            is_top_address(buses_in(accounts@), r)
        } else {
            r is None
        },
{
    let mut buses: Vec<Option<Bus>> = Vec::new();
    let mut i: usize = 0;
    while i < accounts.len()
        invariant
            i <= accounts.len(),
            buses@.len() == i,
            forall|k: int|
                0 <= k < i && (#[trigger] accounts@[k]) is Some ==> readable(accounts@[k]->0@),
            forall|k: int| 0 <= k < i ==> #[trigger] buses@[k] == bus_at(accounts@[k]),
        decreases accounts.len() - i,
    {
        match &accounts[i] {
            Some(data) => {
                if data.len() == 0 || (data[0] == 100 && data.len() < 8) {
                    assert(!readable(accounts@[i as int]->0@));
                    return None;
                }
                let bus = decode_bus(data);
                buses.push(bus);
            },
            None => {
                buses.push(None);
            },
        }
        i = i + 1;
    }
    assert(buses@ =~= buses_in(accounts@));
    match top_bus(&buses) {
        Some(index) => Some(bus_address(index)),
        None => None,
    }
}

/// A bus at random.
pub fn random_bus_address() -> (r: [u8; 32])
    ensures
        exists|i: usize|
            i < BUSES && #[trigger] drawn_below(BUSES, i) && r@ == bus_address_at(i as int),
{
    let i: usize = draw_below(bus_count());
    bus_address(i)
}

/// The address of the bus to send a solution to: the one with the largest rewards where the
/// accounts of the buses could be fetched, else one at random.
pub fn find_bus(accounts: Option<&Vec<Option<Vec<u8>>>>) -> (r: Option<[u8; 32]>)
    ensures
        match accounts {
            Some(fetched) => if all_readable(fetched@) {
                is_top_address(buses_in(fetched@), r)
            } else {
                r is None
            },
            None => r is Some && exists|i: usize|
                i < BUSES && #[trigger] drawn_below(BUSES, i) && r->0@ == bus_address_at(i as int),
        },
{
    match accounts {
        Some(fetched) => top_bus_address(fetched),
        None => Some(random_bus_address()),
    }
}

/// The top bus has the largest rewards of all, and is the first that has them; where no bus has
/// any rewards it is bus 0.
pub proof fn law_top_bus_has_the_largest_rewards(buses: Seq<Option<Bus>>)
    requires
        top_after(buses) is Some,
    ensures
        0 <= top_after(buses)->0.index < BUSES,
        forall|i: int|
            0 <= i < buses.len() && (#[trigger] buses[i]) is Some ==> buses[i]->0.rewards
                <= top_after(buses)->0.rewards,
        top_after(buses)->0.rewards > 0 ==> exists|i: int|
            {
                &&& 0 <= i < buses.len()
                &&& (#[trigger] buses[i]) is Some
                &&& buses[i]->0.rewards == top_after(buses)->0.rewards
                &&& buses[i]->0.id == top_after(buses)->0.index
                &&& forall|j: int|
                    0 <= j < i && (#[trigger] buses[j]) is Some ==> buses[j]->0.rewards
                        < top_after(buses)->0.rewards
            },
        top_after(buses)->0.rewards == 0 ==> top_after(buses)->0.index == 0,
    decreases buses.len(),
{
    if buses.len() > 0 {
        let front = buses.drop_last();
        law_top_bus_has_the_largest_rewards(front);
        let top = top_after(buses)->0;
        let before = top_after(front)->0;
        assert forall|i: int| 0 <= i < buses.len() && (#[trigger] buses[i]) is Some implies buses[i]->0.rewards
            <= top.rewards by {
            if i < front.len() {
                assert(front[i] == buses[i]);
            }
        }
        if top.rewards > 0 {
            if buses.last() is Some && buses.last()->0.rewards > before.rewards {
                let i = buses.len() - 1;
                assert(buses[i] is Some);
                assert forall|j: int| 0 <= j < i && (#[trigger] buses[j]) is Some implies buses[j]->0.rewards
                    < top.rewards by {
                    assert(front[j] == buses[j]);
                }
            } else {
                let i = choose|i: int|
                    {
                        &&& 0 <= i < front.len()
                        &&& (#[trigger] front[i]) is Some
                        &&& front[i]->0.rewards == before.rewards
                        &&& front[i]->0.id == before.index
                        &&& forall|j: int|
                            0 <= j < i && (#[trigger] front[j]) is Some ==> front[j]->0.rewards
                                < before.rewards
                    };
                assert(buses[i] is Some);
                assert forall|j: int| 0 <= j < i && (#[trigger] buses[j]) is Some implies buses[j]->0.rewards
                    < top.rewards by {
                    assert(front[j] == buses[j]);
                }
            }
        }
    }
}

} // verus!
