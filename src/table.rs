//! The route table: a map from network address to route label, filled by
//! `insert` and read by `search`, both keyed by the address AND the mask.
use std::collections::HashMap;
use vstd::prelude::*;

use crate::address::{is_network_address, network_bits, Ipv4Addr};

verus! {

broadcast use vstd::std_specs::hash::group_hash_axioms;

/// Why an insertion was refused.
#[derive(Clone, Copy, Debug, PartialEq, Eq)]
pub enum InsertError {
    /// The table already has a route for the derived network address.
    AlreadyExists,
}

/// Why a lookup found nothing.
#[derive(Clone, Copy, Debug, PartialEq, Eq)]
pub enum LookupError {
    /// No route is stored for the derived network address.
    NotFound,
}

/// The message returned by a successful insertion.
pub open spec fn confirmation() -> Seq<char> {
    "Route has been added to the hashtable"@
}

/// Whether inserting a route for `address` under `mask` into the table `t`
/// succeeds: it does exactly when no route has that network address yet.
pub open spec fn insert_succeeds(t: Map<u32, Seq<char>>, address: Ipv4Addr, mask: Ipv4Addr) -> bool {
    !t.contains_key(network_bits(address, mask))
}

/// The table `t` after inserting `route` for `address` under `mask`: a new
/// entry if the network address is free, else `t` unchanged.
pub open spec fn table_after_insert(
    t: Map<u32, Seq<char>>,
    address: Ipv4Addr,
    mask: Ipv4Addr,
    route: Seq<char>,
) -> Map<u32, Seq<char>> {
    if insert_succeeds(t, address, mask) {
        t.insert(network_bits(address, mask), route)
    } else {
        t
    }
}

/// The route that `t` holds for the network address of `address` under
/// `mask`, if any.
pub open spec fn lookup_result(t: Map<u32, Seq<char>>, address: Ipv4Addr, mask: Ipv4Addr) -> Option<
    Seq<char>,
> {
    let k = network_bits(address, mask);
    if t.contains_key(k) {
        Some(t[k])
    } else {
        None
    }
}

/// Inserting one address and mask twice: the first insertion succeeds, the
/// second is refused whatever its route, and the table keeps the first route
/// and grows by one entry in all.
pub proof fn lemma_insert_twice(
    t: Map<u32, Seq<char>>,
    address: Ipv4Addr,
    mask: Ipv4Addr,
    route1: Seq<char>,
    route2: Seq<char>,
)
    requires
        t.dom().finite(),
        insert_succeeds(t, address, mask),
    ensures
        ({
            let t1 = table_after_insert(t, address, mask, route1);
            let t2 = table_after_insert(t1, address, mask, route2);
            &&& !insert_succeeds(t1, address, mask)
            &&& t2 == t1
            &&& t2.len() == t.len() + 1
            &&& lookup_result(t2, address, mask) == Some(route1)
        }),
{
}

/// Two address and mask pairs with the same network address collide: once
/// the first is in, the second is refused and changes nothing.
pub proof fn lemma_collision(
    t: Map<u32, Seq<char>>,
    address1: Ipv4Addr,
    mask1: Ipv4Addr,
    route1: Seq<char>,
    address2: Ipv4Addr,
    mask2: Ipv4Addr,
    route2: Seq<char>,
)
    requires
        network_bits(address1, mask1) == network_bits(address2, mask2),
    ensures
        ({
            let t1 = table_after_insert(t, address1, mask1, route1);
            &&& !insert_succeeds(t1, address2, mask2)
            &&& table_after_insert(t1, address2, mask2, route2) == t1
        }),
{
}

/// A lookup finds the route just inserted exactly when it derives the same
/// network address as the insertion did; any other network address reads
/// what the table held before.
pub proof fn lemma_lookup_after_insert(
    t: Map<u32, Seq<char>>,
    address: Ipv4Addr,
    mask: Ipv4Addr,
    route: Seq<char>,
    query: Ipv4Addr,
    query_mask: Ipv4Addr,
)
    requires
        insert_succeeds(t, address, mask),
    ensures
        network_bits(query, query_mask) == network_bits(address, mask) ==> lookup_result(
            table_after_insert(t, address, mask, route),
            query,
            query_mask,
        ) == Some(route),
        network_bits(query, query_mask) != network_bits(address, mask) ==> lookup_result(
            table_after_insert(t, address, mask, route),
            query,
            query_mask,
        ) == lookup_result(t, query, query_mask),
{
}

/// A lookup in the empty table finds nothing, whatever the address and mask.
pub proof fn lemma_lookup_empty(address: Ipv4Addr, mask: Ipv4Addr)
    ensures
        lookup_result(Map::<u32, Seq<char>>::empty(), address, mask) is None,
{
}

/// An exact-match route table. Each entry is keyed by a network address
/// (held as its 32-bit value) and carries a route label; keys are unique.
pub struct HashRoutingTable {
    hrt: HashMap<u32, String>,
}

impl View for HashRoutingTable {
    type V = Map<u32, Seq<char>>;

    /// Network address (as a 32-bit value) to route label.
    closed spec fn view(&self) -> Map<u32, Seq<char>> {
        self.hrt@.map_values(|s: String| s@)
    }
}

impl HashRoutingTable {
    /// An empty table.
    pub fn new() -> (r: HashRoutingTable)
        ensures
            r@ == Map::<u32, Seq<char>>::empty(),
    {
        let r = HashRoutingTable { hrt: HashMap::new() };
        proof {
            assert(r@ =~= Map::<u32, Seq<char>>::empty());
        }
        r
    }

    /// The network address of `ipaddr_oct` under `mask_oct`: the AND of the
    /// two, octet by octet. Any mask is accepted.
    pub fn network_address(ipaddr_oct: &[u8; 4], mask_oct: &[u8; 4]) -> (r: Ipv4Addr)
        ensures
            is_network_address(r, *ipaddr_oct, *mask_oct),
    {
        let matching_ip: [u8; 4] = [
            ipaddr_oct[0] & mask_oct[0],
            ipaddr_oct[1] & mask_oct[1],
            ipaddr_oct[2] & mask_oct[2],
            ipaddr_oct[3] & mask_oct[3],
        ];
        Ipv4Addr::new(matching_ip[0], matching_ip[1], matching_ip[2], matching_ip[3])
    }

    /// The number of entries in the table.
    pub fn len(&self) -> (r: usize)
        ensures
            r == self@.len(),
    {
        proof {
            assert(self@.dom() =~= self.hrt@.dom());
        }
        self.hrt.len()
    }

    /// Adds `route` under the network address of `ip` and `mask`, unless that
    /// network address already has a route: then the table is left as it was
    /// and `AlreadyExists` is returned.
    pub fn insert(&mut self, ip: Ipv4Addr, mask: Ipv4Addr, route: String) -> (r: Result<
        String,
        InsertError,
    >)
        ensures
            final(self)@ == table_after_insert(old(self)@, ip, mask, route@),
            r is Ok <==> insert_succeeds(old(self)@, ip, mask),
            r matches Ok(msg) ==> msg@ == confirmation(),
    {
        let ipaddr_oct = ip.octets();
        let mask_oct = mask.octets();
        let net_addr = Self::network_address(&ipaddr_oct, &mask_oct);
        let key = net_addr.to_bits();
        if self.hrt.contains_key(&key) {
            Err(InsertError::AlreadyExists)
        } else {
            let ghost route_view = route@;
            self.hrt.insert(key, route);
            proof {
                assert(self@ =~= old(self)@.insert(key, route_view));
            }
            Ok("Route has been added to the hashtable".to_owned())
        }
    }

    /// The route stored under the network address of `ip` and `mask`, as a
    /// copy; `NotFound` if there is none. Only the mask that the route was
    /// inserted with finds it again, unless another mask gives the same
    /// network address.
    pub fn search(&self, ip: Ipv4Addr, mask: Ipv4Addr) -> (r: Result<String, LookupError>)
        ensures
            match r {
                Ok(route) => lookup_result(self@, ip, mask) == Some(route@),
                Err(_) => lookup_result(self@, ip, mask) is None,
            },
    {
        let ipaddr_oct = ip.octets();
        let mask_oct = mask.octets();
        let net_addr = Self::network_address(&ipaddr_oct, &mask_oct);
        let key = net_addr.to_bits();
        match self.hrt.get(&key) {
            Some(route) => Ok(route.clone()),
            None => Err(LookupError::NotFound),
        }
    }
}

} // verus!
