//! The addresses that the host has on its interfaces: the list as the host's
//! address API reports it, and the lookup of one address in it.

use vstd::prelude::*;
use crate::addr::Ipv4;

verus! {

/// An IPv6 address, in network order.
#[derive(Clone, Copy, Debug, PartialEq, Eq)]
pub struct Ipv6(pub [u8; 16]);

/// An address of either family.
#[derive(Clone, Copy, Debug, PartialEq, Eq)]
pub enum IpAddr {
    V4(Ipv4),
    V6(Ipv6),
}

/// One address record of the host.
#[derive(Debug)]
pub struct AddressRecord {
    /// Index of the interface that the address is on.
    pub index: u32,
    /// Length of the prefix, in bits.
    pub prefix_len: u8,
    /// The address itself, if the record states one: four octets for IPv4,
    /// sixteen for IPv6.
    pub address: Option<Vec<u8>>,
}

/// A record as a plain value.
pub struct RecordView {
    pub index: u32,
    pub prefix_len: u8,
    pub address: Option<Seq<u8>>,
}

impl View for AddressRecord {
    type V = RecordView;

    open spec fn view(&self) -> RecordView {
        RecordView {
            index: self.index,
            prefix_len: self.prefix_len,
            address: match self.address {
                Some(octets) => Some(octets@),
                None => None,
            },
        }
    }
}

impl IpAddr {
    /// The octets of the address in wire order.
    pub open spec fn octets(self) -> Seq<u8> {
        match self {
            IpAddr::V4(ip) => ip.octets(),
            IpAddr::V6(ip) => ip.0@,
        }
    }

    /// The octets of the address in a buffer of their own.
    pub fn to_octets(&self) -> (out: Vec<u8>)
        ensures
            out@ == self.octets(),
    {
        let mut out: Vec<u8> = Vec::new();
        match self {
            IpAddr::V4(ip) => {
                ip.write(&mut out);
                assert(out@ =~= ip.octets());
            },
            IpAddr::V6(ip) => {
                let mut i: usize = 0;
                while i < 16
                    invariant
                        i <= 16,
                        out@ == ip.0@.take(i as int),
                    decreases 16 - i,
                {
                    out.push(ip.0[i]);
                    i += 1;
                    assert(out@ =~= ip.0@.take(i as int));
                }
                assert(out@ =~= ip.0@);
            },
        }
        out
    }
}

/// Whether a record is `ip` on the interface `if_index`.
pub open spec fn holds(record: RecordView, if_index: u32, ip: IpAddr) -> bool {
    record.index == if_index && record.address == Some(ip.octets())
}

/// Whether some record of the list is `ip` on the interface `if_index`.
pub open spec fn present(records: Seq<RecordView>, if_index: u32, ip: IpAddr) -> bool {
    exists|i: int| 0 <= i < records.len() && holds(#[trigger] records[i], if_index, ip)
}

/// Whether `at` is the place of the first record that is `ip` on the
/// interface `if_index`.
pub open spec fn first_at(records: Seq<RecordView>, if_index: u32, ip: IpAddr, at: int) -> bool {
    &&& 0 <= at < records.len()
    &&& holds(records[at], if_index, ip)
    &&& forall|i: int| 0 <= i < at ==> !holds(#[trigger] records[i], if_index, ip)
}

/// The list as plain values.
pub open spec fn views(records: Seq<AddressRecord>) -> Seq<RecordView> {
    records.map_values(|r: AddressRecord| r@)
}

fn same_octets(left: &Vec<u8>, right: &Vec<u8>) -> (same: bool)
    ensures
        same == (left@ == right@),
{
    if left.len() != right.len() {
        return false;
    }
    let mut i: usize = 0;
    while i < left.len()
        invariant
            i <= left@.len(),
            left@.len() == right@.len(),
            left@.take(i as int) == right@.take(i as int),
        decreases left@.len() - i,
    {
        if left[i] != right[i] {
            return false;
        }
        i += 1;
        assert(left@.take(i as int) =~= left@.take(i - 1).push(left@[i - 1]));
        assert(right@.take(i as int) =~= right@.take(i - 1).push(right@[i - 1]));
    }
    assert(left@ =~= left@.take(i as int));
    assert(right@ =~= right@.take(i as int));
    true
}

/// Whether `record` is `ip` on the interface `if_index`.
pub fn record_holds(record: &AddressRecord, if_index: u32, ip: &IpAddr) -> (yes: bool)
    ensures
        yes == holds(record@, if_index, *ip),
{
    if record.index != if_index {
        return false;
    }
    match &record.address {
        None => false,
        Some(octets) => {
            let wanted = ip.to_octets();
            same_octets(octets, &wanted)
        },
    }
}

/// Looks `ip` up on the interface `if_index`: walks the list, passes over the
/// records of other interfaces and those that state no address, and gives the
/// place of the first record whose octets are those of `ip`.
pub fn find_addr_for_ip(records: &Vec<AddressRecord>, if_index: u32, ip: &IpAddr) -> (found:
    Option<usize>)
    ensures
        found is Some <==> present(views(records@), if_index, *ip),
        found matches Some(at) ==> first_at(views(records@), if_index, *ip, at as int),
{
    let ghost list = views(records@);
    let mut i: usize = 0;
    while i < records.len()
        invariant
            i <= records@.len(),
            list == views(records@),
            forall|j: int| 0 <= j < i ==> !holds(#[trigger] list[j], if_index, *ip),
        decreases records@.len() - i,
    {
        if record_holds(&records[i], if_index, ip) {
            assert(list[i as int] == records@[i as int]@);
            return Some(i);
        }
        assert(list[i as int] == records@[i as int]@);
        i += 1;
    }
    None
}

/// The record that adding `ip` with `prefix_len` to the interface `if_index`
/// makes.
pub open spec fn added(if_index: u32, ip: IpAddr, prefix_len: u8) -> RecordView {
    RecordView { index: if_index, prefix_len, address: Some(ip.octets()) }
}

/// A list of address records in memory, with the operations of an address
/// API: what a host's list does, without a host.
#[derive(Debug)]
pub struct AddressTable {
    pub records: Vec<AddressRecord>,
}

impl View for AddressTable {
    type V = Seq<RecordView>;

    open spec fn view(&self) -> Seq<RecordView> {
        views(self.records@)
    }
}

impl AddressTable {
    /// A host without addresses.
    pub fn new() -> (table: AddressTable)
        ensures
            table@ == Seq::<RecordView>::empty(),
    {
        let table = AddressTable { records: Vec::new() };
        assert(table@ =~= Seq::<RecordView>::empty());
        table
    }

    /// All records, in the order in which they were added.
    pub fn list(&self) -> (records: &Vec<AddressRecord>)
        ensures
            views(records@) == self@,
    {
        &self.records
    }

    /// The place of the first record that is `ip` on the interface
    /// `if_index`.
    pub fn find(&self, if_index: u32, ip: &IpAddr) -> (found: Option<usize>)
        ensures
            found is Some <==> present(self@, if_index, *ip),
            found matches Some(at) ==> first_at(self@, if_index, *ip, at as int),
    {
        find_addr_for_ip(&self.records, if_index, ip)
    }

    /// Adds `ip` with `prefix_len` to the interface `if_index`, as the last
    /// record.
    pub fn add(&mut self, if_index: u32, ip: &IpAddr, prefix_len: u8)
        ensures
            final(self)@ == old(self)@.push(added(if_index, *ip, prefix_len)),
    {
        let record = AddressRecord { index: if_index, prefix_len, address: Some(ip.to_octets()) };
        assert(record@ == added(if_index, *ip, prefix_len));
        self.records.push(record);
        assert(self@ =~= old(self)@.push(added(if_index, *ip, prefix_len)));
    }

    /// Removes the record at `at`, if there is one, and says whether there
    /// was.
    pub fn delete(&mut self, at: usize) -> (removed: bool)
        ensures
            removed == (at < old(self)@.len()),
            removed ==> final(self)@ == old(self)@.remove(at as int),
            !removed ==> final(self)@ == old(self)@,
    {
        if at < self.records.len() {
            self.records.remove(at);
            assert(self@ =~= old(self)@.remove(at as int));
            true
        } else {
            false
        }
    }
}

/// An address that was added is found.
pub proof fn law_added_address_is_present(
    list: Seq<RecordView>,
    if_index: u32,
    ip: IpAddr,
    prefix_len: u8,
)
    ensures
        present(list.push(added(if_index, ip, prefix_len)), if_index, ip),
{
    let after = list.push(added(if_index, ip, prefix_len));
    assert(holds(after[list.len() as int], if_index, ip));
}

/// Where the address was not there before it was added, the lookup finds the
/// record that was added, and removing that record leaves the list as it was:
/// the address is gone, and a second lookup finds nothing to remove.
pub proof fn law_removal_undoes_add(
    list: Seq<RecordView>,
    if_index: u32,
    ip: IpAddr,
    prefix_len: u8,
)
    requires
        !present(list, if_index, ip),
    ensures
        first_at(list.push(added(if_index, ip, prefix_len)), if_index, ip, list.len() as int),
        list.push(added(if_index, ip, prefix_len)).remove(list.len() as int) == list,
        !present(
            list.push(added(if_index, ip, prefix_len)).remove(list.len() as int),
            if_index,
            ip,
        ),
{
    let after = list.push(added(if_index, ip, prefix_len));
    assert forall|i: int| 0 <= i < list.len() implies !holds(#[trigger] after[i], if_index, ip) by {
        assert(after[i] == list[i]);
    }
    assert(after.remove(list.len() as int) =~= list);
}

/// The first record that holds an address is the only place that a lookup
/// can give.
pub proof fn law_first_match_is_unique(
    list: Seq<RecordView>,
    if_index: u32,
    ip: IpAddr,
    a: int,
    b: int,
)
    requires
        first_at(list, if_index, ip, a),
        first_at(list, if_index, ip, b),
    ensures
        a == b,
{
}

} // verus!
