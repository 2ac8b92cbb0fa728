//! The ordered sets of contracts that the treasury may call.

use vstd::prelude::*;
use crate::address::Address;
use crate::errors::BackstopManagerErrors;

verus! {

/// The most addresses an owner can put on one list of approved contracts.
pub const MAX_VALID_LIST_LEN: u32 = 4;

/// `list` with `address` added at the end, unless it is on the list already.
pub open spec fn spec_append_if_absent(list: Seq<Seq<char>>, address: Seq<char>) -> Seq<Seq<char>> {
    if list.contains(address) {
        list
    } else {
        list.push(address)
    }
}

/// The ordered set that `addresses` denotes: each address once, at the place
/// of its first occurrence.
pub open spec fn spec_ordered_set(addresses: Seq<Seq<char>>) -> Seq<Seq<char>>
    decreases addresses.len(),
{
    if addresses.len() == 0 {
        Seq::empty()
    } else {
        spec_append_if_absent(spec_ordered_set(addresses.drop_last()), addresses.last())
    }
}

/// The list that replaces a list when the owner supplies `new_set`, or the
/// refusal of a set that is too long.
pub open spec fn spec_replace(
    new_set: Seq<Seq<char>>,
) -> Result<Seq<Seq<char>>, BackstopManagerErrors> {
    if new_set.len() > MAX_VALID_LIST_LEN {
        Err(BackstopManagerErrors::ContractListOverMax)
    } else {
        Ok(spec_ordered_set(new_set))
    }
}

/// Appending keeps a list free of repeats, keeps what was on it in place,
/// and puts the address on it.
pub proof fn lemma_append_if_absent(list: Seq<Seq<char>>, address: Seq<char>)
    requires
        list.no_duplicates(),
    ensures
        spec_append_if_absent(list, address).no_duplicates(),
        spec_append_if_absent(list, address).contains(address),
        list.is_prefix_of(spec_append_if_absent(list, address)),
        forall|other: Seq<char>|
            spec_append_if_absent(list, address).contains(other) <==> (list.contains(other)
                || other == address),
        spec_append_if_absent(spec_append_if_absent(list, address), address)
            == spec_append_if_absent(list, address),
{
    let appended = spec_append_if_absent(list, address);
    if !list.contains(address) {
        assert(appended[list.len() as int] == address);
        assert forall|other: Seq<char>| appended.contains(other) implies (list.contains(other)
            || other == address) by {
            let i = choose|i: int| 0 <= i < appended.len() && appended[i] == other;
            if i < list.len() {
                assert(list[i] == other);
            }
        }
        assert forall|other: Seq<char>| list.contains(other) implies appended.contains(other) by {
            let i = choose|i: int| 0 <= i < list.len() && list[i] == other;
            assert(appended[i] == other);
        }
    }
}

/// An ordered set holds no address twice, holds exactly the addresses it was
/// built from, and is no longer than what it was built from.
pub proof fn lemma_ordered_set(addresses: Seq<Seq<char>>)
    ensures
        spec_ordered_set(addresses).no_duplicates(),
        spec_ordered_set(addresses).len() <= addresses.len(),
        forall|address: Seq<char>|
            spec_ordered_set(addresses).contains(address) <==> addresses.contains(address),
    decreases addresses.len(),
{
    if addresses.len() > 0 {
        let front = addresses.drop_last();
        lemma_ordered_set(front);
        lemma_append_if_absent(spec_ordered_set(front), addresses.last());
        assert forall|address: Seq<char>|
            spec_ordered_set(addresses).contains(address) <==> addresses.contains(address) by {
            if addresses.contains(address) {
                let i = choose|i: int| 0 <= i < addresses.len() && addresses[i] == address;
                if i < front.len() {
                    assert(front[i] == address);
                }
            }
            if front.contains(address) {
                let i = choose|i: int| 0 <= i < front.len() && front[i] == address;
                assert(addresses[i] == address);
            }
            assert(addresses[addresses.len() - 1] == addresses.last());
        }
    }
}

/// A list without repeats is its own ordered set: order and contents stay.
pub proof fn lemma_ordered_set_of_distinct(addresses: Seq<Seq<char>>)
    requires
        addresses.no_duplicates(),
    ensures
        spec_ordered_set(addresses) == addresses,
    decreases addresses.len(),
{
    if addresses.len() > 0 {
        let front = addresses.drop_last();
        lemma_ordered_set_of_distinct(front);
        if front.contains(addresses.last()) {
            let i = choose|i: int| 0 <= i < front.len() && front[i] == addresses.last();
            assert(addresses[i] == addresses[addresses.len() - 1]);
        }
        assert(front.push(addresses.last()) =~= addresses);
    } else {
        assert(addresses =~= Seq::empty());
    }
}

/// An ordered set of approved contract addresses.
///
/// The addresses stay in the order in which they were first put on the list,
/// and none is on it twice.
#[derive(Debug)]
pub struct Allowlist {
    entries: Vec<Address>,
}

impl View for Allowlist {
    type V = Seq<Seq<char>>;

    closed spec fn view(&self) -> Seq<Seq<char>> {
        self.entries.deep_view()
    }
}

/// Whether `address` is among `entries`.
fn holds(entries: &Vec<Address>, address: &Address) -> (found: bool)
    ensures
        found == entries.deep_view().contains(address@),
{
    let mut i: usize = 0;
    while i < entries.len()
        invariant
            i <= entries.len(),
            forall|j: int| 0 <= j < i ==> entries.deep_view()[j] != address@,
        decreases entries.len() - i,
    {
        if entries[i] == *address {
            assert(entries.deep_view()[i as int] == address@);
            return true;
        }
        i += 1;
    }
    false
}

/// The ordered set that `addresses` denotes.
fn ordered_set(addresses: &Vec<Address>) -> (entries: Vec<Address>)
    ensures
        entries.deep_view() == spec_ordered_set(addresses.deep_view()),
{
    let mut entries: Vec<Address> = Vec::new();
    let mut i: usize = 0;
    while i < addresses.len()
        invariant
            i <= addresses.len(),
            entries.deep_view() == spec_ordered_set(addresses.deep_view().take(i as int)),
        decreases addresses.len() - i,
    {
        assert(addresses.deep_view().take(i + 1).drop_last() =~= addresses.deep_view().take(
            i as int,
        ));
        if !holds(&entries, &addresses[i]) {
            entries.push(addresses[i].clone());
        }
        i += 1;
    }
    assert(addresses.deep_view().take(i as int) =~= addresses.deep_view());
    entries
}

impl Allowlist {
    #[verifier::type_invariant]
    spec fn holds_no_address_twice(self) -> bool {
        self.entries.deep_view().no_duplicates()
    }

    /// A list with nothing on it.
    pub fn new() -> (list: Allowlist)
        ensures
            list@ == Seq::<Seq<char>>::empty(),
            list@.no_duplicates(),
    {
        Allowlist { entries: Vec::new() }
    }

    /// The ordered set that `addresses` denotes, however long it is.
    pub fn from_addresses(addresses: &Vec<Address>) -> (list: Allowlist)
        ensures
            list@ == spec_ordered_set(addresses.deep_view()),
            list@.no_duplicates(),
    {
        let entries = ordered_set(addresses);
        proof {
            lemma_ordered_set(addresses.deep_view());
        }
        Allowlist { entries }
    }

    /// How many addresses are on the list.
    pub fn len(&self) -> (count: usize)
        ensures
            count == self@.len(),
            self@.no_duplicates(),
    {
        proof {
            use_type_invariant(self);
        }
        self.entries.len()
    }

    /// Whether `address` is an approved contract.
    pub fn validate(&self, address: &Address) -> (approved: bool)
        ensures
            approved == self@.contains(address@),
    {
        holds(&self.entries, address)
    }

    /// Overwrites the list with the ordered set that `new_set` denotes.
    ///
    /// A `new_set` of more than `MAX_VALID_LIST_LEN` addresses is refused
    /// with `ContractListOverMax`, and the list stays as it was. Nothing of
    /// the old list is merged into the new one.
    pub fn replace(
        &mut self,
        new_set: &Vec<Address>,
    ) -> (outcome: Result<(), BackstopManagerErrors>)
        ensures
            match spec_replace(new_set.deep_view()) {
                Ok(list) => outcome == Ok::<(), BackstopManagerErrors>(()) && final(self)@ == list,
                Err(e) => outcome == Err::<(), BackstopManagerErrors>(e) && final(self)@ == old(
                    self,
                )@,
            },
            final(self)@.no_duplicates(),
    {
        proof {
            use_type_invariant(&*self);
        }
        if new_set.len() > MAX_VALID_LIST_LEN as usize {
            return Err(BackstopManagerErrors::ContractListOverMax);
        }
        let entries = ordered_set(new_set);
        proof {
            lemma_ordered_set(new_set.deep_view());
        }
        self.entries = entries;
        Ok(())
    }

    /// Puts `address` at the end of the list unless it is on the list
    /// already. The length of the list is not bounded on this path.
    pub fn append_if_absent(&mut self, address: &Address)
        ensures
            final(self)@ == spec_append_if_absent(old(self)@, address@),
            final(self)@.no_duplicates(),
    {
        proof {
            use_type_invariant(&*self);
            lemma_append_if_absent(self@, address@);
        }
        if !holds(&self.entries, address) {
            let mut entries = self.to_vec();
            entries.push(address.clone());
            assert(entries.deep_view() =~= self@.push(address@));
            self.entries = entries;
        }
    }

    /// The addresses on the list, in order.
    pub fn to_vec(&self) -> (addresses: Vec<Address>)
        ensures
            addresses.deep_view() == self@,
            self@.no_duplicates(),
    {
        proof {
            use_type_invariant(self);
        }
        let mut addresses: Vec<Address> = Vec::new();
        let mut i: usize = 0;
        while i < self.entries.len()
            invariant
                i <= self.entries.len(),
                addresses.deep_view() =~= self.entries.deep_view().take(i as int),
            decreases self.entries.len() - i,
        {
            let ghost before = addresses.deep_view();
            addresses.push(self.entries[i].clone());
            assert(addresses.deep_view() =~= before.push(self.entries[i as int]@));
            i += 1;
        }
        assert(self.entries.deep_view().take(i as int) =~= self.entries.deep_view());
        addresses
    }
}

impl Clone for Allowlist {
    fn clone(&self) -> (copy: Allowlist)
        ensures
            copy@ == self@,
    {
        proof {
            use_type_invariant(self);
        }
        Allowlist { entries: self.to_vec() }
    }
}

} // verus!
