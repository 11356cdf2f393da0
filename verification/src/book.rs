//! Address books: a mapping from bucket identifier to the ordered sequence of
//! addresses an agent has published or is holding.  Order of appearance is
//! preserved to keep reconciliation deterministic.

use vstd::prelude::*;
use crate::ids::{bytes_eq, bytes_list_contains, clone_bytes};
use crate::kv::KvList;
use crate::state::{book_list, spec_bookkeep, spec_unbookkeep};

verus! {

broadcast use crate::ids::lemma_bytes_deep_view;

/// A book maps each bucket to the addresses recorded for it, in order.
pub type AddressBook = KvList<Vec<Vec<u8>>>;

/// The index of the first occurrence of `x` in `list`, if any.
fn find_first_address(list: &Vec<Vec<u8>>, x: &Vec<u8>) -> (r: Option<usize>)
    ensures
        match r {
            Some(i) => i < list@.len() && list@[i as int]@ == x@ && (forall|j: int|
                0 <= j < i ==> (#[trigger] list@[j])@ != x@),
            None => forall|j: int| 0 <= j < list@.len() ==> (#[trigger] list@[j])@ != x@,
        },
{
    let mut i: usize = 0;
    while i < list.len()
        invariant
            i <= list@.len(),
            forall|j: int| 0 <= j < i ==> (#[trigger] list@[j])@ != x@,
        decreases list@.len() - i,
    {
        if bytes_eq(&list[i], x) {
            return Some(i);
        }
        i = i + 1;
    }
    None
}

/// Whether `book[bucket]` already records `address`.
pub fn book_contains_address(book: &AddressBook, bucket: &Vec<u8>, address: &Vec<u8>) -> (r: bool)
    ensures
        r == book_list(book@, bucket@).contains(address@),
{
    match book.get(bucket) {
        Some(list) => bytes_list_contains(list, address),
        None => false,
    }
}

/// Append `address` to `book[bucket]`, creating the sequence if absent.
/// Nothing is deduplicated.
pub fn bookkeep_address(book: &mut AddressBook, bucket: &Vec<u8>, address: &Vec<u8>)
    ensures
        final(book)@ == spec_bookkeep(old(book)@, bucket@, address@),
{
    let mut list: Vec<Vec<u8>> = match book.remove(bucket) {
        Some(l) => l,
        None => Vec::new(),
    };
    let ghost pre_dv = list.deep_view();
    proof {
        assert(pre_dv =~= book_list(old(book)@, bucket@));
    }
    list.push(clone_bytes(address));
    proof {
        assert(list.deep_view() =~= pre_dv.push(address@));
    }
    book.set(clone_bytes(bucket), list);
    proof {
        assert(book@ =~= spec_bookkeep(old(book)@, bucket@, address@));
    }
}

/// Remove the first occurrence of `address` from `book[bucket]`; report
/// whether it was present.
pub fn unbookkeep_address(book: &mut AddressBook, bucket: &Vec<u8>, address: &Vec<u8>) -> (r: bool)
    ensures
        final(book)@ == spec_unbookkeep(old(book)@, bucket@, address@),
        r == book_list(old(book)@, bucket@).contains(address@),
{
    let ghost spec_list = book_list(old(book)@, bucket@);
    match book.remove(bucket) {
        None => {
            proof {
                spec_list.index_of_first_ensures(address@);
                assert(book@ =~= old(book)@);
            }
            false
        }
        Some(mut list) => {
            proof {
                assert(list.deep_view() =~= spec_list);
                spec_list.index_of_first_ensures(address@);
            }
            match find_first_address(&list, address) {
                Some(i) => {
                    proof {
                        assert(spec_list[i as int] == list@[i as int].deep_view());
                        assert(spec_list[i as int] == address@);
                        assert(spec_list.contains(address@));
                        let si = spec_list.index_of_first(address@).unwrap();
                        assert(spec_list[si] == address@);
                        if si < i as int {
                            assert(list@[si]@ != address@);
                            assert(false);
                        }
                        if si > i as int {
                            assert(spec_list[i as int] != address@);
                            assert(false);
                        }
                    }
                    let ghost pre_dv = list.deep_view();
                    list.remove(i);
                    proof {
                        assert(list.deep_view() =~= pre_dv.remove(i as int));
                    }
                    book.set(clone_bytes(bucket), list);
                    proof {
                        assert(book@ =~= spec_unbookkeep(old(book)@, bucket@, address@));
                    }
                    true
                }
                None => {
                    proof {
                        assert(!spec_list.contains(address@));
                    }
                    book.set(clone_bytes(bucket), list);
                    proof {
                        assert(book@ =~= spec_unbookkeep(old(book)@, bucket@, address@));
                    }
                    false
                }
            }
        }
    }
}

} // verus!
