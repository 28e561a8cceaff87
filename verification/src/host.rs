//! The boundary to `soroban_sdk`: the host types that the wallet carries, and
//! what is taken for granted of the SDK functions it calls on them.
//!
//! An `Address`, a `String` and a `BytesN` stand for what they hold. Which
//! object of which host backs a value makes no difference: two of them are
//! equal exactly when the SDK's `==` says so, and a clone equals its source.
//!
//! A `soroban_sdk::Vec` or `soroban_sdk::Map` keeps its items in one host and
//! does not check that they have the type its parameter announces. The items
//! are named by [`addresses`] and [`flags`]; that they have the announced type
//! is named by [`holds_addresses`] and [`holds_flags`]. An address may live in
//! another host than the collection, so it is handed over as its strkey.
use soroban_sdk::{Address, BytesN};
use vstd::prelude::*;
use vstd::string::StringSliceAdditionalSpecFns;

verus! {

/// `Address`: an account or a contract.
#[verifier::external_type_specification]
#[verifier::external_body]
pub struct ExAddress(Address);

/// `String`: bytes in a host, at most `u32::MAX` of them.
#[verifier::external_type_specification]
#[verifier::external_body]
pub struct ExString(soroban_sdk::String);

/// `BytesN`: exactly `N` bytes in a host.
#[verifier::external_type_specification]
#[verifier::external_body]
pub struct ExBytesN<const N: usize>(BytesN<N>);

/// `Vec`: items in a host, first to last.
#[verifier::external_type_specification]
#[verifier::external_body]
#[verifier::reject_recursive_types(T)]
pub struct ExVec<T>(soroban_sdk::Vec<T>);

/// `Map`: entries in a host, one for each key.
#[verifier::external_type_specification]
#[verifier::external_body]
#[verifier::reject_recursive_types(K)]
#[verifier::reject_recursive_types(V)]
pub struct ExMap<K, V>(soroban_sdk::Map<K, V>);

/// The bytes that a host string holds.
pub uninterp spec fn bytes_of(text: soroban_sdk::String) -> Seq<u8>;

/// The items of a host vector of addresses, first to last.
pub uninterp spec fn addresses(list: soroban_sdk::Vec<Address>) -> Seq<Address>;

/// Whether every item of a host vector of addresses is an address.
pub uninterp spec fn holds_addresses(list: soroban_sdk::Vec<Address>) -> bool;

/// The entries of a host map from addresses to flags.
pub uninterp spec fn flags(index: soroban_sdk::Map<Address, bool>) -> Map<Address, bool>;

/// Whether every key of a host map from addresses to flags is an address and
/// every value a flag.
pub uninterp spec fn holds_flags(index: soroban_sdk::Map<Address, bool>) -> bool;

/// `Address::clone`: a second handle on the same account or contract.
pub assume_specification[ <Address as Clone>::clone ](
    source: &Address,
) -> (copy: Address)
    ensures
        copy == *source,
;

/// `String::clone`: a second handle on the same bytes.
pub assume_specification[ <soroban_sdk::String as Clone>::clone ](
    source: &soroban_sdk::String,
) -> (copy: soroban_sdk::String)
    ensures
        copy == *source,
;

/// `BytesN::clone`: a second handle on the same bytes.
pub assume_specification<const N: usize>[ <BytesN<N> as Clone>::clone ](
    source: &BytesN<N>,
) -> (copy: BytesN<N>)
    ensures
        copy == *source,
;

/// `Vec::clone`: a second handle on the same vector. Host vectors are never
/// changed in place, so neither handle sees what the other is used for.
pub assume_specification<T>[ <soroban_sdk::Vec<T> as Clone>::clone ](
    source: &soroban_sdk::Vec<T>,
) -> (copy: soroban_sdk::Vec<T>)
    ensures
        copy == *source,
;

/// `Address::eq`: whether both name the same account or contract.
#[verifier::external_body]
pub(crate) fn same_address(a: &Address, b: &Address) -> (same: bool)
    ensures
        same == (*a == *b),
{
    a == b
}

/// `String::eq`: whether both hold the same bytes. Strings that hold the same
/// bytes are the same string.
#[verifier::external_body]
pub(crate) fn same_text(a: &soroban_sdk::String, b: &soroban_sdk::String) -> (same: bool)
    ensures
        same == (*a == *b),
        same == (bytes_of(*a) == bytes_of(*b)),
{
    a == b
}

/// `BytesN::eq`: whether both hold the same bytes.
#[verifier::external_body]
pub(crate) fn same_hash(a: &BytesN<32>, b: &BytesN<32>) -> (same: bool)
    ensures
        same == (*a == *b),
{
    a == b
}

/// `String::from_str`: the host string with the bytes of `text`, in the host
/// that `near` lives in. A host string is at most `u32::MAX` bytes long.
#[verifier::external_body]
pub(crate) fn host_text(near: &soroban_sdk::String, text: &str) -> (made: soroban_sdk::String)
    requires
        text.spec_bytes().len() <= u32::MAX,
    ensures
        bytes_of(made) == text.spec_bytes(),
{
    soroban_sdk::String::from_str(near.env(), text)
}

/// `Vec::new`: an empty vector, in the host that `near` lives in.
#[verifier::external_body]
pub(crate) fn empty_list(near: &Address) -> (list: soroban_sdk::Vec<Address>)
    ensures
        holds_addresses(list),
        addresses(list) == Seq::<Address>::empty(),
{
    soroban_sdk::Vec::new(near.env())
}

/// `Vec::len`: how many items the vector has.
#[verifier::external_body]
pub(crate) fn list_len(list: &soroban_sdk::Vec<Address>) -> (len: u32)
    ensures
        len == addresses(*list).len(),
{
    list.len()
}

/// `Vec::get_unchecked`: the item at position `i`. It panics past the end, and
/// on an item that is no address.
#[verifier::external_body]
pub(crate) fn list_at(
    list: &soroban_sdk::Vec<Address>,
    i: u32,
) -> (item: Address)
    requires
        holds_addresses(*list),
        i < addresses(*list).len(),
    ensures
        item == addresses(*list)[i as int],
{
    list.get_unchecked(i)
}

/// `Vec::push_back`: one more item, at the end. A host vector counts its items
/// in a `u32`.
#[verifier::external_body]
pub(crate) fn list_push(
    list: &mut soroban_sdk::Vec<Address>,
    item: &Address,
)
    requires
        holds_addresses(*old(list)),
        addresses(*old(list)).len() < u32::MAX,
    ensures
        holds_addresses(*final(list)),
        addresses(*final(list)) == addresses(*old(list)).push(*item),
{
    let strkey = item.to_string().to_bytes().to_buffer::<56>();
    let bytes = soroban_sdk::Bytes::from_slice(list.env(), strkey.as_slice());
    list.push_back(Address::from_string_bytes(&bytes));
}

/// `Map::new`: an empty map, in the host that `near` lives in.
#[verifier::external_body]
pub(crate) fn empty_index(
    near: &Address,
) -> (index: soroban_sdk::Map<Address, bool>)
    ensures
        holds_flags(index),
        flags(index).dom() == Set::<Address>::empty(),
{
    soroban_sdk::Map::new(near.env())
}

/// `Map::get`: the flag of `key`, if there is one. It panics on a value that is
/// no flag.
#[verifier::external_body]
pub(crate) fn index_get(
    index: &soroban_sdk::Map<Address, bool>,
    key: &Address,
) -> (flag: Option<bool>)
    requires
        holds_flags(*index),
    ensures
        flag == (if flags(*index).contains_key(*key) {
            Some(flags(*index)[*key])
        } else {
            None
        }),
{
    let strkey = key.to_string().to_bytes().to_buffer::<56>();
    let bytes = soroban_sdk::Bytes::from_slice(index.env(), strkey.as_slice());
    index.get(Address::from_string_bytes(&bytes))
}

/// `Map::set`: `key` now has `flag`, whether or not it had one before.
#[verifier::external_body]
pub(crate) fn index_set(
    index: &mut soroban_sdk::Map<Address, bool>,
    key: &Address,
    flag: bool,
)
    requires
        holds_flags(*old(index)),
    ensures
        holds_flags(*final(index)),
        flags(*final(index)) == flags(*old(index)).insert(*key, flag),
{
    let strkey = key.to_string().to_bytes().to_buffer::<56>();
    let bytes = soroban_sdk::Bytes::from_slice(index.env(), strkey.as_slice());
    index.set(Address::from_string_bytes(&bytes), flag);
}

/// `Map::remove`: `key` has no flag any more.
#[verifier::external_body]
pub(crate) fn index_remove(
    index: &mut soroban_sdk::Map<Address, bool>,
    key: &Address,
)
    requires
        holds_flags(*old(index)),
    ensures
        holds_flags(*final(index)),
        flags(*final(index)) == flags(*old(index)).remove(*key),
{
    let strkey = key.to_string().to_bytes().to_buffer::<56>();
    let bytes = soroban_sdk::Bytes::from_slice(index.env(), strkey.as_slice());
    index.remove(Address::from_string_bytes(&bytes));
}

} // verus!
