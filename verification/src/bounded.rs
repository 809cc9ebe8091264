//! Fixed-capacity names and lists.
//!
//! Device names and the device lists are `heapless` containers. This file
//! holds everything that the crate takes on trust about them: a spec name
//! for what each container holds, and one thin function per operation
//! whose contract restates what the `heapless` source does. Nothing in
//! this file is proved; everything outside it is proved from these
//! contracts.

use vstd::prelude::*;

use crate::ble::bonder::PeerBond;
use crate::ble::DiscoveredDevice;
use crate::storage::PairedDevice;

verus! {

/// `heapless::String`: a string of at most `N` bytes. Nothing is known of
/// a value but what the functions below say of it.
#[verifier::external_type_specification]
#[verifier::external_body]
pub struct ExBoundedString<const N: usize>(heapless::String<N>);

/// `heapless::Vec`: a list of at most `N` items. Nothing is known of a
/// value but what the functions below say of it.
#[verifier::external_type_specification]
#[verifier::external_body]
#[verifier::reject_recursive_types(T)]
pub struct ExBoundedVec<T, const N: usize>(heapless::Vec<T, N>);

/// The UTF-8 bytes that a device name holds.
pub uninterp spec fn name_bytes(name: heapless::String<32>) -> Seq<u8>;

/// `heapless::String::new`: a new name holds no bytes.
#[verifier::external_body]
pub(crate) fn name_new() -> (name: heapless::String<32>)
    ensures
        name_bytes(name) == Seq::<u8>::empty(),
{
    heapless::String::new()
}

/// `heapless::String::push`: appends the UTF-8 encoding of `c` if the name
/// has room for all of its bytes, and otherwise leaves the name as it was.
/// The result says whether the character was appended.
#[verifier::external_body]
pub(crate) fn name_push(name: &mut heapless::String<32>, c: char) -> (pushed: bool)
    ensures
        pushed == (name_bytes(*old(name)).len() + vstd::utf8::encode_scalar(c as u32).len() <= 32),
        pushed ==> name_bytes(*final(name)) == name_bytes(*old(name)) + vstd::utf8::encode_scalar(
            c as u32,
        ),
        !pushed ==> name_bytes(*final(name)) == name_bytes(*old(name)),
{
    name.push(c).is_ok()
}

/// `heapless::String::push_str`: appends the bytes of `text` if the name
/// has room for all of them, and otherwise leaves the name as it was. The
/// result says whether the text was appended.
#[verifier::external_body]
pub(crate) fn name_push_str(name: &mut heapless::String<32>, text: &str) -> (pushed: bool)
    ensures
        pushed == (name_bytes(*old(name)).len() + vstd::utf8::encode_utf8(text@).len() <= 32),
        pushed ==> name_bytes(*final(name)) == name_bytes(*old(name)) + vstd::utf8::encode_utf8(
            text@,
        ),
        !pushed ==> name_bytes(*final(name)) == name_bytes(*old(name)),
{
    name.push_str(text).is_ok()
}

/// `heapless::String::as_str`: the name as a string slice. Its bytes are
/// the bytes that the name holds, at most 32 of them.
#[verifier::external_body]
pub(crate) fn name_as_str(name: &heapless::String<32>) -> (text: &str)
    ensures
        vstd::utf8::encode_utf8(text@) == name_bytes(*name),
        vstd::utf8::encode_utf8(text@).len() <= 32,
{
    name.as_str()
}

/// `Clone` for `heapless::String`: the copy holds the same bytes.
#[verifier::external_body]
pub(crate) fn name_clone(name: &heapless::String<32>) -> (copy: heapless::String<32>)
    ensures
        name_bytes(copy) == name_bytes(*name),
{
    name.clone()
}

/// The names that a list of names holds, in order, each as its bytes.
pub uninterp spec fn listed_names(list: heapless::Vec<heapless::String<32>, 2>) -> Seq<Seq<u8>>;

/// `heapless::Vec::new`: a new list holds nothing.
#[verifier::external_body]
pub(crate) fn names_new() -> (list: heapless::Vec<heapless::String<32>, 2>)
    ensures
        listed_names(list) == Seq::<Seq<u8>>::empty(),
{
    heapless::Vec::new()
}

/// `heapless::Vec::as_slice`: the items of the list in order, at most 2.
#[verifier::external_body]
pub(crate) fn names_as_slice(
    list: &heapless::Vec<heapless::String<32>, 2>,
) -> (items: &[heapless::String<32>])
    ensures
        items@.len() == listed_names(*list).len(),
        items@.len() <= 2,
        forall|i: int|
            0 <= i < items@.len() ==> name_bytes(#[trigger] items@[i]) == listed_names(*list)[i],
{
    list.as_slice()
}

/// `heapless::Vec::push`: appends `item` if the list holds fewer than 2
/// items, and otherwise leaves the list as it was. The result says whether
/// the item was appended.
#[verifier::external_body]
pub(crate) fn names_push(
    list: &mut heapless::Vec<heapless::String<32>, 2>,
    item: heapless::String<32>,
) -> (pushed: bool)
    ensures
        pushed == (listed_names(*old(list)).len() < 2),
        pushed ==> listed_names(*final(list)) == listed_names(*old(list)).push(name_bytes(item)),
        !pushed ==> listed_names(*final(list)) == listed_names(*old(list)),
{
    list.push(item).is_ok()
}

/// The devices that a scan's list holds, in the order they were found.
pub uninterp spec fn found_items(list: heapless::Vec<DiscoveredDevice, 8>) -> Seq<
    DiscoveredDevice,
>;

/// `heapless::Vec::new`: a new list holds nothing.
#[verifier::external_body]
pub(crate) fn found_new() -> (list: heapless::Vec<DiscoveredDevice, 8>)
    ensures
        found_items(list) == Seq::<DiscoveredDevice>::empty(),
{
    heapless::Vec::new()
}

/// `heapless::Vec::as_slice`: the items of the list in order, at most 8.
#[verifier::external_body]
pub(crate) fn found_as_slice(
    list: &heapless::Vec<DiscoveredDevice, 8>,
) -> (items: &[DiscoveredDevice])
    ensures
        items@ == found_items(*list),
        items@.len() <= 8,
{
    list.as_slice()
}

/// `heapless::Vec::push`: appends `item` if the list holds fewer than 8
/// items, and otherwise leaves the list as it was. The result says whether
/// the item was appended.
#[verifier::external_body]
pub(crate) fn found_push(
    list: &mut heapless::Vec<DiscoveredDevice, 8>,
    item: DiscoveredDevice,
) -> (pushed: bool)
    ensures
        pushed == (found_items(*old(list)).len() < 8),
        pushed ==> found_items(*final(list)) == found_items(*old(list)).push(item),
        !pushed ==> found_items(*final(list)) == found_items(*old(list)),
{
    list.push(item).is_ok()
}

/// The paired devices that a store's list holds, oldest first.
pub uninterp spec fn paired_items(list: heapless::Vec<PairedDevice, 4>) -> Seq<PairedDevice>;

/// `heapless::Vec::new`: a new list holds nothing.
#[verifier::external_body]
pub(crate) fn paired_new() -> (list: heapless::Vec<PairedDevice, 4>)
    ensures
        paired_items(list) == Seq::<PairedDevice>::empty(),
{
    heapless::Vec::new()
}

/// `heapless::Vec::as_slice`: the items of the list in order, at most 4.
#[verifier::external_body]
pub(crate) fn paired_as_slice(list: &heapless::Vec<PairedDevice, 4>) -> (items: &[PairedDevice])
    ensures
        items@ == paired_items(*list),
        items@.len() <= 4,
{
    list.as_slice()
}

/// `heapless::Vec::push`: appends `item` if the list holds fewer than 4
/// items, and otherwise leaves the list as it was. The result says whether
/// the item was appended.
#[verifier::external_body]
pub(crate) fn paired_push(
    list: &mut heapless::Vec<PairedDevice, 4>,
    item: PairedDevice,
) -> (pushed: bool)
    ensures
        pushed == (paired_items(*old(list)).len() < 4),
        pushed ==> paired_items(*final(list)) == paired_items(*old(list)).push(item),
        !pushed ==> paired_items(*final(list)) == paired_items(*old(list)),
{
    list.push(item).is_ok()
}

/// `heapless::Vec::remove`: takes the item at `index` out of the list and
/// moves the later items one place down.
#[verifier::external_body]
pub(crate) fn paired_remove(
    list: &mut heapless::Vec<PairedDevice, 4>,
    index: usize,
) -> (item: PairedDevice)
    requires
        index < paired_items(*old(list)).len(),
    ensures
        item == paired_items(*old(list))[index as int],
        paired_items(*final(list)) == paired_items(*old(list)).remove(index as int),
{
    list.remove(index)
}

/// Assignment through `heapless::Vec`'s `DerefMut`: puts `item` in the
/// place of the item at `index`.
#[verifier::external_body]
pub(crate) fn paired_set(
    list: &mut heapless::Vec<PairedDevice, 4>,
    index: usize,
    item: PairedDevice,
)
    requires
        index < paired_items(*old(list)).len(),
    ensures
        paired_items(*final(list)) == paired_items(*old(list)).update(index as int, item),
{
    list[index] = item;
}

/// The bonds that a bond list holds, oldest first.
pub uninterp spec fn bond_items(list: heapless::Vec<PeerBond, 4>) -> Seq<PeerBond>;

/// `heapless::Vec::new`: a new list holds nothing.
#[verifier::external_body]
pub(crate) fn bonds_new() -> (list: heapless::Vec<PeerBond, 4>)
    ensures
        bond_items(list) == Seq::<PeerBond>::empty(),
{
    heapless::Vec::new()
}

/// `heapless::Vec::as_slice`: the items of the list in order, at most 4.
#[verifier::external_body]
pub(crate) fn bonds_as_slice(list: &heapless::Vec<PeerBond, 4>) -> (items: &[PeerBond])
    ensures
        items@ == bond_items(*list),
        items@.len() <= 4,
{
    list.as_slice()
}

/// `heapless::Vec::push`: appends `item` if the list holds fewer than 4
/// items, and otherwise leaves the list as it was. The result says whether
/// the item was appended.
#[verifier::external_body]
pub(crate) fn bonds_push(list: &mut heapless::Vec<PeerBond, 4>, item: PeerBond) -> (pushed: bool)
    ensures
        pushed == (bond_items(*old(list)).len() < 4),
        pushed ==> bond_items(*final(list)) == bond_items(*old(list)).push(item),
        !pushed ==> bond_items(*final(list)) == bond_items(*old(list)),
{
    list.push(item).is_ok()
}

/// `heapless::Vec::remove`: takes the item at `index` out of the list and
/// moves the later items one place down.
#[verifier::external_body]
pub(crate) fn bonds_remove(list: &mut heapless::Vec<PeerBond, 4>, index: usize) -> (item: PeerBond)
    requires
        index < bond_items(*old(list)).len(),
    ensures
        item == bond_items(*old(list))[index as int],
        bond_items(*final(list)) == bond_items(*old(list)).remove(index as int),
{
    list.remove(index)
}

/// Assignment through `heapless::Vec`'s `DerefMut`: puts `item` in the
/// place of the item at `index`.
#[verifier::external_body]
pub(crate) fn bonds_set(list: &mut heapless::Vec<PeerBond, 4>, index: usize, item: PeerBond)
    requires
        index < bond_items(*old(list)).len(),
    ensures
        bond_items(*final(list)) == bond_items(*old(list)).update(index as int, item),
{
    list[index] = item;
}

} // verus!
