//! Bond keys.
//!
//! When a peripheral has been paired, the radio stack hands over the keys
//! of the bond and asks for them again when the peripheral reconnects. The
//! bonder keeps up to four bonds; when a fifth comes, the oldest leaves.
//! The keys themselves are opaque here.

use vstd::prelude::*;
use vstd::std_specs::cmp::PartialEqSpecImpl;

use crate::ble::DeviceAddress;
use crate::bounded::{bond_items, bonds_as_slice, bonds_new, bonds_push, bonds_remove, bonds_set};
use crate::config::MAX_PAIRED_DEVICES;

verus! {

/// Identifies the long-term key of a bond.
#[derive(Clone, Copy, Debug, Eq)]
pub struct MasterId {
    pub ediv: u16,
    pub rand: [u8; 8],
}

impl PartialEqSpecImpl for MasterId {
    open spec fn obeys_eq_spec() -> bool {
        true
    }

    open spec fn eq_spec(&self, other: &MasterId) -> bool {
        *self == *other
    }
}

impl PartialEq for MasterId {
    fn eq(&self, other: &MasterId) -> (same: bool) {
        if self.ediv != other.ediv {
            return false;
        }
        let mut i: usize = 0;
        while i < 8
            invariant
                i <= 8,
                forall|j: int| 0 <= j < i ==> self.rand@[j] == other.rand@[j],
            decreases 8 - i,
        {
            if self.rand[i] != other.rand[i] {
                return false;
            }
            i += 1;
        }
        assert(self.rand =~= other.rand);
        true
    }
}

/// The long-term key of a bond.
#[derive(Clone, Copy, Debug)]
pub struct EncryptionInfo {
    pub ltk: [u8; 16],
    pub flags: u8,
}

/// The identity of a bonded peer: its identity resolving key and its
/// identity address.
#[derive(Clone, Copy, Debug)]
pub struct IdentityKey {
    pub irk: [u8; 16],
    pub addr: DeviceAddress,
}

/// One bond.
#[derive(Clone, Copy, Debug)]
pub struct PeerBond {
    pub master_id: MasterId,
    pub key: EncryptionInfo,
    pub peer_id: IdentityKey,
}

/// Whether `j` is the first place in the list whose bond has the given
/// master id.
pub open spec fn is_first_bond_at(bonds: Seq<PeerBond>, master_id: MasterId, j: int) -> bool {
    &&& 0 <= j < bonds.len()
    &&& bonds[j].master_id == master_id
    &&& forall|k: int| 0 <= k < j ==> (#[trigger] bonds[k]).master_id != master_id
}

/// The first place in the list whose bond has the given master id.
pub open spec fn bond_position(bonds: Seq<PeerBond>, master_id: MasterId) -> Option<int> {
    if exists|j: int| is_first_bond_at(bonds, master_id, j) {
        Some(choose|j: int| is_first_bond_at(bonds, master_id, j))
    } else {
        None
    }
}

/// The list after a bond was made: a bond of the same master id is
/// replaced where it stands; otherwise the new bond goes to the end, and
/// if the list was full its oldest bond leaves first.
pub open spec fn bonded(bonds: Seq<PeerBond>, bond: PeerBond) -> Seq<PeerBond> {
    match bond_position(bonds, bond.master_id) {
        Some(j) => bonds.update(j, bond),
        None => if bonds.len() >= 4 {
            bonds.drop_first().push(bond)
        } else {
            bonds.push(bond)
        },
    }
}

/// The first place at which `matches` says yes, among the places that the
/// list has.
pub open spec fn first_yes(matches: Seq<bool>, len: int) -> Option<int>
    decreases len,
{
    if len <= 0 {
        None
    } else {
        match first_yes(matches, len - 1) {
            Some(j) => Some(j),
            None => if len - 1 < matches.len() && matches[len - 1] {
                Some(len - 1)
            } else {
                None
            },
        }
    }
}

/// Keeps the keys of the bonded peers.
pub struct Bonder {
    peers: heapless::Vec<PeerBond, 4>,
}

impl View for Bonder {
    type V = Seq<PeerBond>;

    closed spec fn view(&self) -> Seq<PeerBond> {
        bond_items(self.peers)
    }
}

impl Bonder {
    /// A bonder without bonds.
    pub fn new() -> (bonder: Self)
        ensures
            bonder@ == Seq::<PeerBond>::empty(),
    {
        Self { peers: bonds_new() }
    }

    /// Whether bonds can be kept: always.
    pub fn can_bond(&self) -> (yes: bool)
        ensures
            yes,
    {
        true
    }

    /// The bonds, oldest first.
    pub fn peers(&self) -> (peers: &[PeerBond])
        ensures
            peers@ == self@,
            peers@.len() <= 4,
    {
        bonds_as_slice(&self.peers)
    }

    /// The first place in the list whose bond has the given master id.
    fn index_of(&self, master_id: &MasterId) -> (place: Option<usize>)
        ensures
            match place {
                Some(j) => bond_position(self@, *master_id) == Some(j as int) && j < self@.len(),
                None => bond_position(self@, *master_id) is None,
            },
    {
        let items = bonds_as_slice(&self.peers);
        let mut j: usize = 0;
        while j < items.len()
            invariant
                j <= items@.len(),
                items@ == self@,
                forall|k: int| 0 <= k < j ==> (#[trigger] self@[k]).master_id != *master_id,
            decreases items@.len() - j,
        {
            if items[j].master_id == *master_id {
                proof {
                    lemma_bond_found(self@, *master_id, j as int);
                }
                return Some(j);
            }
            j += 1;
        }
        None
    }

    /// Keeps the keys of a bond that was just made.
    ///
    /// A bond with the same master id is replaced where it stands.
    /// Otherwise the bond is appended; a full list first gives up its
    /// oldest bond.
    pub fn on_bonded(&mut self, master_id: MasterId, key: EncryptionInfo, peer_id: IdentityKey)
        ensures
            final(self)@ == bonded(old(self)@, PeerBond { master_id, key, peer_id }),
    {
        let bond = PeerBond { master_id, key, peer_id };
        match self.index_of(&master_id) {
            Some(j) => {
                bonds_set(&mut self.peers, j, bond);
            },
            None => {
                if bonds_as_slice(&self.peers).len() >= MAX_PAIRED_DEVICES {
                    let _ = bonds_remove(&mut self.peers, 0);
                    assert(self@ =~= old(self)@.drop_first());
                }
                let _ = bonds_push(&mut self.peers, bond);
            },
        }
    }

    /// The long-term key of the first bond with the given master id.
    pub fn get_key(&self, master_id: MasterId) -> (key: Option<EncryptionInfo>)
        ensures
            key == match bond_position(self@, master_id) {
                Some(j) => Some(self@[j].key),
                None => None,
            },
    {
        match self.index_of(&master_id) {
            Some(j) => Some(bonds_as_slice(&self.peers)[j].key),
            None => None,
        }
    }

    /// The master id and key of the first bond whose peer identity matches
    /// the peer of a connection. `matches` says for each bond, in the order
    /// of [`Bonder::peers`], whether its identity matches.
    pub fn get_peripheral_key(&self, matches: &[bool]) -> (found: Option<(MasterId, EncryptionInfo)>)
        ensures
            found == match first_yes(matches@, self@.len() as int) {
                Some(j) => Some((self@[j].master_id, self@[j].key)),
                None => None,
            },
    {
        let items = bonds_as_slice(&self.peers);
        let mut j: usize = 0;
        while j < items.len()
            invariant
                j <= items@.len(),
                items@ == self@,
                first_yes(matches@, j as int) is None,
            decreases items@.len() - j,
        {
            if j < matches.len() && matches[j] {
                proof {
                    lemma_first_yes_stays(matches@, j as int, items@.len() as int);
                }
                return Some((items[j].master_id, items[j].key));
            }
            j += 1;
        }
        None
    }
}

/// The first place of a master id is where [`bond_position`] says.
pub proof fn lemma_bond_found(bonds: Seq<PeerBond>, master_id: MasterId, j: int)
    requires
        is_first_bond_at(bonds, master_id, j),
    ensures
        bond_position(bonds, master_id) == Some(j),
{
    let c = choose|c: int| is_first_bond_at(bonds, master_id, c);
    if c < j {
        assert(bonds[c].master_id != master_id);
    } else if j < c {
        assert(bonds[j].master_id != master_id);
    }
}

/// If `j` is the first place at which `matches` says yes, it is so among
/// any number of places beyond `j`.
pub proof fn lemma_first_yes_stays(matches: Seq<bool>, j: int, len: int)
    requires
        0 <= j < len,
        j < matches.len(),
        matches[j],
        first_yes(matches, j) is None,
    ensures
        first_yes(matches, len) == Some(j),
    decreases len - j,
{
    if len > j + 1 {
        lemma_first_yes_stays(matches, j, len - 1);
    }
}

/// Making a bond never lets the list grow beyond four bonds, and the new
/// bond is always in the list afterwards.
pub proof fn lemma_bonded_is_kept(bonds: Seq<PeerBond>, bond: PeerBond)
    requires
        bonds.len() <= 4,
    ensures
        bonded(bonds, bond).len() <= 4,
        bonded(bonds, bond).contains(bond),
{
    let after = bonded(bonds, bond);
    match bond_position(bonds, bond.master_id) {
        Some(j) => {
            assert(is_first_bond_at(bonds, bond.master_id, j));
            assert(after[j] == bond);
        },
        None => {
            assert(after[after.len() - 1] == bond);
        },
    }
}

} // verus!
