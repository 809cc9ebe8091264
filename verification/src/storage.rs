//! Persistent storage for paired devices.
//!
//! The store keeps the devices that were paired, oldest first, so that the
//! most recent one can be reconnected on power-up. It is saved as one blob:
//!
//! ```text
//! count(1) || count x { addr(6) || addrType(1) || rssi(1) || nameLen(1) || name(nameLen) }
//! ```
//!
//! Reading and writing the flash is the caller's part; the store turns
//! itself into the blob and back.

use vstd::prelude::*;
use vstd::utf8::{decode_utf8, encode_scalar, encode_utf8, valid_utf8};

use crate::ble::{AddressType, DeviceAddress, DeviceRecord};
use crate::config::MAX_PAIRED_DEVICES;
use crate::bounded::{
    name_as_str, name_bytes, name_clone, name_new, name_push, paired_as_slice, paired_items,
    paired_new, paired_push, paired_remove, paired_set,
};
use crate::wire::{byte_of, signed_of, to_byte, to_signed};

verus! {

/// A paired device record stored in flash.
#[derive(Debug)]
pub struct PairedDevice {
    /// BLE address (6 bytes + 1 address type byte).
    pub address: DeviceAddress,
    /// Device name (for UI display).
    pub name: heapless::String<32>,
    /// Last RSSI seen (for sorting by signal strength).
    pub last_rssi: i8,
}

impl View for PairedDevice {
    type V = DeviceRecord;

    open spec fn view(&self) -> DeviceRecord {
        DeviceRecord { address: self.address, name: name_bytes(self.name), rssi: self.last_rssi }
    }
}

impl Clone for PairedDevice {
    fn clone(&self) -> (copy: Self)
        ensures
            copy@ == self@,
    {
        PairedDevice {
            address: self.address,
            name: name_clone(&self.name),
            last_rssi: self.last_rssi,
        }
    }
}

/// The name that results when the characters are appended one by one to
/// an empty name and each character that no longer fits is left out.
pub open spec fn packed(chars: Seq<char>) -> Seq<u8>
    decreases chars.len(),
{
    if chars.len() == 0 {
        Seq::empty()
    } else {
        let before = packed(chars.drop_last());
        let encoded = encode_scalar(chars.last() as u32);
        if before.len() + encoded.len() <= 32 {
            before + encoded
        } else {
            before
        }
    }
}

/// Whether the bytes can be a device name: UTF-8 text of at most 32 bytes.
pub open spec fn is_name(bytes: Seq<u8>) -> bool {
    valid_utf8(bytes) && bytes.len() <= 32
}

/// The one-byte code under which a kind of address is stored.
pub open spec fn kind_code(kind: AddressType) -> u8 {
    match kind {
        AddressType::Public => 0,
        AddressType::RandomStatic => 1,
        AddressType::RandomPrivateResolvable => 2,
        AddressType::RandomPrivateNonResolvable => 3,
        AddressType::Anonymous => 4,
    }
}

/// The kind of address that a stored code stands for. A code that stands
/// for none reads as a random static address.
pub open spec fn kind_of_code(code: u8) -> AddressType {
    if code == 0 {
        AddressType::Public
    } else if code == 2 {
        AddressType::RandomPrivateResolvable
    } else if code == 3 {
        AddressType::RandomPrivateNonResolvable
    } else if code == 4 {
        AddressType::Anonymous
    } else {
        AddressType::RandomStatic
    }
}

/// The bytes of one stored record: address, kind, signal strength, name
/// length and name.
pub open spec fn record_bytes(device: DeviceRecord) -> Seq<u8> {
    device.address.bytes@ + seq![
        kind_code(device.address.kind),
        byte_of(device.rssi),
        device.name.len() as u8,
    ] + device.name
}

/// The name that is read back from stored name bytes: their text, as far
/// as it fits into a name, or the empty name if they are no UTF-8 text.
/// Stored bytes that can be a name are read back as they are.
pub open spec fn name_of_stored(raw: Seq<u8>) -> Seq<u8> {
    if valid_utf8(raw) {
        packed(decode_utf8(raw))
    } else {
        Seq::empty()
    }
}

/// The record that `data` starts with, if `data` holds all of it: nine
/// bytes of header and as many name bytes as the header announces.
pub open spec fn record_parsed(data: Seq<u8>) -> Option<DeviceRecord> {
    if data.len() < 9 || data.len() < 9 + data[8] {
        None
    } else {
        Some(
            DeviceRecord {
                address: DeviceAddress {
                    kind: kind_of_code(data[6]),
                    bytes: [data[0], data[1], data[2], data[3], data[4], data[5]],
                },
                name: name_of_stored(data.subrange(9, 9 + data[8])),
                rssi: signed_of(data[7]),
            },
        )
    }
}

/// `core::str::from_utf8`: the text that the bytes spell, if and only if
/// they are valid UTF-8.
#[verifier::external_body]
fn text_of_utf8(bytes: &[u8]) -> (text: Option<&str>)
    ensures
        text is Some <==> valid_utf8(bytes@),
        text is Some ==> encode_utf8(text.unwrap()@) == bytes@,
{
    core::str::from_utf8(bytes).ok()
}

/// Builds a name from the characters of `text`, leaving out each
/// character that no longer fits.
fn name_from_text(text: &str) -> (name: heapless::String<32>)
    ensures
        name_bytes(name) == packed(text@),
{
    let mut name = name_new();
    for c in iter: text.chars()
        invariant
            iter.seq() == text@,
            name_bytes(name) == packed(text@.take(iter.index())),
    {
        proof {
            let i = iter.index();
            assert(text@.take(i + 1).drop_last() =~= text@.take(i));
        }
        let _ = name_push(&mut name, c);
    }
    proof {
        assert(text@.take(text@.len() as int) =~= text@);
    }
    name
}

/// The mathematical value of a device that may be absent.
pub open spec fn record_of(device: Option<PairedDevice>) -> Option<DeviceRecord> {
    match device {
        Some(d) => Some(d@),
        None => None,
    }
}

/// The kind of address that a stored code stands for.
fn kind_from_code(code: u8) -> (kind: AddressType)
    ensures
        kind == kind_of_code(code),
{
    match code {
        0 => AddressType::Public,
        1 => AddressType::RandomStatic,
        2 => AddressType::RandomPrivateResolvable,
        3 => AddressType::RandomPrivateNonResolvable,
        4 => AddressType::Anonymous,
        _ => AddressType::RandomStatic,
    }
}

/// The one-byte code under which a kind of address is stored.
fn code_from_kind(kind: AddressType) -> (code: u8)
    ensures
        code == kind_code(kind),
{
    match kind {
        AddressType::Public => 0,
        AddressType::RandomStatic => 1,
        AddressType::RandomPrivateResolvable => 2,
        AddressType::RandomPrivateNonResolvable => 3,
        AddressType::Anonymous => 4,
    }
}

impl PairedDevice {
    /// Create a new paired device record. A name of at most 32 bytes is
    /// taken as it is; of a longer one each character that no longer fits
    /// into the 32 bytes is left out.
    pub fn new(address: DeviceAddress, name: &str, rssi: i8) -> (device: Self)
        ensures
            device@ == (DeviceRecord { address, name: packed(name@), rssi }),
            encode_utf8(name@).len() <= 32 ==> device@.name == encode_utf8(name@),
            is_name(device@.name),
    {
        proof {
            lemma_packed_is_name(name@);
            if encode_utf8(name@).len() <= 32 {
                lemma_fitting_text_is_packed_whole(name@);
            }
        }
        Self { address, name: name_from_text(name), last_rssi: rssi }
    }

    /// Writes the stored form of this device into `buf` from position `at`
    /// on. Returns the number of bytes written, or 0 if the record does not
    /// fit behind `at`, in which case `buf` is left as it was.
    #[verifier::loop_isolation(false)]
    fn write_record(&self, buf: &mut [u8], at: usize) -> (written: usize)
        requires
            at <= old(buf)@.len(),
        ensures
            final(buf)@.len() == old(buf)@.len(),
            record_bytes(self@).len() == 9 + self@.name.len(),
            is_name(self@.name),
            old(buf)@.len() - at < record_bytes(self@).len() ==> written == 0 && final(buf)@ == old(
                buf,
            )@,
            old(buf)@.len() - at >= record_bytes(self@).len() ==> written == record_bytes(
                self@,
            ).len() && final(buf)@ == old(buf)@.take(at as int) + record_bytes(self@) + old(
                buf,
            )@.skip(at + written),
    {
        let text = name_as_str(&self.name);
        proof {
            vstd::utf8::encode_utf8_valid_utf8(text@);
        }
        let name = text.as_bytes();
        let total = 9 + name.len();
        if buf.len() - at < total {
            return 0;
        }
        let mut i: usize = 0;
        while i < 6
            invariant
                i <= 6,
                at + total <= buf@.len(),
                buf@.len() == old(buf)@.len(),
                total >= 9,
                forall|j: int| 0 <= j < at ==> buf@[j] == old(buf)@[j],
                forall|j: int| at + i <= j < buf@.len() ==> buf@[j] == old(buf)@[j],
                forall|j: int| 0 <= j < i ==> buf@[at + j] == self.address.bytes@[j],
            decreases 6 - i,
        {
            buf[at + i] = self.address.bytes[i];
            i += 1;
        }
        buf[at + 6] = code_from_kind(self.address.kind);
        buf[at + 7] = to_byte(self.last_rssi);
        buf[at + 8] = name.len() as u8;
        let mut k: usize = 0;
        while k < name.len()
            invariant
                k <= name@.len(),
                total == 9 + name@.len(),
                at + total <= buf@.len(),
                buf@.len() == old(buf)@.len(),
                forall|j: int| 0 <= j < at ==> buf@[j] == old(buf)@[j],
                forall|j: int| at + 9 + k <= j < buf@.len() ==> buf@[j] == old(buf)@[j],
                forall|j: int| 0 <= j < 6 ==> buf@[at + j] == self.address.bytes@[j],
                buf@[at + 6] == kind_code(self.address.kind),
                buf@[at + 7] == byte_of(self.last_rssi),
                buf@[at + 8] == name@.len() as u8,
                forall|j: int| 0 <= j < k ==> buf@[at + 9 + j] == name@[j],
            decreases name@.len() - k,
        {
            buf[at + 9 + k] = name[k];
            k += 1;
        }
        assert(buf@ =~= old(buf)@.take(at as int) + record_bytes(self@) + old(buf)@.skip(
            at + total,
        ));
        total
    }

    /// Serialize to bytes for flash storage. Returns the number of bytes
    /// written, or 0 if `buf` is too small for the record, in which case
    /// `buf` is left as it was. What is written parses back to this very
    /// device.
    pub fn serialize(&self, buf: &mut [u8]) -> (written: usize)
        ensures
            final(buf)@.len() == old(buf)@.len(),
            record_bytes(self@).len() == 9 + self@.name.len(),
            is_name(self@.name),
            record_parsed(record_bytes(self@)) == Some(self@),
            old(buf)@.len() < record_bytes(self@).len() ==> written == 0 && final(buf)@ == old(
                buf,
            )@,
            old(buf)@.len() >= record_bytes(self@).len() ==> written == record_bytes(
                self@,
            ).len() && final(buf)@ == record_bytes(self@) + old(buf)@.skip(written as int),
    {
        let written = self.write_record(buf, 0);
        proof {
            assert(old(buf)@.take(0) =~= Seq::<u8>::empty());
            assert(Seq::<u8>::empty() + record_bytes(self@) =~= record_bytes(self@));
            lemma_record_roundtrip(self@);
        }
        written
    }

    /// Deserialize from bytes: the record that `data` starts with, if
    /// `data` holds all of it. A name of at most 32 bytes of UTF-8 text is
    /// read back as it was stored.
    pub fn deserialize(data: &[u8]) -> (device: Option<Self>)
        ensures
            record_of(device) == record_parsed(data@),
            device is Some <==> data@.len() >= 9 && data@.len() >= 9 + data@[8],
            device is Some && is_name(data@.subrange(9, 9 + data@[8])) ==> device.unwrap()@.name
                == data@.subrange(9, 9 + data@[8]),
    {
        proof {
            if data@.len() >= 9 && data@.len() >= 9 + data@[8] && is_name(
                data@.subrange(9, 9 + data@[8]),
            ) {
                lemma_stored_name_comes_back(data@.subrange(9, 9 + data@[8]));
            }
        }
        if data.len() < 9 {
            return None;
        }
        let bytes = [data[0], data[1], data[2], data[3], data[4], data[5]];
        let kind = kind_from_code(data[6]);
        let rssi = to_signed(data[7]);
        let name_len = data[8] as usize;
        if data.len() < 9 + name_len {
            return None;
        }
        let raw = &data[9..9 + name_len];
        let name = match text_of_utf8(raw) {
            Some(text) => {
                proof {
                    vstd::utf8::encode_utf8_decode_utf8(text@);
                }
                name_from_text(text)
            },
            None => name_new(),
        };
        Some(Self { address: DeviceAddress::new(kind, bytes), name, last_rssi: rssi })
    }
}

/// Size of the buffer that a saved store is written into.
pub const MAX_RECORD_SIZE: usize = 256;

/// Whether `j` is the first place in the list whose device has the given
/// address.
pub open spec fn is_first_at(records: Seq<DeviceRecord>, address: DeviceAddress, j: int) -> bool {
    &&& 0 <= j < records.len()
    &&& records[j].address == address
    &&& forall|k: int| 0 <= k < j ==> (#[trigger] records[k]).address != address
}

/// The first place in the list whose device has the given address.
pub open spec fn position_of(records: Seq<DeviceRecord>, address: DeviceAddress) -> Option<int> {
    if exists|j: int| is_first_at(records, address, j) {
        Some(choose|j: int| is_first_at(records, address, j))
    } else {
        None
    }
}

/// The first place of an address is where [`position_of`] says.
pub proof fn lemma_position_found(records: Seq<DeviceRecord>, address: DeviceAddress, j: int)
    requires
        is_first_at(records, address, j),
    ensures
        position_of(records, address) == Some(j),
{
    let c = choose|c: int| is_first_at(records, address, c);
    if c < j {
        assert(records[c].address != address);
    } else if j < c {
        assert(records[j].address != address);
    }
}

/// An address that no device in the list has, has no place.
pub proof fn lemma_position_absent(records: Seq<DeviceRecord>, address: DeviceAddress)
    requires
        forall|k: int| 0 <= k < records.len() ==> (#[trigger] records[k]).address != address,
    ensures
        position_of(records, address) is None,
{
}

/// The list after a device was added: a device of the same address is
/// replaced where it stands; otherwise the new device goes to the end, and
/// if the list was full its oldest entry leaves first.
pub open spec fn added(records: Seq<DeviceRecord>, device: DeviceRecord) -> Seq<DeviceRecord> {
    match position_of(records, device.address) {
        Some(j) => records.update(j, device),
        None => if records.len() >= 4 {
            records.drop_first().push(device)
        } else {
            records.push(device)
        },
    }
}

/// The stored bytes of all records, one after the other.
pub open spec fn all_record_bytes(records: Seq<DeviceRecord>) -> Seq<u8>
    decreases records.len(),
{
    if records.len() == 0 {
        Seq::empty()
    } else {
        all_record_bytes(records.drop_last()) + record_bytes(records.last())
    }
}

/// The blob under which a list of devices is saved: the count, then the
/// records.
pub open spec fn blob_of(records: Seq<DeviceRecord>) -> Seq<u8> {
    seq![records.len() as u8] + all_record_bytes(records)
}

/// Whether a whole record starts at `offset`: nine bytes of header and the
/// name bytes that the header announces.
pub open spec fn record_fits(data: Seq<u8>, offset: int) -> bool {
    0 <= offset && offset + 9 <= data.len() && offset + 9 + data[offset + 8] <= data.len()
}

/// Up to `count` records of a blob from `offset` on, ending early where
/// the data runs out.
pub open spec fn records_from(data: Seq<u8>, offset: int, count: int) -> Seq<DeviceRecord>
    decreases count,
{
    if count <= 0 || !record_fits(data, offset) {
        Seq::empty()
    } else {
        let end = offset + 9 + data[offset + 8];
        seq![record_parsed(data.subrange(offset, end)).unwrap()] + records_from(
            data,
            end,
            count - 1,
        )
    }
}

/// The devices that a saved blob holds: as many records as its first byte
/// announces and its length allows, of which the first four are kept.
pub open spec fn blob_records(data: Seq<u8>) -> Seq<DeviceRecord> {
    if data.len() == 0 {
        Seq::empty()
    } else {
        let all = records_from(data, 1, data[0] as int);
        if all.len() <= 4 {
            all
        } else {
            all.take(4)
        }
    }
}

/// What reading the store's record from flash gave.
pub enum FlashRead<'a> {
    /// The record was found; these are its bytes.
    Found(&'a [u8]),
    /// The flash holds no such record.
    Missing,
    /// The flash could not be read.
    Failed,
}

/// In-memory cache of paired devices, synced with flash.
pub struct DeviceStore {
    /// Cached list of paired devices.
    devices: heapless::Vec<PairedDevice, 4>,
    /// Dirty flag - true if cache differs from flash.
    dirty: bool,
}

impl DeviceStore {
    /// The devices in the store, oldest first.
    pub closed spec fn records(&self) -> Seq<DeviceRecord> {
        paired_items(self.devices).map_values(|d: PairedDevice| d@)
    }

    /// Whether the store has changed since it was last loaded or saved.
    pub closed spec fn is_dirty(&self) -> bool {
        self.dirty
    }

    /// Create an empty store.
    pub fn new() -> (store: Self)
        ensures
            store.records() == Seq::<DeviceRecord>::empty(),
            !store.is_dirty(),
    {
        let store = Self { devices: paired_new(), dirty: false };
        assert(store.records() =~= Seq::<DeviceRecord>::empty());
        store
    }

    /// The number of devices in the store.
    pub fn len(&self) -> (count: usize)
        ensures
            count == self.records().len(),
            count <= 4,
    {
        paired_as_slice(&self.devices).len()
    }

    /// The device with the given address that was added first, if any.
    pub fn find(&self, address: &DeviceAddress) -> (found: Option<&PairedDevice>)
        ensures
            match found {
                Some(d) => position_of(self.records(), *address) is Some && d@
                    == self.records()[position_of(self.records(), *address).unwrap()],
                None => position_of(self.records(), *address) is None,
            },
    {
        match self.index_of(address) {
            Some(j) => Some(&paired_as_slice(&self.devices)[j]),
            None => None,
        }
    }

    /// The first place in the list whose device has the given address.
    fn index_of(&self, address: &DeviceAddress) -> (place: Option<usize>)
        ensures
            match place {
                Some(j) => position_of(self.records(), *address) == Some(j as int) && j
                    < self.records().len(),
                None => position_of(self.records(), *address) is None,
            },
    {
        let items = paired_as_slice(&self.devices);
        let mut j: usize = 0;
        while j < items.len()
            invariant
                j <= items@.len(),
                items@ == paired_items(self.devices),
                forall|k: int|
                    0 <= k < j ==> (#[trigger] self.records()[k]).address != *address,
            decreases items@.len() - j,
        {
            if items[j].address == *address {
                proof {
                    lemma_position_found(self.records(), *address, j as int);
                }
                return Some(j);
            }
            j += 1;
        }
        proof {
            lemma_position_absent(self.records(), *address);
        }
        None
    }

    /// Add a newly paired device.
    ///
    /// A device whose address is already stored replaces the stored one in
    /// its place. Otherwise the device is appended; a full store first
    /// gives up its oldest entry, so the new one always gets in.
    pub fn add(&mut self, device: PairedDevice)
        ensures
            final(self).records() == added(old(self).records(), device@),
            final(self).is_dirty(),
    {
        match self.index_of(&device.address) {
            Some(j) => {
                paired_set(&mut self.devices, j, device);
                assert(self.records() =~= old(self).records().update(j as int, device@));
            },
            None => {
                if paired_as_slice(&self.devices).len() >= MAX_PAIRED_DEVICES {
                    let _ = paired_remove(&mut self.devices, 0);
                    assert(self.records() =~= old(self).records().drop_first());
                }
                let ghost before = self.records();
                let _ = paired_push(&mut self.devices, device);
                assert(self.records() =~= before.push(device@));
            },
        }
        self.dirty = true;
    }

    /// Serialize all devices to a byte buffer that has room for a full
    /// store. Returns the length of the blob.
    #[verifier::loop_isolation(false)]
    fn serialize_all(&self, buf: &mut [u8]) -> (len: usize)
        requires
            old(buf)@.len() >= 165,
        ensures
            final(buf)@.len() == old(buf)@.len(),
            len == blob_of(self.records()).len(),
            len <= 165,
            final(buf)@ == blob_of(self.records()) + old(buf)@.skip(len as int),
            blob_records(blob_of(self.records())) == self.records(),
    {
        let items = paired_as_slice(&self.devices);
        buf[0] = items.len() as u8;
        let mut offset: usize = 1;
        let mut i: usize = 0;
        while i < items.len()
            invariant
                i <= items@.len(),
                offset <= 1 + 41 * i,
                buf@.len() == old(buf)@.len(),
                offset == 1 + all_record_bytes(self.records().take(i as int)).len(),
                buf@ == seq![items@.len() as u8] + all_record_bytes(self.records().take(i as int))
                    + old(buf)@.skip(offset as int),
                forall|j: int| 0 <= j < i ==> is_name((#[trigger] self.records()[j]).name),
            decreases items@.len() - i,
        {
            let ghost before = buf@;
            let ghost records = self.records();
            let written = items[i].write_record(buf, offset);
            proof {
                assert(records.take(i + 1).drop_last() =~= records.take(i as int));
                assert(records.take(i + 1).last() == items@[i as int]@);
                assert(buf@ =~= seq![items@.len() as u8] + all_record_bytes(records.take(i + 1))
                    + old(buf)@.skip(offset + written));
            }
            offset += written;
            i += 1;
        }
        proof {
            assert(self.records().take(i as int) =~= self.records());
            lemma_blob_roundtrip(self.records());
        }
        offset
    }

    /// Takes over what a saved blob holds: as many records as its first
    /// byte announces and its length allows, of which the first four are
    /// kept.
    fn deserialize_all(&mut self, data: &[u8])
        requires
            old(self).records().len() == 0,
        ensures
            final(self).records() == blob_records(data@),
            final(self).is_dirty() == old(self).is_dirty(),
    {
        if data.len() == 0 {
            return ;
        }
        let count = data[0] as usize;
        let mut offset: usize = 1;
        let mut n: usize = 0;
        while n < count
            invariant_except_break
                n <= count,
                1 <= offset <= data@.len(),
                n <= 4,
                self.records().len() == n,
                records_from(data@, 1, count as int) == self.records() + records_from(
                    data@,
                    offset as int,
                    count - n,
                ),
            invariant
                self.dirty == old(self).dirty,
                count == data@[0],
            ensures
                n <= 4,
                self.records().len() == n,
                records_from(data@, 1, count as int).len() >= n,
                records_from(data@, 1, count as int).take(n as int) == self.records(),
                n < 4 ==> records_from(data@, 1, count as int) == self.records(),
            decreases count - n,
        {
            proof {
                let all = records_from(data@, 1, count as int);
                let tail = records_from(data@, offset as int, count - n);
                assert((self.records() + tail).take(n as int) =~= self.records());
                if tail.len() == 0 {
                    assert(self.records() + tail =~= self.records());
                }
            }
            if n >= MAX_PAIRED_DEVICES {
                break ;
            }
            if data.len() - offset < 9 {
                break ;
            }
            let name_len = data[offset + 8] as usize;
            let record_len = 9 + name_len;
            if data.len() - offset < record_len {
                break ;
            }
            let ghost before = self.records();
            let ghost rest = records_from(data@, offset + record_len, count - n - 1);
            match PairedDevice::deserialize(&data[offset..offset + record_len]) {
                Some(device) => {
                    let ghost record = device@;
                    let _ = paired_push(&mut self.devices, device);
                    proof {
                        assert(self.records() =~= before.push(record));
                        assert(before + (seq![record] + rest) =~= before.push(record) + rest);
                    }
                },
                None => {
                    proof {
                        let part = data@.subrange(offset as int, offset + record_len);
                        assert(part[8] == data@[offset + 8]);
                        assert(record_parsed(part) is Some);
                    }
                },
            }
            offset += record_len;
            n += 1;
            proof {
                let tail = records_from(data@, offset as int, count - n);
                assert((self.records() + tail).take(n as int) =~= self.records());
                if tail.len() == 0 {
                    assert(self.records() + tail =~= self.records());
                }
            }
        }
        proof {
            let all = records_from(data@, 1, count as int);
            if n >= 4 && all.len() <= 4 {
                assert(all.take(4) =~= all);
            }
        }
    }

    /// Takes over what reading the store's record from flash gave. Bytes
    /// that were found replace the store's devices; a missing record or a
    /// failed read leaves the store empty. The store is clean afterwards.
    pub fn load_from_flash(&mut self, read: FlashRead<'_>)
        ensures
            final(self).records() == match read {
                FlashRead::Found(data) => blob_records(data@),
                _ => Seq::<DeviceRecord>::empty(),
            },
            !final(self).is_dirty(),
    {
        self.devices = paired_new();
        assert(self.records() =~= Seq::<DeviceRecord>::empty());
        match read {
            FlashRead::Found(data) => {
                self.deserialize_all(data);
            },
            _ => {},
        }
        self.dirty = false;
    }

    /// Prepares the store for being written to flash.
    ///
    /// A store that has not changed needs no write: the result is `None`
    /// and `data_buf` is left as it was. Otherwise the blob is written to
    /// the front of `data_buf` and the result is its length; a store that
    /// loads this blob holds the same devices. The store stays dirty until
    /// [`DeviceStore::flash_written`] reports the write done.
    pub fn save_to_flash(&self, data_buf: &mut [u8; 256]) -> (len: Option<usize>)
        ensures
            !self.is_dirty() ==> len is None && final(data_buf)@ == old(data_buf)@,
            self.is_dirty() ==> len is Some && len.unwrap() == blob_of(self.records()).len()
                && len.unwrap() <= 165 && final(data_buf)@ == blob_of(self.records()) + old(
                data_buf,
            )@.skip(len.unwrap() as int),
            self.is_dirty() ==> blob_records(blob_of(self.records())) == self.records(),
    {
        if !self.dirty {
            return None;
        }
        let buf: &mut [u8] = data_buf;
        Some(self.serialize_all(buf))
    }

    /// Records how the write of a saved blob ended: a store whose blob was
    /// written is clean; after a failed write it stays as it was, dirty, so
    /// that the next save tries again.
    pub fn flash_written(&mut self, ok: bool)
        ensures
            final(self).records() == old(self).records(),
            final(self).is_dirty() == (old(self).is_dirty() && !ok),
    {
        if ok {
            self.dirty = false;
        }
    }

    /// Get the most recently added paired device for auto-reconnect.
    pub fn first(&self) -> (latest: Option<&PairedDevice>)
        ensures
            match latest {
                Some(d) => self.records().len() > 0 && d@ == self.records().last(),
                None => self.records().len() == 0,
            },
    {
        paired_as_slice(&self.devices).last()
    }
}

/// The characters that [`packed`] keeps.
pub open spec fn kept(chars: Seq<char>) -> Seq<char>
    decreases chars.len(),
{
    if chars.len() == 0 {
        Seq::empty()
    } else {
        let before = kept(chars.drop_last());
        if encode_utf8(before).len() + encode_scalar(chars.last() as u32).len() <= 32 {
            before.push(chars.last())
        } else {
            before
        }
    }
}

/// The encoding of a text with one more character is the encoding of the
/// text followed by that of the character.
pub proof fn lemma_encode_push(chars: Seq<char>, c: char)
    ensures
        encode_utf8(chars.push(c)) == encode_utf8(chars) + encode_scalar(c as u32),
    decreases chars.len(),
{
    if chars.len() == 0 {
        let one = chars.push(c);
        assert(one.drop_first() =~= Seq::<char>::empty());
        assert(one[0] == c);
        assert(encode_utf8(one.drop_first()) =~= Seq::<u8>::empty());
        assert(encode_utf8(chars) =~= Seq::<u8>::empty());
        assert(encode_utf8(one) =~= encode_scalar(c as u32) + encode_utf8(one.drop_first()));
    } else {
        assert(chars.push(c)[0] == chars[0]);
        assert(chars.push(c).drop_first() =~= chars.drop_first().push(c));
        lemma_encode_push(chars.drop_first(), c);
        assert(encode_utf8(chars.push(c)) =~= encode_utf8(chars) + encode_scalar(c as u32));
    }
}

/// A packed name is the encoding of the characters that were kept; these
/// are no more than there were, and their encoding fits into a name.
pub proof fn lemma_packed_is_kept(chars: Seq<char>)
    ensures
        packed(chars) == encode_utf8(kept(chars)),
        kept(chars).len() <= chars.len(),
        packed(chars).len() <= 32,
    decreases chars.len(),
{
    if chars.len() > 0 {
        lemma_packed_is_kept(chars.drop_last());
        lemma_encode_push(kept(chars.drop_last()), chars.last());
    }
}

/// A text whose encoding fits into a name is packed without loss.
pub proof fn lemma_fitting_text_is_packed_whole(chars: Seq<char>)
    requires
        encode_utf8(chars).len() <= 32,
    ensures
        packed(chars) == encode_utf8(chars),
    decreases chars.len(),
{
    if chars.len() > 0 {
        assert(chars.drop_last().push(chars.last()) =~= chars);
        lemma_encode_push(chars.drop_last(), chars.last());
        lemma_fitting_text_is_packed_whole(chars.drop_last());
    }
}

/// A packed name can be a device name.
pub proof fn lemma_packed_is_name(chars: Seq<char>)
    ensures
        is_name(packed(chars)),
{
    lemma_packed_is_kept(chars);
    vstd::utf8::encode_utf8_valid_utf8(kept(chars));
}

/// Stored bytes that can be a name are read back as they are.
pub proof fn lemma_stored_name_comes_back(name: Seq<u8>)
    requires
        is_name(name),
    ensures
        name_of_stored(name) == name,
{
    vstd::utf8::decode_utf8_encode_utf8(name);
    lemma_fitting_text_is_packed_whole(decode_utf8(name));
}

/// The stored bytes of one record parse back to the record: a device
/// whose name is UTF-8 text of at most 32 bytes comes back from its stored
/// form as the same device.
pub proof fn lemma_record_roundtrip(device: DeviceRecord)
    requires
        is_name(device.name),
    ensures
        record_bytes(device).len() == 9 + device.name.len(),
        record_parsed(record_bytes(device)) == Some(device),
{
    let data = record_bytes(device);
    crate::wire::lemma_signed_byte_roundtrip(device.rssi);
    assert(data.subrange(9, 9 + data[8]) =~= device.name);
    lemma_stored_name_comes_back(device.name);
    let parsed = record_parsed(data).unwrap();
    assert(parsed.address.bytes =~= device.address.bytes);
}

/// The stored bytes of a list start with those of its first record.
pub proof fn lemma_all_record_bytes_front(records: Seq<DeviceRecord>)
    requires
        records.len() > 0,
    ensures
        all_record_bytes(records) == record_bytes(records[0]) + all_record_bytes(
            records.drop_first(),
        ),
    decreases records.len(),
{
    if records.len() == 1 {
        assert(records.drop_last() =~= Seq::<DeviceRecord>::empty());
        assert(records.drop_first() =~= Seq::<DeviceRecord>::empty());
        assert(all_record_bytes(records) =~= record_bytes(records[0]) + all_record_bytes(
            records.drop_first(),
        ));
    } else {
        lemma_all_record_bytes_front(records.drop_last());
        assert(records.drop_last().drop_first() =~= records.drop_first().drop_last());
        assert(records.drop_last()[0] == records[0]);
        assert(records.drop_first().last() == records.last());
        assert(all_record_bytes(records) =~= record_bytes(records[0]) + all_record_bytes(
            records.drop_first(),
        ));
    }
}

/// Records that were written one after the other behind `front` are read
/// back one after the other.
pub proof fn lemma_records_read_back(front: Seq<u8>, records: Seq<DeviceRecord>)
    requires
        forall|i: int| 0 <= i < records.len() ==> is_name((#[trigger] records[i]).name),
    ensures
        records_from(front + all_record_bytes(records), front.len() as int, records.len() as int)
            == records,
    decreases records.len(),
{
    let data = front + all_record_bytes(records);
    let offset = front.len() as int;
    if records.len() == 0 {
        assert(records_from(data, offset, 0) =~= records);
    } else {
        let first = records[0];
        let rest = records.drop_first();
        lemma_all_record_bytes_front(records);
        lemma_record_roundtrip(first);
        let bytes = record_bytes(first);
        assert(data =~= (front + bytes) + all_record_bytes(rest));
        assert(data[offset + 8] == bytes[8]);
        let end = offset + 9 + data[offset + 8];
        assert(end == offset + bytes.len());
        assert(data.subrange(offset, end) =~= bytes);
        assert forall|i: int| 0 <= i < rest.len() implies is_name((#[trigger] rest[i]).name) by {
            assert(rest[i] == records[i + 1]);
        }
        lemma_records_read_back(front + bytes, rest);
        assert(records =~= seq![first] + rest);
    }
}

/// What a store saves is what it loads: the blob of up to four devices
/// holds these very devices again.
pub proof fn lemma_blob_roundtrip(records: Seq<DeviceRecord>)
    requires
        records.len() <= 4,
        forall|i: int| 0 <= i < records.len() ==> is_name((#[trigger] records[i]).name),
    ensures
        blob_records(blob_of(records)) == records,
{
    lemma_records_read_back(seq![records.len() as u8], records);
}

/// What [`position_of`] finds is the first place of the address.
pub proof fn lemma_position_is_first(records: Seq<DeviceRecord>, address: DeviceAddress)
    ensures
        match position_of(records, address) {
            Some(j) => is_first_at(records, address, j),
            None => forall|k: int|
                0 <= k < records.len() ==> (#[trigger] records[k]).address != address,
        },
{
    if position_of(records, address) is None {
        assert forall|k: int| 0 <= k < records.len() implies (#[trigger] records[k]).address
            != address by {
            if records[k].address == address {
                lemma_some_first_exists(records, address, k);
            }
        }
    }
}

/// If some place has the address, some place is the first to have it.
proof fn lemma_some_first_exists(records: Seq<DeviceRecord>, address: DeviceAddress, k: int)
    requires
        0 <= k < records.len(),
        records[k].address == address,
    ensures
        exists|j: int| is_first_at(records, address, j),
    decreases k,
{
    if forall|m: int| 0 <= m < k ==> (#[trigger] records[m]).address != address {
        assert(is_first_at(records, address, k));
    } else {
        let m = choose|m: int| 0 <= m < k && (#[trigger] records[m]).address == address;
        lemma_some_first_exists(records, address, m);
    }
}

/// A store never grows beyond four devices, and a device that was added
/// is in the store afterwards.
pub proof fn lemma_added_is_kept(records: Seq<DeviceRecord>, device: DeviceRecord)
    requires
        records.len() <= 4,
    ensures
        added(records, device).len() <= 4,
        added(records, device).len() >= records.len(),
        added(records, device).contains(device),
{
    lemma_position_is_first(records, device.address);
    let after = added(records, device);
    match position_of(records, device.address) {
        Some(j) => {
            assert(after[j] == device);
        },
        None => {
            assert(after[after.len() - 1] == device);
        },
    }
}

/// After a device is added to a full store the store still holds four
/// devices. The added device is the latest entry of the store exactly if
/// its address was not stored before, or was that of the latest entry, or
/// the latest entry was equal to the device anyway.
pub proof fn lemma_add_to_full_store(records: Seq<DeviceRecord>, device: DeviceRecord)
    requires
        records.len() == 4,
    ensures
        added(records, device).len() == 4,
        position_of(records, device.address) is None ==> added(records, device).last() == device
            && added(records, device).take(3) == records.skip(1),
        added(records, device).last() == device <==> (position_of(records, device.address) is None
            || position_of(records, device.address) == Some(3int) || records[3] == device),
{
    lemma_position_is_first(records, device.address);
    if position_of(records, device.address) is None {
        assert(added(records, device).take(3) =~= records.skip(1));
    }
}

/// Adding a device keeps the addresses in the store distinct.
pub proof fn lemma_added_keeps_distinct(records: Seq<DeviceRecord>, device: DeviceRecord)
    requires
        crate::ble::scanner::distinct_addresses(records),
    ensures
        crate::ble::scanner::distinct_addresses(added(records, device)),
{
    lemma_position_is_first(records, device.address);
    let after = added(records, device);
    assert forall|j: int, k: int| 0 <= j < k < after.len() implies (#[trigger] after[j]).address
        != (#[trigger] after[k]).address by {
        match position_of(records, device.address) {
            Some(p) => {
                assert(records[j].address != records[k].address);
            },
            None => {
                if records.len() >= 4 {
                    if k < after.len() - 1 {
                        assert(after[j] == records[j + 1]);
                        assert(after[k] == records[k + 1]);
                    } else {
                        assert(after[j] == records[j + 1]);
                    }
                } else {
                    if k < after.len() - 1 {
                        assert(after[j] == records[j]);
                        assert(after[k] == records[k]);
                    } else {
                        assert(after[j] == records[j]);
                    }
                }
            },
        }
    }
}

} // verus!
