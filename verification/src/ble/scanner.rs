//! BLE GAP scanner - collects nearby HID peripherals.
//!
//! The radio reports each advertisement that it hears. A scan keeps the
//! senders that announce the HID service, each address once, up to eight,
//! and asks for the scan to end when the list is full or the scan window
//! has passed.

use vstd::prelude::*;

use crate::ble::adv_parser::{
    advertised_name, advertises_hid, contains_hid_service_uuid, extract_device_name,
};
use crate::ble::{BleErrorTag, BleEvent, DeviceAddress, DeviceRecord, DiscoveredDevice};
use crate::bounded::{found_as_slice, found_items, found_new, found_push};
use crate::config::BLE_MAX_DISCOVERED;

verus! {

/// One advertisement as the radio reports it.
pub struct Advertisement {
    /// The advertisement payload.
    pub data: Seq<u8>,
    /// The sender's address.
    pub address: DeviceAddress,
    /// The signal strength at which it was heard.
    pub rssi: i8,
    /// Whether it was heard after the scan window had passed.
    pub late: bool,
}

/// Whether a device of the given address is in the list.
pub open spec fn knows(records: Seq<DeviceRecord>, address: DeviceAddress) -> bool {
    exists|j: int| 0 <= j < records.len() && (#[trigger] records[j]).address == address
}

/// Whether no two devices in the list share an address.
pub open spec fn distinct_addresses(records: Seq<DeviceRecord>) -> bool {
    forall|j: int, k: int|
        0 <= j < k < records.len() ==> (#[trigger] records[j]).address != (
        #[trigger] records[k]).address
}

/// Whether an advertisement adds its sender to the list: it is in time,
/// announces the HID service, comes from an address not yet listed, and
/// the list has room.
pub open spec fn is_new_find(records: Seq<DeviceRecord>, adv: Advertisement) -> bool {
    !adv.late && advertises_hid(adv.data) && !knows(records, adv.address) && records.len() < 8
}

/// The list after an advertisement was heard.
pub open spec fn observed(records: Seq<DeviceRecord>, adv: Advertisement) -> Seq<DeviceRecord> {
    if is_new_find(records, adv) {
        records.push(
            DeviceRecord {
                address: adv.address,
                name: advertised_name(adv.data),
                rssi: adv.rssi,
            },
        )
    } else {
        records
    }
}

/// Whether the scan should end after an advertisement was heard: the scan
/// window has passed or the list is full.
pub open spec fn scan_ends(records: Seq<DeviceRecord>, adv: Advertisement) -> bool {
    adv.late || observed(records, adv).len() >= 8
}

/// The list after all advertisements of a scan were heard, in order.
pub open spec fn scanned(advs: Seq<Advertisement>) -> Seq<DeviceRecord>
    decreases advs.len(),
{
    if advs.len() == 0 {
        Seq::empty()
    } else {
        observed(scanned(advs.drop_last()), advs.last())
    }
}

/// Result of a single scan pass.
pub struct ScanResult {
    pub devices: heapless::Vec<DiscoveredDevice, BLE_MAX_DISCOVERED>,
}

impl ScanResult {
    /// The devices that were found, in the order they were found.
    pub open spec fn records(&self) -> Seq<DeviceRecord> {
        found_items(self.devices).map_values(|d: DiscoveredDevice| d@)
    }

    /// The result of a scan that has heard nothing yet.
    pub fn new() -> (result: Self)
        ensures
            result.records() == Seq::<DeviceRecord>::empty(),
    {
        let result = ScanResult { devices: found_new() };
        assert(result.records() =~= Seq::<DeviceRecord>::empty());
        result
    }

    /// The number of devices found.
    pub fn len(&self) -> (count: usize)
        ensures
            count == self.records().len(),
            count <= 8,
    {
        found_as_slice(&self.devices).len()
    }

    /// The device that was found at place `index`, if there are that many.
    pub fn get(&self, index: usize) -> (device: Option<&DiscoveredDevice>)
        ensures
            index < self.records().len() ==> device is Some && device.unwrap()@
                == self.records()[index as int],
            index >= self.records().len() ==> device is None,
    {
        let items = found_as_slice(&self.devices);
        if index < items.len() {
            Some(&items[index])
        } else {
            None
        }
    }

    /// Whether a device of the given address was found.
    pub fn contains(&self, address: &DeviceAddress) -> (known: bool)
        ensures
            known == knows(self.records(), *address),
    {
        let items = found_as_slice(&self.devices);
        let mut j: usize = 0;
        while j < items.len()
            invariant
                j <= items@.len(),
                items@ == found_items(self.devices),
                forall|k: int|
                    0 <= k < j ==> (#[trigger] self.records()[k]).address != *address,
            decreases items@.len() - j,
        {
            if items[j].address == *address {
                assert(self.records()[j as int].address == *address);
                return true;
            }
            j += 1;
        }
        false
    }

    /// Takes in one advertisement that the radio heard during the scan.
    ///
    /// `past_deadline` says whether the scan window had passed when it
    /// was heard; such an advertisement is ignored. Otherwise the sender
    /// is added if it announces the HID service, is not yet listed and the
    /// list has room. The result says whether the scan should end now.
    pub fn on_advertisement(
        &mut self,
        data: &[u8],
        address: DeviceAddress,
        rssi: i8,
        past_deadline: bool,
    ) -> (stop: bool)
        ensures
            final(self).records() == observed(
                old(self).records(),
                Advertisement { data: data@, address, rssi, late: past_deadline },
            ),
            stop == scan_ends(
                old(self).records(),
                Advertisement { data: data@, address, rssi, late: past_deadline },
            ),
            distinct_addresses(old(self).records()) ==> distinct_addresses(final(self).records()),
    {
        if past_deadline {
            return true;
        }
        if contains_hid_service_uuid(data) {
            let name = extract_device_name(data);
            let device = DiscoveredDevice { address, name, rssi };
            let already_seen = self.contains(&device.address);
            if !already_seen && self.len() < BLE_MAX_DISCOVERED {
                let ghost before = self.records();
                let ghost record = device@;
                let _ = found_push(&mut self.devices, device);
                assert(self.records() =~= before.push(record));
            }
        }
        self.len() >= BLE_MAX_DISCOVERED
    }

    /// The event that announces the scan's result to the UI at step
    /// `index`: one `DeviceFound` for each device in the order found, then
    /// `ScanComplete`, then nothing.
    pub fn announcement(&self, index: usize) -> (event: Option<BleEvent>)
        ensures
            index < self.records().len() ==> event is Some && event.unwrap()@
                == crate::ble::BleEventView::DeviceFound(self.records()[index as int]),
            index == self.records().len() ==> event is Some && event.unwrap()@
                == crate::ble::BleEventView::ScanComplete,
            index > self.records().len() ==> event is None,
    {
        let count = self.len();
        if index < count {
            match self.get(index) {
                Some(device) => Some(BleEvent::DeviceFound(device.clone())),
                None => None,
            }
        } else if index == count {
            Some(BleEvent::ScanComplete)
        } else {
            None
        }
    }
}

/// How a scan ends: with its list if the radio carried it out, and with
/// `ScanFailed` if the radio reported an error.
pub fn finish_scan(result: ScanResult, radio_ok: bool) -> (outcome: Result<ScanResult, BleErrorTag>)
    ensures
        radio_ok ==> outcome is Ok && outcome.unwrap().records() == result.records(),
        !radio_ok ==> outcome == Err::<ScanResult, BleErrorTag>(BleErrorTag::ScanFailed),
{
    if radio_ok {
        Ok(result)
    } else {
        Err(BleErrorTag::ScanFailed)
    }
}

/// Hearing one more advertisement keeps the addresses in the list distinct
/// and the list within eight devices.
pub proof fn lemma_observed_keeps_distinct(records: Seq<DeviceRecord>, adv: Advertisement)
    requires
        distinct_addresses(records),
        records.len() <= 8,
    ensures
        distinct_addresses(observed(records, adv)),
        observed(records, adv).len() <= 8,
{
    if is_new_find(records, adv) {
        let next = observed(records, adv);
        assert forall|j: int, k: int| 0 <= j < k < next.len() implies (#[trigger] next[j]).address
            != (#[trigger] next[k]).address by {
            if k == records.len() {
                assert(next[j] == records[j]);
            } else {
                assert(next[j] == records[j]);
                assert(next[k] == records[k]);
            }
        }
    }
}

/// The list of a single scan holds no two devices with the same address,
/// and at most eight devices, whatever was heard.
pub proof fn lemma_scan_finds_each_address_once(advs: Seq<Advertisement>)
    ensures
        distinct_addresses(scanned(advs)),
        scanned(advs).len() <= 8,
    decreases advs.len(),
{
    if advs.len() > 0 {
        lemma_scan_finds_each_address_once(advs.drop_last());
        lemma_observed_keeps_distinct(scanned(advs.drop_last()), advs.last());
    }
}

/// An advertisement without payload announces nothing, so it adds no
/// device to the list.
pub proof fn lemma_empty_advertisement_finds_nothing(
    records: Seq<DeviceRecord>,
    address: DeviceAddress,
    rssi: i8,
    late: bool,
)
    ensures
        !advertises_hid(Seq::<u8>::empty()),
        observed(records, Advertisement { data: Seq::<u8>::empty(), address, rssi, late })
            == records,
{
}

} // verus!
