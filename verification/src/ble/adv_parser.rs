//! Advertisement data parser.
//!
//! An advertisement payload is a list of AD structures. Each one is a
//! length byte, a type byte and `length - 1` payload bytes. The list is
//! read up to the first malformed structure: one whose length byte is zero
//! or whose announced end does not lie inside the buffer.

use vstd::prelude::*;
use vstd::utf8::{encode_scalar, encode_utf8};

use crate::bounded::{name_bytes, name_new, name_push, name_push_str};

verus! {

/// One AD structure: its type byte and its payload.
pub struct AdRecord {
    pub kind: u8,
    pub payload: Seq<u8>,
}

/// Whether a well-formed AD structure starts at position `i`.
pub open spec fn record_starts(data: Seq<u8>, i: int) -> bool {
    0 <= i < data.len() && data[i] != 0 && i + data[i] < data.len()
}

/// The AD structure that starts at position `i`.
pub open spec fn record_at(data: Seq<u8>, i: int) -> AdRecord {
    AdRecord { kind: data[i + 1], payload: data.subrange(i + 2, i + 1 + data[i]) }
}

/// The AD structures of an advertisement from position `i` on, up to the
/// first malformed one.
pub open spec fn ad_records(data: Seq<u8>, i: int) -> Seq<AdRecord>
    decreases data.len() - i,
{
    if record_starts(data, i) {
        seq![record_at(data, i)] + ad_records(data, i + data[i] + 1)
    } else {
        Seq::empty()
    }
}

/// Whether a list of 16-bit service UUIDs, little-endian, holds the HID
/// service UUID 0x1812. A trailing odd byte is not part of the list.
pub open spec fn lists_hid_service(payload: Seq<u8>) -> bool {
    exists|k: int| 0 <= k && 2 * k + 1 < payload.len() && payload[2 * k] == 0x12 && #[trigger] payload[2 * k + 1] == 0x18
}

/// Whether an AD structure is a list of 16-bit service UUIDs (incomplete,
/// type 0x02, or complete, type 0x03) that holds the HID service.
pub open spec fn is_hid_record(record: AdRecord) -> bool {
    (record.kind == 0x02 || record.kind == 0x03) && lists_hid_service(record.payload)
}

/// Whether any of the records is a service list that holds the HID service.
pub open spec fn any_hid_record(records: Seq<AdRecord>) -> bool {
    exists|j: int| 0 <= j < records.len() && is_hid_record(#[trigger] records[j])
}

/// Whether an advertisement announces the HID service.
pub open spec fn advertises_hid(data: Seq<u8>) -> bool {
    any_hid_record(ad_records(data, 0))
}

/// Whether an AD structure carries a local name (shortened, type 0x08, or
/// complete, type 0x09).
pub open spec fn is_name_record(record: AdRecord) -> bool {
    record.kind == 0x08 || record.kind == 0x09
}

/// The payload of the first record that carries a local name.
pub open spec fn first_name(records: Seq<AdRecord>) -> Option<Seq<u8>>
    decreases records.len(),
{
    if records.len() == 0 {
        None
    } else if is_name_record(records[0]) {
        Some(records[0].payload)
    } else {
        first_name(records.drop_first())
    }
}

/// The UTF-8 text that results when every byte of `raw` is read as one
/// character (bytes from 0x80 on take two bytes each).
pub open spec fn spelled(raw: Seq<u8>) -> Seq<u8>
    decreases raw.len(),
{
    if raw.len() == 0 {
        Seq::empty()
    } else {
        spelled(raw.drop_last()) + encode_scalar(raw.last() as u32)
    }
}

/// The text of the longest prefix of `raw` whose text fits into a name.
pub open spec fn fitting(raw: Seq<u8>) -> Seq<u8>
    decreases raw.len(),
{
    if raw.len() == 0 || spelled(raw).len() <= 32 {
        spelled(raw)
    } else {
        fitting(raw.drop_last())
    }
}

/// The name that an advertisement gives its sender: the first local name
/// in it, cut to what fits, or the text "Unknown" if it holds none.
pub open spec fn advertised_name(data: Seq<u8>) -> Seq<u8> {
    match first_name(ad_records(data, 0)) {
        Some(raw) => fitting(raw),
        None => encode_utf8("Unknown"@),
    }
}

/// Check if raw advertisement data contains the HID Service UUID (0x1812).
pub fn contains_hid_service_uuid(data: &[u8]) -> (found: bool)
    ensures
        found == advertises_hid(data@),
{
    let ghost mut seen: Seq<AdRecord> = Seq::empty();
    let mut i: usize = 0;
    while i < data.len()
        invariant_except_break
            i <= data.len(),
            ad_records(data@, 0) == seen + ad_records(data@, i as int),
        invariant
            !any_hid_record(seen),
        ensures
            ad_records(data@, 0) == seen,
        decreases data.len() - i,
    {
        let len = data[i] as usize;
        if len == 0 || len >= data.len() - i {
            break ;
        }
        let ad_type = data[i + 1];
        let ghost record = record_at(data@, i as int);
        if ad_type == 0x02 || ad_type == 0x03 {
            let end = i + 1 + len;
            let mut k: usize = i + 2;
            while end - k >= 2
                invariant
                    i + 2 <= k <= end,
                    end == i + 1 + len,
                    end <= data.len(),
                    (k - (i + 2)) % 2 == 0,
                    record == record_at(data@, i as int),
                    len == data@[i as int],
                    forall|j: int|
                        0 <= j && 2 * j + 1 < k - (i + 2) ==> !(record.payload[2 * j] == 0x12
                            && #[trigger] record.payload[2 * j + 1] == 0x18),
                    ad_records(data@, 0) == seen + ad_records(data@, i as int),
                    record_starts(data@, i as int),
                    ad_type == record.kind,
                    ad_type == 0x02 || ad_type == 0x03,
                decreases end - k,
            {
                if data[k] == 0x12 && data[k + 1] == 0x18 {
                    proof {
                        let j = (k - (i + 2)) / 2;
                        assert(record.payload[2 * j] == 0x12 && record.payload[2 * j + 1] == 0x18);
                        assert(lists_hid_service(record.payload));
                        let all = ad_records(data@, 0);
                        assert(all[seen.len() as int] == record);
                        assert(is_hid_record(all[seen.len() as int]));
                    }
                    return true;
                }
                proof {
                    let j = (k - (i + 2)) / 2;
                    assert(record.payload[2 * j] == data@[k as int]);
                    assert(record.payload[2 * j + 1] == data@[k + 1]);
                }
                k += 2;
            }
            assert(!lists_hid_service(record.payload));
        }
        proof {
            let rest = ad_records(data@, i + len + 1);
            assert(seen + (seq![record] + rest) =~= seen.push(record) + rest);
            assert(!is_hid_record(record));
            assert forall|j: int| 0 <= j < seen.push(record).len() implies !is_hid_record(
                #[trigger] seen.push(record)[j],
            ) by {
                if j < seen.len() {
                    assert(seen.push(record)[j] == seen[j]);
                }
            }
            seen = seen.push(record);
        }
        i += len + 1;
    }
    proof {
        assert(seen + Seq::<AdRecord>::empty() =~= seen);
    }
    false
}

/// Extract complete/shortened local name from advertisement data.
///
/// The name is that of the first local-name structure, each byte read as
/// one character, cut to the capacity of a name; without such a structure
/// it is "Unknown".
pub fn extract_device_name(data: &[u8]) -> (name: heapless::String<32>)
    ensures
        name_bytes(name) == advertised_name(data@),
{
    let ghost mut seen: Seq<AdRecord> = Seq::empty();
    let mut i: usize = 0;
    while i < data.len()
        invariant_except_break
            i <= data.len(),
            ad_records(data@, 0) == seen + ad_records(data@, i as int),
        invariant
            first_name(seen) is None,
        ensures
            ad_records(data@, 0) == seen,
        decreases data.len() - i,
    {
        let len = data[i] as usize;
        if len == 0 || len >= data.len() - i {
            break ;
        }
        let ad_type = data[i + 1];
        let ghost record = record_at(data@, i as int);
        let ghost rest = ad_records(data@, i + len + 1);
        proof {
            lemma_first_name_concat(seen, seq![record] + rest);
            assert((seq![record] + rest).drop_first() =~= rest);
        }
        if ad_type == 0x08 || ad_type == 0x09 {
            let end = i + 1 + len;
            let mut name = name_new();
            let mut k: usize = i + 2;
            while k < end
                invariant_except_break
                    name_bytes(name) == spelled(record.payload.take(k - (i + 2))),
                invariant
                    i + 2 <= k <= end,
                    end == i + 1 + len,
                    end <= data.len(),
                    record == record_at(data@, i as int),
                    len == data@[i as int],
                    spelled(record.payload.take(k - (i + 2))).len() <= 32,
                ensures
                    k < end ==> name_bytes(name) == fitting(record.payload),
                    k == end ==> name_bytes(name) == spelled(record.payload.take(k - (i + 2))),
                decreases end - k,
            {
                let c = data[k] as char;
                let ghost taken = record.payload.take(k - (i + 2) + 1);
                proof {
                    assert(taken.drop_last() =~= record.payload.take(k - (i + 2)));
                    assert(taken.last() == data@[k as int]);
                    assert(c as u32 == data@[k as int] as u32);
                }
                if !name_push(&mut name, c) {
                    proof {
                        lemma_fitting_stops(
                            record.payload,
                            k - (i + 2),
                            record.payload.len() as int,
                        );
                    }
                    break ;
                }
                k += 1;
            }
            proof {
                if k == end {
                    assert(record.payload.take(k - (i + 2)) =~= record.payload);
                }
            }
            return name;
        }
        proof {
            lemma_first_name_concat(seen, seq![record]);
            assert(seq![record].drop_first() =~= Seq::<AdRecord>::empty());
            assert(first_name(Seq::<AdRecord>::empty()) is None);
            assert(first_name(seq![record]) is None);
            assert(seen + (seq![record] + rest) =~= seen.push(record) + rest);
            assert(seen + seq![record] =~= seen.push(record));
            seen = seen.push(record);
        }
        i += len + 1;
    }
    proof {
        assert(seen + Seq::<AdRecord>::empty() =~= seen);
        lemma_unknown_fits();
    }
    let mut name = name_new();
    let _ = name_push_str(&mut name, "Unknown");
    name
}

/// A structure with length byte zero ends the list: nothing at or behind
/// it is read.
pub proof fn lemma_zero_length_ends_list(data: Seq<u8>, i: int)
    requires
        0 <= i < data.len(),
        data[i] == 0,
    ensures
        ad_records(data, i) == Seq::<AdRecord>::empty(),
{
}

/// A structure whose announced end lies outside the buffer ends the list.
pub proof fn lemma_overlong_record_ends_list(data: Seq<u8>, i: int)
    requires
        0 <= i < data.len(),
        i + data[i] >= data.len(),
    ensures
        ad_records(data, i) == Seq::<AdRecord>::empty(),
{
}

/// An advertisement without payload holds no structure: it announces no
/// HID service and carries no name.
pub proof fn lemma_empty_advertisement(data: Seq<u8>)
    requires
        data.len() == 0,
    ensures
        ad_records(data, 0) == Seq::<AdRecord>::empty(),
        !advertises_hid(data),
        advertised_name(data) == encode_utf8("Unknown"@),
{
}

/// The first local name of two lists joined is that of the first list, or
/// else that of the second.
pub proof fn lemma_first_name_concat(a: Seq<AdRecord>, b: Seq<AdRecord>)
    ensures
        first_name(a + b) == if first_name(a) is Some {
            first_name(a)
        } else {
            first_name(b)
        },
    decreases a.len(),
{
    if a.len() == 0 {
        assert(a + b =~= b);
    } else {
        assert((a + b).drop_first() =~= a.drop_first() + b);
        assert((a + b)[0] == a[0]);
        lemma_first_name_concat(a.drop_first(), b);
    }
}

/// The text of a prefix is never longer than the text of a longer prefix.
pub proof fn lemma_spelled_grows(raw: Seq<u8>, k: int, m: int)
    requires
        0 <= k <= m <= raw.len(),
    ensures
        spelled(raw.take(k)).len() <= spelled(raw.take(m)).len(),
    decreases m - k,
{
    if k < m {
        assert(raw.take(m).drop_last() =~= raw.take(m - 1));
        lemma_spelled_grows(raw, k, m - 1);
    }
}

/// If the text of the first `k` bytes fits and that of the first `k + 1`
/// bytes does not (or there are only `k`), then the text of the first `k`
/// bytes is what fits of the first `m` bytes, for every `m` from `k` on.
pub proof fn lemma_fitting_stops(raw: Seq<u8>, k: int, m: int)
    requires
        0 <= k <= m <= raw.len(),
        spelled(raw.take(k)).len() <= 32,
        k < raw.len() ==> spelled(raw.take(k + 1)).len() > 32,
    ensures
        fitting(raw.take(m)) == spelled(raw.take(k)),
        m == raw.len() ==> fitting(raw) == spelled(raw.take(k)),
    decreases m - k,
{
    if k < m {
        lemma_spelled_grows(raw, k + 1, m);
        assert(raw.take(m).drop_last() =~= raw.take(m - 1));
        lemma_fitting_stops(raw, k, m - 1);
    }
    if m == raw.len() {
        assert(raw.take(m) =~= raw);
    }
}

/// The text "Unknown" is seven bytes long.
pub proof fn lemma_unknown_fits()
    ensures
        encode_utf8("Unknown"@).len() == 7,
{
    reveal_strlit("Unknown");
    assert(vstd::utf8::is_ascii_chars("Unknown"@));
    vstd::utf8::is_ascii_chars_encode_utf8("Unknown"@);
}

/// A name made of ASCII bytes alone is spelled by those very bytes, so what
/// fits of it is its first 32 bytes.
pub proof fn lemma_ascii_name_is_truncated(raw: Seq<u8>)
    requires
        forall|i: int| 0 <= i < raw.len() ==> raw[i] < 0x80,
    ensures
        spelled(raw) == raw,
        fitting(raw) == if raw.len() <= 32 {
            raw
        } else {
            raw.take(32)
        },
    decreases raw.len(),
{
    if raw.len() > 0 {
        lemma_ascii_name_is_truncated(raw.drop_last());
        let b = raw.last();
        assert(encode_scalar(b as u32) =~= seq![b]) by {
            let s = b as u32;
            assert((s & 0x7F) as u8 == b) by (bit_vector)
                requires
                    s == b as u32,
                    b < 0x80,
            ;
        }
        assert(spelled(raw) =~= raw);
        if raw.len() > 32 {
            if raw.len() == 33 {
                assert(raw.drop_last() =~= raw.take(32));
            } else {
                assert(raw.drop_last().take(32) =~= raw.take(32));
            }
        }
    }
}

} // verus!
