//! Event flag storage in the game's own layout: every event flag is one bit
//! of a fixed 320-byte array (flag `n` is bit `n % 8` of byte `n / 8`).
//! Runtime-only keys with no bit (the NPC visibility keys written by script
//! effects) live in a small list of extras.
//!
//! A flag is named either by a typed event constant, whose bit the caller
//! resolves from the game's flag table, or by the `__RAW_BIT_<n>` form;
//! any other name is an extra.

use vstd::prelude::*;

use crate::text::{parse_unsigned, push_decimal, spec_decimal, spec_parse_unsigned, str_eq};

use super::hidden_items::bit_of;

verus! {

/// Bytes of the event flag array (0xA00 flags).
pub const EVENT_FLAGS_SIZE: usize = 320;

/// The event flags: the bit array and the extras.
#[derive(Debug, Clone)]
pub struct EventFlags {
    bits: [u8; EVENT_FLAGS_SIZE],
    extras: Vec<(String, bool)>,
}

/// The abstract flags: the bytes, and the extras as (key, value) pairs.
pub struct EventFlagsView {
    pub bits: Seq<u8>,
    pub extras: Seq<(Seq<char>, bool)>,
}

pub open spec fn extras_view(v: Seq<(String, bool)>) -> Seq<(Seq<char>, bool)> {
    v.map_values(|e: (String, bool)| (e.0@, e.1))
}

impl View for EventFlags {
    type V = EventFlagsView;

    closed spec fn view(&self) -> EventFlagsView {
        EventFlagsView { bits: self.bits@, extras: extras_view(self.extras@) }
    }
}

/// No key occurs twice among the extras.
pub open spec fn extras_distinct(e: Seq<(Seq<char>, bool)>) -> bool {
    forall|i: int, j: int| 0 <= i < j < e.len() ==> (#[trigger] e[i]).0 != (#[trigger] e[j]).0
}

/// The flags are well formed: 320 bytes, distinct extra keys.
pub open spec fn flags_wf(f: EventFlagsView) -> bool {
    f.bits.len() == EVENT_FLAGS_SIZE && extras_distinct(f.extras)
}

/// Flag `bit`: false beyond the array.
pub open spec fn spec_get_bit(bits: Seq<u8>, bit: u16) -> bool {
    (bit as int) / 8 < bits.len() && bit_of(bits[(bit as int) / 8], (bit % 8) as u8)
}

/// The bytes with flag `bit` written; unchanged beyond the array.
pub open spec fn spec_set_bit(bits: Seq<u8>, bit: u16, value: bool) -> Seq<u8> {
    if (bit as int) / 8 >= bits.len() {
        bits
    } else {
        let b = bits[(bit as int) / 8];
        let mask = 1u8 << ((bit % 8) as u8);
        bits.update((bit as int) / 8, if value { b | mask } else { b & !mask })
    }
}

/// The value of an extra key, if present.
pub open spec fn spec_extra(e: Seq<(Seq<char>, bool)>, key: Seq<char>) -> Option<bool> {
    if exists|i: int| 0 <= i < e.len() && (#[trigger] e[i]).0 == key {
        Some(e[choose|i: int| 0 <= i < e.len() && (#[trigger] e[i]).0 == key].1)
    } else {
        None
    }
}

/// The extras with `key` set to `value` (replaced in place, else added).
pub open spec fn spec_set_extra(e: Seq<(Seq<char>, bool)>, key: Seq<char>, value: bool) -> Seq<(Seq<char>, bool)> {
    if exists|i: int| 0 <= i < e.len() && (#[trigger] e[i]).0 == key {
        e.update(choose|i: int| 0 <= i < e.len() && (#[trigger] e[i]).0 == key, (key, value))
    } else {
        e.push((key, value))
    }
}

/// The extras without `key`.
pub open spec fn spec_remove_extra(e: Seq<(Seq<char>, bool)>, key: Seq<char>) -> Seq<(Seq<char>, bool)> {
    if exists|i: int| 0 <= i < e.len() && (#[trigger] e[i]).0 == key {
        e.remove(choose|i: int| 0 <= i < e.len() && (#[trigger] e[i]).0 == key)
    } else {
        e
    }
}

/// The bit a flag name resolves to: the typed constant's bit given by the
/// caller, else the `__RAW_BIT_<n>` form, else none.
pub open spec fn spec_bit_for_name(name: Seq<char>, named_bit: Option<u16>) -> Option<u16> {
    match named_bit {
        Some(b) => Some(b),
        None => if name.len() >= 10 && name.subrange(0, 10) == "__RAW_BIT_"@ {
            match spec_parse_unsigned(name.subrange(10, name.len() as int), 0xFFFF) {
                Some(v) => Some(v as u16),
                None => None,
            }
        } else {
            None
        },
    }
}

/// The flags after `set_flag(name, named_bit, value)`.
pub open spec fn spec_set_flag(f: EventFlagsView, name: Seq<char>, named_bit: Option<u16>, value: bool) -> EventFlagsView {
    match spec_bit_for_name(name, named_bit) {
        Some(bit) => EventFlagsView { bits: spec_set_bit(f.bits, bit, value), ..f },
        None => EventFlagsView { extras: spec_set_extra(f.extras, name, value), ..f },
    }
}

/// The flags after setting each entry (name, its typed bit if any, value)
/// in order.
pub open spec fn spec_merge(f: EventFlagsView, entries: Seq<(Seq<char>, Option<u16>, bool)>) -> EventFlagsView
    decreases entries.len(),
{
    if entries.len() == 0 {
        f
    } else {
        let e = entries.last();
        spec_set_flag(spec_merge(f, entries.drop_last()), e.0, e.1, e.2)
    }
}

/// The `__RAW_BIT_<n>` name of bit `n`.
pub open spec fn spec_raw_bit_name(n: nat) -> Seq<char> {
    "__RAW_BIT_"@ + spec_decimal(n)
}

/// One `(__RAW_BIT_<n>, true)` entry for each set bit below `n`, in bit
/// order.
pub open spec fn spec_bit_entries(bits: Seq<u8>, n: nat) -> Seq<(Seq<char>, bool)>
    decreases n,
{
    if n == 0 {
        Seq::empty()
    } else {
        let prev = spec_bit_entries(bits, (n - 1) as nat);
        if spec_get_bit(bits, (n - 1) as u16) {
            prev.push((spec_raw_bit_name((n - 1) as nat), true))
        } else {
            prev
        }
    }
}

/// Number of set bits of a byte among its lowest `k`.
pub open spec fn spec_popcount_upto(b: u8, k: nat) -> nat
    decreases k,
{
    if k == 0 {
        0
    } else {
        spec_popcount_upto(b, (k - 1) as nat) + if bit_of(b, (k - 1) as u8) { 1nat } else { 0nat }
    }
}

/// Number of set bits of the bytes.
pub open spec fn spec_bits_count(bits: Seq<u8>) -> nat
    decreases bits.len(),
{
    if bits.len() == 0 {
        0
    } else {
        spec_bits_count(bits.drop_last()) + spec_popcount_upto(bits.last(), 8)
    }
}

/// Number of extras set to true.
pub open spec fn spec_true_extras(e: Seq<(Seq<char>, bool)>) -> nat
    decreases e.len(),
{
    if e.len() == 0 {
        0
    } else {
        spec_true_extras(e.drop_last()) + if e.last().1 { 1nat } else { 0nat }
    }
}

fn bit_for_name(name: &str, named_bit: Option<u16>) -> (r: Option<u16>)
    ensures
        r == spec_bit_for_name(name@, named_bit),
{
    if let Some(b) = named_bit {
        return Some(b);
    }
    let n = name.unicode_len();
    if n >= 10 && str_eq(name.substring_char(0, 10), "__RAW_BIT_") {
        match parse_unsigned(name.substring_char(10, n), 0xFFFF) {
            Some(v) => Some(v as u16),
            None => None,
        }
    } else {
        None
    }
}

fn popcount(b: u8) -> (n: u32)
    ensures
        n == spec_popcount_upto(b, 8),
        n <= 8,
{
    let mut n: u32 = 0;
    let mut k: u8 = 0;
    while k < 8
        invariant
            k <= 8,
            n == spec_popcount_upto(b, k as nat),
            n <= k,
        decreases 8 - k,
    {
        if b & (1u8 << k) != 0 {
            n = n + 1;
        }
        k = k + 1;
    }
    n
}

impl EventFlags {
    /// No flag set, no extras.
    pub fn new() -> (f: EventFlags)
        ensures
            f@.bits == Seq::new(EVENT_FLAGS_SIZE as nat, |i: int| 0u8),
            f@.extras == Seq::<(Seq<char>, bool)>::empty(),
            flags_wf(f@),
    {
        let f = EventFlags { bits: [0u8; EVENT_FLAGS_SIZE], extras: Vec::new() };
        assert(f@.bits =~= Seq::new(EVENT_FLAGS_SIZE as nat, |i: int| 0u8));
        assert(f@.extras =~= Seq::<(Seq<char>, bool)>::empty());
        f
    }

    fn extra_index(&self, key: &str) -> (r: Option<usize>)
        ensures
            match r {
                Some(i) => i < self@.extras.len() && self@.extras[i as int].0 == key@,
                None => forall|i: int| 0 <= i < self@.extras.len() ==> (#[trigger] self@.extras[i]).0 != key@,
            },
    {
        let mut i: usize = 0;
        while i < self.extras.len()
            invariant
                i <= self.extras@.len(),
                forall|k: int| 0 <= k < i ==> (#[trigger] self@.extras[k]).0 != key@,
            decreases self.extras@.len() - i,
        {
            if str_eq(self.extras[i].0.as_str(), key) {
                return Some(i);
            }
            i += 1;
        }
        None
    }

    fn get_bit(&self, bit_index: u16) -> (r: bool)
        ensures
            r == spec_get_bit(self@.bits, bit_index),
    {
        let byte = bit_index as usize / 8;
        if byte >= EVENT_FLAGS_SIZE {
            return false;
        }
        self.bits[byte] & (1u8 << ((bit_index % 8) as u8)) != 0
    }

    fn set_bit(&mut self, bit_index: u16, value: bool)
        ensures
            final(self)@.bits == spec_set_bit(old(self)@.bits, bit_index, value),
            final(self)@.extras == old(self)@.extras,
    {
        let byte = bit_index as usize / 8;
        if byte >= EVENT_FLAGS_SIZE {
            return;
        }
        let mask: u8 = 1u8 << ((bit_index % 8) as u8);
        let mut bits = self.bits;
        let b = bits[byte];
        if value {
            bits.set(byte, b | mask);
        } else {
            bits.set(byte, b & !mask);
        }
        self.bits = bits;
    }

    /// Whether the flag with this bit index is set.
    pub fn check(&self, bit_index: u16) -> (r: bool)
        ensures
            r == spec_get_bit(self@.bits, bit_index),
    {
        self.get_bit(bit_index)
    }

    /// Sets the flag with this bit index.
    pub fn set(&mut self, bit_index: u16)
        ensures
            final(self)@.bits == spec_set_bit(old(self)@.bits, bit_index, true),
            final(self)@.extras == old(self)@.extras,
    {
        self.set_bit(bit_index, true)
    }

    /// Clears the flag with this bit index.
    pub fn reset(&mut self, bit_index: u16)
        ensures
            final(self)@.bits == spec_set_bit(old(self)@.bits, bit_index, false),
            final(self)@.extras == old(self)@.extras,
    {
        self.set_bit(bit_index, false)
    }

    /// Checks a flag by its bit index.
    pub fn check_raw(&self, bit_index: u16) -> (r: bool)
        ensures
            r == spec_get_bit(self@.bits, bit_index),
    {
        self.get_bit(bit_index)
    }

    /// Sets a flag by its bit index.
    pub fn set_raw(&mut self, bit_index: u16)
        ensures
            final(self)@.bits == spec_set_bit(old(self)@.bits, bit_index, true),
            final(self)@.extras == old(self)@.extras,
    {
        self.set_bit(bit_index, true)
    }

    /// Clears a flag by its bit index.
    pub fn reset_raw(&mut self, bit_index: u16)
        ensures
            final(self)@.bits == spec_set_bit(old(self)@.bits, bit_index, false),
            final(self)@.extras == old(self)@.extras,
    {
        self.set_bit(bit_index, false)
    }

    /// The number of flags set: bits and extras set to true. The count is
    /// a `u32`, so the extras may not push it past `u32::MAX`.
    pub fn count_set(&self) -> (n: u32)
        requires
            self@.extras.len() + 8 * EVENT_FLAGS_SIZE <= u32::MAX,
        ensures
            n == spec_bits_count(self@.bits) + spec_true_extras(self@.extras),
    {
        let mut bit_count: u32 = 0;
        let mut i: usize = 0;
        assert(self@.bits.subrange(0, 0) =~= Seq::<u8>::empty());
        while i < EVENT_FLAGS_SIZE
            invariant
                i <= EVENT_FLAGS_SIZE,
                self@.bits.len() == EVENT_FLAGS_SIZE,
                bit_count == spec_bits_count(self@.bits.subrange(0, i as int)),
                bit_count <= 8 * i,
            decreases EVENT_FLAGS_SIZE - i,
        {
            assert(self@.bits.subrange(0, i + 1).drop_last() =~= self@.bits.subrange(0, i as int));
            bit_count = bit_count + popcount(self.bits[i]);
            i += 1;
        }
        assert(self@.bits.subrange(0, EVENT_FLAGS_SIZE as int) =~= self@.bits);
        let mut extra_count: u32 = 0;
        let mut j: usize = 0;
        assert(self@.extras.subrange(0, 0) =~= Seq::<(Seq<char>, bool)>::empty());
        while j < self.extras.len()
            invariant
                j <= self@.extras.len(),
                self@.extras.len() + 8 * EVENT_FLAGS_SIZE <= u32::MAX,
                extra_count == spec_true_extras(self@.extras.subrange(0, j as int)),
                extra_count <= j,
            decreases self@.extras.len() - j,
        {
            assert(self@.extras.subrange(0, j + 1).drop_last() =~= self@.extras.subrange(0, j as int));
            if self.extras[j].1 {
                extra_count = extra_count + 1;
            }
            j += 1;
        }
        assert(self@.extras.subrange(0, self@.extras.len() as int) =~= self@.extras);
        bit_count + extra_count
    }

    /// Clears every flag, bits and extras.
    pub fn clear_all(&mut self)
        ensures
            final(self)@.bits == Seq::new(EVENT_FLAGS_SIZE as nat, |i: int| 0u8),
            final(self)@.extras == Seq::<(Seq<char>, bool)>::empty(),
    {
        self.bits = [0u8; EVENT_FLAGS_SIZE];
        self.extras = Vec::new();
        assert(self@.bits =~= Seq::new(EVENT_FLAGS_SIZE as nat, |i: int| 0u8));
        assert(self@.extras =~= Seq::<(Seq<char>, bool)>::empty());
    }

    /// The value of a named flag (false when unset). `named_bit` is the bit
    /// of the typed event constant of that name, if there is one.
    pub fn get_flag(&self, name: &str, named_bit: Option<u16>) -> (r: bool)
        requires
            flags_wf(self@),
        ensures
            r == match spec_bit_for_name(name@, named_bit) {
                Some(bit) => spec_get_bit(self@.bits, bit),
                None => spec_extra(self@.extras, name@) == Some(true),
            },
    {
        match bit_for_name(name, named_bit) {
            Some(bit) => self.get_bit(bit),
            None => match self.extra_index(name) {
                Some(i) => {
                    proof {
                        lemma_extra_at(self@.extras, name@, i as int);
                    }
                    self.extras[i].1
                },
                None => false,
            },
        }
    }

    /// Sets a named flag: a flag with a bit writes the bit; any other name
    /// is set among the extras.
    pub fn set_flag(&mut self, name: &str, named_bit: Option<u16>, value: bool)
        requires
            flags_wf(old(self)@),
        ensures
            flags_wf(final(self)@),
            match spec_bit_for_name(name@, named_bit) {
                Some(bit) => final(self)@.bits == spec_set_bit(old(self)@.bits, bit, value) && final(self)@.extras
                    == old(self)@.extras,
                None => final(self)@.bits == old(self)@.bits && final(self)@.extras == spec_set_extra(
                    old(self)@.extras,
                    name@,
                    value,
                ),
            },
    {
        match bit_for_name(name, named_bit) {
            Some(bit) => self.set_bit(bit, value),
            None => match self.extra_index(name) {
                Some(i) => {
                    proof {
                        lemma_extra_at(self@.extras, name@, i as int);
                    }
                    let ghost before = self.extras@;
                    let mut extras: Vec<(String, bool)> = Vec::new();
                    std::mem::swap(&mut extras, &mut self.extras);
                    extras.set(i, (String::from_str(name), value));
                    proof {
                        assert(extras_view(extras@) =~= extras_view(before).update(i as int, (name@, value)));
                        assert(extras_distinct(extras_view(extras@)));
                    }
                    self.extras = extras;
                },
                None => {
                    let ghost before = self.extras@;
                    let mut extras: Vec<(String, bool)> = Vec::new();
                    std::mem::swap(&mut extras, &mut self.extras);
                    extras.push((String::from_str(name), value));
                    proof {
                        assert(extras_view(extras@) =~= extras_view(before).push((name@, value)));
                        assert(extras_distinct(extras_view(extras@)));
                    }
                    self.extras = extras;
                },
            },
        }
    }

    /// Removes a named flag entirely: clears its bit, or drops the extra.
    pub fn remove_flag(&mut self, name: &str, named_bit: Option<u16>)
        requires
            flags_wf(old(self)@),
        ensures
            flags_wf(final(self)@),
            match spec_bit_for_name(name@, named_bit) {
                Some(bit) => final(self)@.bits == spec_set_bit(old(self)@.bits, bit, false) && final(self)@.extras
                    == old(self)@.extras,
                None => final(self)@.bits == old(self)@.bits && final(self)@.extras == spec_remove_extra(
                    old(self)@.extras,
                    name@,
                ),
            },
    {
        match bit_for_name(name, named_bit) {
            Some(bit) => self.set_bit(bit, false),
            None => match self.extra_index(name) {
                Some(i) => {
                    proof {
                        lemma_extra_at(self@.extras, name@, i as int);
                    }
                    let ghost before = self.extras@;
                    let mut extras: Vec<(String, bool)> = Vec::new();
                    std::mem::swap(&mut extras, &mut self.extras);
                    extras.remove(i);
                    proof {
                        assert(extras_view(extras@) =~= extras_view(before).remove(i as int));
                        assert forall|a: int, b: int| 0 <= a < b < extras_view(extras@).len() implies (
                        #[trigger] extras_view(extras@)[a]).0 != (#[trigger] extras_view(extras@)[b]).0 by {
                            let va = if a < i { a } else { a + 1 };
                            let vb = if b < i { b } else { b + 1 };
                            assert(extras_view(before)[va].0 != extras_view(before)[vb].0);
                        }
                    }
                    self.extras = extras;
                },
                None => {},
            },
        }
    }

    /// A flag set holding exactly the given entries, set in order on an
    /// empty one (see [`Self::merge_from`]).
    pub fn from_entries(entries: &Vec<(String, Option<u16>, bool)>) -> (f: EventFlags)
        ensures
            flags_wf(f@),
            f@ == spec_merge(
                EventFlagsView { bits: Seq::new(EVENT_FLAGS_SIZE as nat, |i: int| 0u8), extras: Seq::empty() },
                entries@.map_values(|e: (String, Option<u16>, bool)| (e.0@, e.1, e.2)),
            ),
    {
        let mut f = EventFlags::new();
        proof {
            assert(f@ == EventFlagsView { bits: Seq::new(EVENT_FLAGS_SIZE as nat, |i: int| 0u8), extras: Seq::empty() });
        }
        f.merge_from(entries);
        f
    }

    /// Sets each entry (a flag name, the bit of the typed event constant of
    /// that name if there is one, and the value) in order; later entries win.
    pub fn merge_from(&mut self, entries: &Vec<(String, Option<u16>, bool)>)
        requires
            flags_wf(old(self)@),
        ensures
            flags_wf(final(self)@),
            final(self)@ == spec_merge(old(self)@, entries@.map_values(|e: (String, Option<u16>, bool)| (e.0@, e.1, e.2))),
    {
        let ghost ev = entries@.map_values(|e: (String, Option<u16>, bool)| (e.0@, e.1, e.2));
        let mut i: usize = 0;
        assert(ev.subrange(0, 0) =~= Seq::<(Seq<char>, Option<u16>, bool)>::empty());
        while i < entries.len()
            invariant
                i <= entries@.len(),
                ev == entries@.map_values(|e: (String, Option<u16>, bool)| (e.0@, e.1, e.2)),
                flags_wf(self@),
                self@ == spec_merge(old(self)@, ev.subrange(0, i as int)),
            decreases entries@.len() - i,
        {
            let ghost before = self@;
            let entry = &entries[i];
            self.set_flag(entry.0.as_str(), entry.1, entry.2);
            proof {
                assert(ev.subrange(0, i + 1).drop_last() =~= ev.subrange(0, i as int));
                assert(ev.subrange(0, i + 1).last() == ev[i as int]);
                assert(self@ == spec_set_flag(before, entry.0@, entry.1, entry.2));
            }
            i += 1;
        }
        assert(ev.subrange(0, entries@.len() as int) =~= ev);
    }

    /// A snapshot of every set flag: one `(__RAW_BIT_<n>, true)` entry per
    /// set bit in bit order (a typed constant's name belongs to the game's
    /// flag table, so bits are named by the raw form, which `get_flag` and
    /// `set_flag` read back), then the extras as they are.
    pub fn to_entries(&self) -> (r: Vec<(String, bool)>)
        ensures
            extras_view(r@) == spec_bit_entries(self@.bits, 8 * EVENT_FLAGS_SIZE as nat) + self@.extras,
    {
        let mut out: Vec<(String, bool)> = Vec::new();
        let mut n: u32 = 0;
        assert(extras_view(out@) =~= spec_bit_entries(self@.bits, 0));
        while n < 8 * EVENT_FLAGS_SIZE as u32
            invariant
                n <= 8 * EVENT_FLAGS_SIZE,
                extras_view(out@) == spec_bit_entries(self@.bits, n as nat),
            decreases 8 * EVENT_FLAGS_SIZE - n,
        {
            let ghost before = out@;
            if self.get_bit(n as u16) {
                let mut name = String::from_str("__RAW_BIT_");
                push_decimal(&mut name, n);
                out.push((name, true));
                assert(extras_view(out@) =~= extras_view(before).push((spec_raw_bit_name(n as nat), true)));
            }
            n += 1;
        }
        let mut j: usize = 0;
        let ghost head = extras_view(out@);
        while j < self.extras.len()
            invariant
                j <= self@.extras.len(),
                head == spec_bit_entries(self@.bits, 8 * EVENT_FLAGS_SIZE as nat),
                extras_view(out@) == head + self@.extras.subrange(0, j as int),
            decreases self@.extras.len() - j,
        {
            let ghost before = out@;
            let key = self.extras[j].0.clone();
            let value = self.extras[j].1;
            out.push((key, value));
            proof {
                assert(self@.extras[j as int] == (self.extras@[j as int].0@, self.extras@[j as int].1));
                assert(extras_view(out@) =~= extras_view(before).push((key@, value)));
                assert(self@.extras.subrange(0, j + 1) =~= self@.extras.subrange(0, j as int).push(self@.extras[j as int]));
                assert(extras_view(out@) =~= head + self@.extras.subrange(0, j + 1));
            }
            j += 1;
        }
        assert(self@.extras.subrange(0, self@.extras.len() as int) =~= self@.extras);
        out
    }

    /// The extras: runtime-only keys with no bit.
    pub fn extras(&self) -> (e: &Vec<(String, bool)>)
        ensures
            extras_view(e@) == self@.extras,
    {
        &self.extras
    }

    /// The flag bytes in the game's own 320-byte layout.
    pub fn to_event_bytes(&self) -> (b: [u8; EVENT_FLAGS_SIZE])
        ensures
            b@ == self@.bits,
    {
        self.bits
    }

    /// The flag bytes in the game's own layout.
    pub fn as_bytes(&self) -> (b: [u8; EVENT_FLAGS_SIZE])
        ensures
            b@ == self@.bits,
    {
        self.bits
    }

    /// Replaces the leading flag bytes with `data` (a longer input is cut
    /// to the array; a shorter one leaves the rest). Extras stay.
    pub fn load_event_bytes(&mut self, data: &[u8])
        ensures
            final(self)@.bits == Seq::new(
                EVENT_FLAGS_SIZE as nat,
                |i: int| if i < data@.len() { data@[i] } else { old(self)@.bits[i] },
            ),
            final(self)@.extras == old(self)@.extras,
    {
        let mut bits = self.bits;
        let mut i: usize = 0;
        while i < EVENT_FLAGS_SIZE && i < data.len()
            invariant
                i <= EVENT_FLAGS_SIZE,
                i <= data@.len(),
                bits@.len() == EVENT_FLAGS_SIZE,
                forall|k: int| 0 <= k < i ==> bits@[k] == data@[k],
                forall|k: int| i <= k < EVENT_FLAGS_SIZE ==> bits@[k] == old(self)@.bits[k],
            decreases EVENT_FLAGS_SIZE - i,
        {
            bits.set(i, data[i]);
            i += 1;
        }
        self.bits = bits;
        assert(self@.bits == bits@);
        assert(self@.bits =~= Seq::new(
            EVENT_FLAGS_SIZE as nat,
            |k: int| if k < data@.len() { data@[k] } else { old(self)@.bits[k] },
        ));
    }

    /// Flags from the game's 320-byte layout, with no extras.
    pub fn from_bytes(data: [u8; EVENT_FLAGS_SIZE]) -> (f: EventFlags)
        ensures
            f@.bits == data@,
            f@.extras == Seq::<(Seq<char>, bool)>::empty(),
            flags_wf(f@),
    {
        let f = EventFlags { bits: data, extras: Vec::new() };
        assert(f@.extras =~= Seq::<(Seq<char>, bool)>::empty());
        f
    }

    /// Flags from a byte slice of any length: its leading bytes, the rest
    /// clear.
    pub fn from_event_bytes(data: &[u8]) -> (f: EventFlags)
        ensures
            f@.bits == Seq::new(EVENT_FLAGS_SIZE as nat, |i: int| if i < data@.len() { data@[i] } else { 0u8 }),
            f@.extras == Seq::<(Seq<char>, bool)>::empty(),
            flags_wf(f@),
    {
        let mut f = EventFlags::new();
        f.load_event_bytes(data);
        assert(f@.bits =~= Seq::new(EVENT_FLAGS_SIZE as nat, |i: int| if i < data@.len() { data@[i] } else { 0u8 }));
        f
    }
}

impl Default for EventFlags {
    fn default() -> (f: EventFlags)
        ensures
            f@.bits == Seq::new(EVENT_FLAGS_SIZE as nat, |i: int| 0u8),
            f@.extras == Seq::<(Seq<char>, bool)>::empty(),
            flags_wf(f@),
    {
        EventFlags::new()
    }
}

/// With distinct keys, the extra found at position `i` is the one the key
/// names.
proof fn lemma_extra_at(e: Seq<(Seq<char>, bool)>, key: Seq<char>, i: int)
    requires
        extras_distinct(e),
        0 <= i < e.len(),
        e[i].0 == key,
    ensures
        spec_extra(e, key) == Some(e[i].1),
        spec_set_extra(e, key, true) == e.update(i, (key, true)),
        spec_set_extra(e, key, false) == e.update(i, (key, false)),
        spec_remove_extra(e, key) == e.remove(i),
{
    let c = choose|j: int| 0 <= j < e.len() && (#[trigger] e[j]).0 == key;
    assert(0 <= c < e.len() && e[c].0 == key);
    if c != i {
        if c < i {
            assert(e[c].0 != e[i].0);
        } else {
            assert(e[i].0 != e[c].0);
        }
    }
}

proof fn lemma_bit_write(b: u8, k1: u8, k2: u8, value: bool)
    requires
        k1 < 8,
        k2 < 8,
    ensures
        bit_of(if value { b | (1u8 << k1) } else { b & !(1u8 << k1) }, k1) == value,
        k1 != k2 ==> bit_of(if value { b | (1u8 << k1) } else { b & !(1u8 << k1) }, k2) == bit_of(b, k2),
{
    assert((b | (1u8 << k1)) & (1u8 << k1) != 0) by (bit_vector)
        requires
            k1 < 8,
    ;
    assert((b & !(1u8 << k1)) & (1u8 << k1) == 0) by (bit_vector)
        requires
            k1 < 8,
    ;
    assert(k1 != k2 ==> (((b | (1u8 << k1)) & (1u8 << k2) != 0) == (b & (1u8 << k2) != 0))) by (bit_vector)
        requires
            k1 < 8,
            k2 < 8,
    ;
    assert(k1 != k2 ==> (((b & !(1u8 << k1)) & (1u8 << k2) != 0) == (b & (1u8 << k2) != 0))) by (bit_vector)
        requires
            k1 < 8,
            k2 < 8,
    ;
}

/// Writing a flag's bit sets exactly that flag: it reads back as written
/// and every other flag reads as before.
pub proof fn lemma_set_bit_exact(bits: Seq<u8>, bit: u16, value: bool, other: u16)
    requires
        bits.len() == EVENT_FLAGS_SIZE,
        (bit as int) / 8 < EVENT_FLAGS_SIZE,
    ensures
        spec_get_bit(spec_set_bit(bits, bit, value), bit) == value,
        other != bit ==> spec_get_bit(spec_set_bit(bits, bit, value), other) == spec_get_bit(bits, other),
{
    lemma_bit_write(bits[(bit as int) / 8], (bit % 8) as u8, (other % 8) as u8, value);
    if other != bit && (other as int) / 8 == (bit as int) / 8 {
        assert(other % 8 != bit % 8);
    }
}

/// What a named flag is set to reads back: after setting a name to a value,
/// reading the name gives that value (a bit beyond the array is ignored,
/// so this holds there only for `false`).
pub proof fn lemma_set_flag_then_get_flag(f: EventFlagsView, name: Seq<char>, named_bit: Option<u16>, value: bool)
    requires
        flags_wf(f),
        spec_bit_for_name(name, named_bit) matches Some(bit) ==> ((bit as int) / 8 < EVENT_FLAGS_SIZE || !value),
    ensures
        match spec_bit_for_name(name, named_bit) {
            Some(bit) => spec_get_bit(spec_set_bit(f.bits, bit, value), bit) == value,
            None => spec_extra(spec_set_extra(f.extras, name, value), name) == Some(value),
        },
{
    match spec_bit_for_name(name, named_bit) {
        Some(bit) => {
            if (bit as int) / 8 < EVENT_FLAGS_SIZE {
                lemma_set_bit_exact(f.bits, bit, value, bit);
            }
        },
        None => {
            let e = f.extras;
            if exists|i: int| 0 <= i < e.len() && (#[trigger] e[i]).0 == name {
                let i = choose|i: int| 0 <= i < e.len() && (#[trigger] e[i]).0 == name;
                lemma_extra_at(e, name, i);
                let e2 = e.update(i, (name, value));
                assert forall|a: int, b: int| 0 <= a < b < e2.len() implies (#[trigger] e2[a]).0 != (#[trigger] e2[b]).0 by {
                    assert(e[a].0 != e[b].0);
                }
                lemma_extra_at(e2, name, i);
            } else {
                let e2 = e.push((name, value));
                assert forall|a: int, b: int| 0 <= a < b < e2.len() implies (#[trigger] e2[a]).0 != (#[trigger] e2[b]).0 by {
                    if b < e.len() {
                        assert(e[a].0 != e[b].0);
                    } else {
                        assert(e2[a] == e[a]);
                    }
                }
                lemma_extra_at(e2, name, e.len() as int);
            }
        },
    }
}

/// A removed name reads as unset.
pub proof fn lemma_remove_flag_then_get_flag(f: EventFlagsView, name: Seq<char>, named_bit: Option<u16>)
    requires
        flags_wf(f),
    ensures
        match spec_bit_for_name(name, named_bit) {
            Some(bit) => !spec_get_bit(spec_set_bit(f.bits, bit, false), bit),
            None => spec_extra(spec_remove_extra(f.extras, name), name) is None,
        },
{
    match spec_bit_for_name(name, named_bit) {
        Some(bit) => {
            if (bit as int) / 8 < EVENT_FLAGS_SIZE {
                lemma_set_bit_exact(f.bits, bit, false, bit);
            }
        },
        None => {
            let e = f.extras;
            if exists|i: int| 0 <= i < e.len() && (#[trigger] e[i]).0 == name {
                let i = choose|i: int| 0 <= i < e.len() && (#[trigger] e[i]).0 == name;
                lemma_extra_at(e, name, i);
                let e2 = e.remove(i);
                assert forall|j: int| 0 <= j < e2.len() implies (#[trigger] e2[j]).0 != name by {
                    let v = if j < i { j } else { j + 1 };
                    assert(e2[j] == e[v]);
                    if v < i {
                        assert(e[v].0 != e[i].0);
                    } else {
                        assert(e[i].0 != e[v].0);
                    }
                }
            }
        },
    }
}

} // verus!
