//! Decoding the wire values of a subtree walk into a leaf's own encoding.

use vstd::prelude::*;
use vstd::utf8::{decode_utf8, valid_utf8};
use crate::value::{
    Ipv6, Leaf, Mac, MibValue, Values, WireValue, wire_bytes, wire_i32, wire_ipv4, wire_oid, wire_u32,
    wire_u64,
};

verus! {

/// Why a leaf could not be walked; its values then stay as they were.
#[derive(Clone, Copy, Debug, PartialEq, Eq, Structural)]
pub enum WalkError {
    /// The leaf's identifier cannot be turned into a request identifier.
    RequestIdentifier,
    /// The subtree request itself failed.
    Transport,
    /// No outcome was recorded for the leaf.
    Missing,
}

pub open spec fn is_digit(b: u8) -> bool {
    48 <= b <= 57
}

/// The number that a run of decimal digits spells.
pub open spec fn digits_value(d: Seq<u8>) -> nat
    decreases d.len(),
{
    if d.len() == 0 {
        0
    } else {
        digits_value(d.drop_last()) * 10 + (d.last() - 48) as nat
    }
}

/// The digits of a field: the field without one leading `+`.
pub open spec fn unsigned_digits(s: Seq<u8>) -> Seq<u8> {
    if s.len() > 0 && s[0] == 43 {
        s.drop_first()
    } else {
        s
    }
}

/// A field read as an unsigned 16-bit decimal: an optional `+`, then at least one digit and
/// nothing else, at most 65535.
pub open spec fn parse_u16(s: Seq<u8>) -> Option<u16> {
    if unsigned_digits(s).len() > 0 && all_digits(unsigned_digits(s))
        && digits_value(unsigned_digits(s)) <= 65535 {
        Some(digits_value(unsigned_digits(s)) as u16)
    } else {
        None
    }
}

pub open spec fn all_digits(d: Seq<u8>) -> bool {
    forall|k: int| 0 <= k < d.len() ==> is_digit(#[trigger] d[k])
}

/// A field's number, or 0 where the field is no such number.
pub open spec fn field_or_zero(s: Seq<u8>) -> u16 {
    match parse_u16(s) {
        Some(v) => v,
        None => 0,
    }
}

/// The pieces of `s` between `.` separators; there is always at least one.
pub open spec fn split_dots(s: Seq<u8>) -> Seq<Seq<u8>>
    decreases s.len(),
{
    if s.len() == 0 {
        seq![seq![]]
    } else {
        let p = split_dots(s.drop_last());
        if s.last() == 46 {
            p.push(seq![])
        } else {
            p.update(p.len() - 1, p.last().push(s.last()))
        }
    }
}

/// The numbers of the `.`-separated fields of `s`.
pub open spec fn dotted_fields(s: Seq<u8>) -> Seq<u16> {
    split_dots(s).map_values(|p: Seq<u8>| field_or_zero(p))
}

proof fn lemma_digits_value_prefix(d: Seq<u8>, k: int)
    requires
        0 <= k <= d.len(),
        forall|j: int| 0 <= j < d.len() ==> is_digit(#[trigger] d[j]),
    ensures
        digits_value(d.subrange(0, k)) <= digits_value(d),
    decreases d.len(),
{
    if k < d.len() {
        let e = d.drop_last();
        assert(e.subrange(0, k) =~= d.subrange(0, k));
        assert forall|j: int| 0 <= j < e.len() implies is_digit(#[trigger] e[j]) by {
            assert(e[j] == d[j]);
        }
        lemma_digits_value_prefix(e, k);
    } else {
        assert(d.subrange(0, k) =~= d);
    }
}

/// Reads a field as an unsigned 16-bit decimal.
pub fn parse_field(p: &[u8]) -> (r: Option<u16>)
    ensures
        r == parse_u16(p@),
{
    let start: usize = if p.len() > 0 && p[0] == 43 { 1 } else { 0 };
    let ghost d = unsigned_digits(p@);
    assert(d =~= p@.subrange(start as int, p@.len() as int));
    if start == p.len() {
        return None;
    }
    let mut acc: u32 = 0;
    let mut i: usize = start;
    while i < p.len()
        invariant
            start <= i <= p.len(),
            d == p@.subrange(start as int, p@.len() as int),
            d == unsigned_digits(p@),
            forall|k: int| start <= k < i ==> is_digit(#[trigger] p@[k]),
            acc as nat == digits_value(p@.subrange(start as int, i as int)),
            acc <= 65535,
        decreases p.len() - i,
    {
        let b = p[i];
        if b < 48 || b > 57 {
            assert(d[i - start] == b);
            assert(!all_digits(d));
            return None;
        }
        let ghost before = p@.subrange(start as int, i as int);
        let ghost after = p@.subrange(start as int, i + 1);
        assert(after.drop_last() =~= before);
        acc = acc * 10 + (b - 48) as u32;
        if acc > 65535 {
            assert(after =~= d.subrange(0, i + 1 - start));
            proof {
                if all_digits(d) {
                    lemma_digits_value_prefix(d, i + 1 - start);
                    assert(digits_value(d) > 65535);
                }
            }
            return None;
        }
        i += 1;
    }
    assert(p@.subrange(start as int, p@.len() as int) =~= d);
    assert forall|k: int| 0 <= k < d.len() implies is_digit(#[trigger] d[k]) by {
        assert(d[k] == p@[k + start]);
    };
    Some(acc as u16)
}


/// The numbers of the `.`-separated fields of `b`, each 0 where it is not a 16-bit decimal.
pub fn split_fields(b: &[u8]) -> (r: Vec<u16>)
    ensures
        r@ == dotted_fields(b@),
{
    let mut out: Vec<u16> = Vec::new();
    let mut cur: Vec<u8> = Vec::new();
    let ghost mut done: Seq<Seq<u8>> = seq![];
    let mut i: usize = 0;
    while i < b.len()
        invariant
            i <= b.len(),
            split_dots(b@.subrange(0, i as int)) == done.push(cur@),
            out@ == done.map_values(|p: Seq<u8>| field_or_zero(p)),
        decreases b.len() - i,
    {
        let ghost pre = b@.subrange(0, i as int);
        let ghost post = b@.subrange(0, i + 1);
        assert(post.drop_last() =~= pre);
        assert(post.last() == b@[i as int]);
        if b[i] == 46 {
            let f = match parse_field(cur.as_slice()) {
                Some(v) => v,
                None => 0,
            };
            out.push(f);
            proof {
                done = done.push(cur@);
            }
            cur = Vec::new();
            assert(out@ =~= done.map_values(|p: Seq<u8>| field_or_zero(p)));
            assert(split_dots(post) =~= done.push(cur@));
        } else {
            cur.push(b[i]);
            assert(split_dots(post) =~= done.push(cur@));
        }
        i += 1;
    }
    let f = match parse_field(cur.as_slice()) {
        Some(v) => v,
        None => 0,
    };
    out.push(f);
    assert(b@.subrange(0, b@.len() as int) =~= b@);
    assert(out@ =~= done.push(cur@).map_values(|p: Seq<u8>| field_or_zero(p)));
    out
}

/// Relies on std's `String::from_utf8`: it accepts exactly the valid UTF-8 byte strings and
/// yields the text they encode.
#[verifier::external_body]
fn utf8_text(b: &Vec<u8>) -> (r: Option<String>)
    ensures
        r is Some <==> valid_utf8(b@),
        r matches Some(s) ==> s@ == decode_utf8(b@),
{
    String::from_utf8(b.clone()).ok()
}

/// The text that stands for a value that is no valid text.
pub open spec fn err_text() -> Seq<char> {
    seq!['e', 'r', 'r']
}

pub open spec fn text_of(w: WireValue) -> Seq<char> {
    match wire_bytes(w) {
        Some(b) => if valid_utf8(b) { decode_utf8(b) } else { err_text() },
        None => err_text(),
    }
}

pub open spec fn i32_of(w: WireValue) -> i32 {
    match wire_i32(w) {
        Some(v) => v,
        None => 0,
    }
}

pub open spec fn u32_of(w: WireValue) -> u32 {
    match wire_u32(w) {
        Some(v) => v,
        None => 0,
    }
}

pub open spec fn u64_of(w: WireValue) -> u64 {
    match wire_u64(w) {
        Some(v) => v,
        None => 0,
    }
}

/// An identifier value, one byte per arc (each arc cut to its low eight bits); empty when the
/// value is no identifier.
pub open spec fn arcs_of(w: WireValue) -> Seq<u8> {
    match wire_oid(w) {
        Some(o) => o.map_values(|a: u32| a as u8),
        None => seq![],
    }
}

pub open spec fn ipv4_of(w: WireValue) -> (u8, u8, u8, u8) {
    match wire_ipv4(w) {
        Some(a) => a,
        None => (0, 0, 0, 0),
    }
}

/// The dotted fields of a value that is valid text; `None` otherwise.
pub open spec fn text_fields(w: WireValue) -> Option<Seq<u16>> {
    match wire_bytes(w) {
        Some(b) => if valid_utf8(b) { Some(dotted_fields(b)) } else { None },
        None => None,
    }
}

pub open spec fn mac_of(w: WireValue) -> Mac {
    match text_fields(w) {
        Some(f) => if f.len() == 6 { (f[0], f[1], f[2], f[3], f[4], f[5]) } else { (0, 0, 0, 0, 0, 0) },
        None => (0, 0, 0, 0, 0, 0),
    }
}

pub open spec fn ipv6_of(w: WireValue) -> Ipv6 {
    match text_fields(w) {
        Some(f) => if f.len() == 8 {
            (f[0], f[1], f[2], f[3], f[4], f[5], f[6], f[7])
        } else {
            (0, 0, 0, 0, 0, 0, 0, 0)
        },
        None => (0, 0, 0, 0, 0, 0, 0, 0),
    }
}

impl Values {
    /// The values that a walk returning `raw` gives a leaf of this encoding, in order.
    pub open spec fn decoded(self, raw: Seq<WireValue>) -> Values {
        match self {
            Values::Text(_) => Values::Text(raw.map_values(|w: WireValue| text_of(w))),
            Values::I32(_) => Values::I32(raw.map_values(|w: WireValue| i32_of(w))),
            Values::U32(_) => Values::U32(raw.map_values(|w: WireValue| u32_of(w))),
            Values::U64(_) => Values::U64(raw.map_values(|w: WireValue| u64_of(w))),
            Values::Oid(_) => Values::Oid(raw.map_values(|w: WireValue| arcs_of(w))),
            Values::Ipv4(_) => Values::Ipv4(raw.map_values(|w: WireValue| ipv4_of(w))),
            Values::Mac(_) => Values::Mac(raw.map_values(|w: WireValue| mac_of(w))),
            Values::Ipv6(_) => Values::Ipv6(raw.map_values(|w: WireValue| ipv6_of(w))),
        }
    }

    /// Whether `w` is a well-formed element for this encoding.
    pub open spec fn accepts(self, w: WireValue) -> bool {
        match self {
            Values::Text(_) => wire_bytes(w) matches Some(b) && valid_utf8(b),
            Values::I32(_) => wire_i32(w) is Some,
            Values::U32(_) => wire_u32(w) is Some,
            Values::U64(_) => wire_u64(w) is Some,
            Values::Oid(_) => wire_oid(w) is Some,
            Values::Ipv4(_) => wire_ipv4(w) is Some,
            Values::Mac(_) => text_fields(w) matches Some(f) && f.len() == 6,
            Values::Ipv6(_) => text_fields(w) matches Some(f) && f.len() == 8,
        }
    }

    /// The one-row value that stands in for a malformed element of this encoding.
    pub open spec fn zero_row(self) -> Values {
        match self {
            Values::Text(_) => Values::Text(seq![err_text()]),
            Values::I32(_) => Values::I32(seq![0i32]),
            Values::U32(_) => Values::U32(seq![0u32]),
            Values::U64(_) => Values::U64(seq![0u64]),
            Values::Oid(_) => Values::Oid(seq![Seq::<u8>::empty()]),
            Values::Ipv4(_) => Values::Ipv4(seq![(0u8, 0u8, 0u8, 0u8)]),
            Values::Mac(_) => Values::Mac(seq![(0u16, 0u16, 0u16, 0u16, 0u16, 0u16)]),
            Values::Ipv6(_) => Values::Ipv6(seq![(0u16, 0u16, 0u16, 0u16, 0u16, 0u16, 0u16, 0u16)]),
        }
    }
}

fn err_string() -> (r: String)
    ensures
        r@ == err_text(),
{
    proof {
        reveal_strlit("err");
    }
    let s = String::from_str("err");
    assert(s@ =~= err_text());
    s
}

/// One value decoded as text, `"err"` where it is no valid text.
pub fn decode_text(w: &WireValue) -> (r: String)
    ensures
        r@ == text_of(*w),
{
    match w {
        WireValue::String(b) | WireValue::Opaque(b) => match utf8_text(b) {
            Some(s) => s,
            None => err_string(),
        },
        _ => err_string(),
    }
}

/// One value decoded as an identifier, one byte per arc; empty where it is no identifier.
pub fn decode_arcs(w: &WireValue) -> (r: Vec<u8>)
    ensures
        r@ == arcs_of(*w),
{
    match w {
        WireValue::ObjectId(o) => {
            let mut r: Vec<u8> = Vec::new();
            let mut i: usize = 0;
            while i < o.len()
                invariant
                    i <= o.len(),
                    r@ == o@.subrange(0, i as int).map_values(|a: u32| a as u8),
                decreases o.len() - i,
            {
                r.push(o[i] as u8);
                assert(r@ =~= o@.subrange(0, i + 1).map_values(|a: u32| a as u8));
                i += 1;
            }
            assert(o@.subrange(0, o.len() as int) =~= o@);
            r
        },
        _ => Vec::new(),
    }
}

/// One value decoded as a six-word tuple from its dotted text; all zeros where that fails.
pub fn decode_mac(w: &WireValue) -> (r: Mac)
    ensures
        r == mac_of(*w),
{
    match w {
        WireValue::String(b) | WireValue::Opaque(b) => match utf8_text(b) {
            Some(_) => {
                let f = split_fields(b.as_slice());
                if f.len() == 6 {
                    (f[0], f[1], f[2], f[3], f[4], f[5])
                } else {
                    (0, 0, 0, 0, 0, 0)
                }
            },
            None => (0, 0, 0, 0, 0, 0),
        },
        _ => (0, 0, 0, 0, 0, 0),
    }
}

/// One value decoded as an eight-word tuple from its dotted text; all zeros where that fails.
pub fn decode_ipv6(w: &WireValue) -> (r: Ipv6)
    ensures
        r == ipv6_of(*w),
{
    match w {
        WireValue::String(b) | WireValue::Opaque(b) => match utf8_text(b) {
            Some(_) => {
                let f = split_fields(b.as_slice());
                if f.len() == 8 {
                    (f[0], f[1], f[2], f[3], f[4], f[5], f[6], f[7])
                } else {
                    (0, 0, 0, 0, 0, 0, 0, 0)
                }
            },
            None => (0, 0, 0, 0, 0, 0, 0, 0),
        },
        _ => (0, 0, 0, 0, 0, 0, 0, 0),
    }
}

fn decode_texts(raw: &Vec<WireValue>) -> (r: Vec<String>)
    ensures
        r@.map_values(|s: String| s@) == raw@.map_values(|w: WireValue| text_of(w)),
{
    let mut r: Vec<String> = Vec::new();
    let mut i: usize = 0;
    while i < raw.len()
        invariant
            i <= raw.len(),
            r@.len() == i,
            forall|k: int| 0 <= k < i ==> #[trigger] r@[k]@ == text_of(raw@[k]),
        decreases raw.len() - i,
    {
        let v = decode_text(&raw[i]);
        r.push(v);
        i += 1;
    }
    assert(r@.map_values(|s: String| s@) =~= raw@.map_values(|w: WireValue| text_of(w)));
    r
}

fn decode_i32s(raw: &Vec<WireValue>) -> (r: Vec<i32>)
    ensures
        r@ == raw@.map_values(|w: WireValue| i32_of(w)),
{
    let mut r: Vec<i32> = Vec::new();
    let mut i: usize = 0;
    while i < raw.len()
        invariant
            i <= raw.len(),
            r@.len() == i,
            forall|k: int| 0 <= k < i ==> #[trigger] r@[k] == i32_of(raw@[k]),
        decreases raw.len() - i,
    {
        let v = match &raw[i] { WireValue::Integer(v) => *v, _ => 0 };
        r.push(v);
        i += 1;
    }
    assert(r@ =~= raw@.map_values(|w: WireValue| i32_of(w)));
    r
}

fn decode_u32s(raw: &Vec<WireValue>) -> (r: Vec<u32>)
    ensures
        r@ == raw@.map_values(|w: WireValue| u32_of(w)),
{
    let mut r: Vec<u32> = Vec::new();
    let mut i: usize = 0;
    while i < raw.len()
        invariant
            i <= raw.len(),
            r@.len() == i,
            forall|k: int| 0 <= k < i ==> #[trigger] r@[k] == u32_of(raw@[k]),
        decreases raw.len() - i,
    {
        let v = match &raw[i] {
                WireValue::Counter32(v) => *v,
                WireValue::Unsigned32(v) => *v,
                WireValue::TimeTicks(v) => *v,
                _ => 0,
            };
        r.push(v);
        i += 1;
    }
    assert(r@ =~= raw@.map_values(|w: WireValue| u32_of(w)));
    r
}

fn decode_u64s(raw: &Vec<WireValue>) -> (r: Vec<u64>)
    ensures
        r@ == raw@.map_values(|w: WireValue| u64_of(w)),
{
    let mut r: Vec<u64> = Vec::new();
    let mut i: usize = 0;
    while i < raw.len()
        invariant
            i <= raw.len(),
            r@.len() == i,
            forall|k: int| 0 <= k < i ==> #[trigger] r@[k] == u64_of(raw@[k]),
        decreases raw.len() - i,
    {
        let v = match &raw[i] {
                WireValue::Counter32(v) => *v as u64,
                WireValue::Unsigned32(v) => *v as u64,
                WireValue::TimeTicks(v) => *v as u64,
                WireValue::Counter64(v) => *v,
                _ => 0,
            };
        r.push(v);
        i += 1;
    }
    assert(r@ =~= raw@.map_values(|w: WireValue| u64_of(w)));
    r
}

fn decode_identifiers(raw: &Vec<WireValue>) -> (r: Vec<Vec<u8>>)
    ensures
        r@.map_values(|b: Vec<u8>| b@) == raw@.map_values(|w: WireValue| arcs_of(w)),
{
    let mut r: Vec<Vec<u8>> = Vec::new();
    let mut i: usize = 0;
    while i < raw.len()
        invariant
            i <= raw.len(),
            r@.len() == i,
            forall|k: int| 0 <= k < i ==> #[trigger] r@[k]@ == arcs_of(raw@[k]),
        decreases raw.len() - i,
    {
        let v = decode_arcs(&raw[i]);
        r.push(v);
        i += 1;
    }
    assert(r@.map_values(|b: Vec<u8>| b@) =~= raw@.map_values(|w: WireValue| arcs_of(w)));
    r
}

fn decode_ipv4s(raw: &Vec<WireValue>) -> (r: Vec<(u8, u8, u8, u8)>)
    ensures
        r@ == raw@.map_values(|w: WireValue| ipv4_of(w)),
{
    let mut r: Vec<(u8, u8, u8, u8)> = Vec::new();
    let mut i: usize = 0;
    while i < raw.len()
        invariant
            i <= raw.len(),
            r@.len() == i,
            forall|k: int| 0 <= k < i ==> #[trigger] r@[k] == ipv4_of(raw@[k]),
        decreases raw.len() - i,
    {
        let v = match &raw[i] { WireValue::IpAddress(a, b, c, d) => (*a, *b, *c, *d), _ => (0, 0, 0, 0) };
        r.push(v);
        i += 1;
    }
    assert(r@ =~= raw@.map_values(|w: WireValue| ipv4_of(w)));
    r
}

fn decode_macs(raw: &Vec<WireValue>) -> (r: Vec<Mac>)
    ensures
        r@ == raw@.map_values(|w: WireValue| mac_of(w)),
{
    let mut r: Vec<Mac> = Vec::new();
    let mut i: usize = 0;
    while i < raw.len()
        invariant
            i <= raw.len(),
            r@.len() == i,
            forall|k: int| 0 <= k < i ==> #[trigger] r@[k] == mac_of(raw@[k]),
        decreases raw.len() - i,
    {
        let v = decode_mac(&raw[i]);
        r.push(v);
        i += 1;
    }
    assert(r@ =~= raw@.map_values(|w: WireValue| mac_of(w)));
    r
}

fn decode_ipv6s(raw: &Vec<WireValue>) -> (r: Vec<Ipv6>)
    ensures
        r@ == raw@.map_values(|w: WireValue| ipv6_of(w)),
{
    let mut r: Vec<Ipv6> = Vec::new();
    let mut i: usize = 0;
    while i < raw.len()
        invariant
            i <= raw.len(),
            r@.len() == i,
            forall|k: int| 0 <= k < i ==> #[trigger] r@[k] == ipv6_of(raw@[k]),
        decreases raw.len() - i,
    {
        let v = decode_ipv6(&raw[i]);
        r.push(v);
        i += 1;
    }
    assert(r@ =~= raw@.map_values(|w: WireValue| ipv6_of(w)));
    r
}

impl MibValue {
    /// Replaces the values with those decoded from the results of a subtree walk, in order.
    /// An element that does not fit the leaf's encoding becomes the encoding's stand-in value;
    /// no element fails the decode.
    pub fn decode(&mut self, raw: &Vec<WireValue>)
        ensures
            final(self)@ == (Leaf { values: old(self)@.values.decoded(raw@), ..old(self)@ }),
            final(self)@.values.len() == raw@.len(),
            forall|i: int|
                0 <= i < raw@.len() && !old(self)@.values.accepts(#[trigger] raw@[i])
                    ==> final(self)@.values.row(i) == old(self)@.values.zero_row(),
    {
        match self {
            MibValue::string(m) => {
                m.value = decode_texts(raw);
            },
            MibValue::inti32(m) => {
                m.value = decode_i32s(raw);
            },
            MibValue::intu32(m) => {
                m.value = decode_u32s(raw);
            },
            MibValue::intu64(m) => {
                m.value = decode_u64s(raw);
            },
            MibValue::oid(m) => {
                m.value = decode_identifiers(raw);
            },
            MibValue::ipv4(m) => {
                m.value = decode_ipv4s(raw);
            },
            MibValue::mac(m) => {
                m.value = decode_macs(raw);
            },
            MibValue::ipv6(m) => {
                m.value = decode_ipv6s(raw);
            },
        }
    }

    /// Takes in the outcome of this leaf's subtree walk: the decoded results when the walk
    /// succeeded, the values left as they were when it failed.
    pub fn apply_walk(&mut self, outcome: &Result<Vec<WireValue>, WalkError>) -> (r: Result<(), WalkError>)
        ensures
            outcome matches Ok(raw) ==> r is Ok && final(self)@ == (Leaf {
                values: old(self)@.values.decoded(raw@),
                ..old(self)@
            }),
            outcome matches Err(e) ==> r == Err::<(), WalkError>(*e) && final(self)@ == old(self)@,
    {
        match outcome {
            Ok(raw) => {
                self.decode(raw);
                Ok(())
            },
            Err(e) => Err(*e),
        }
    }
}

} // verus!
