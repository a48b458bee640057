//! Object identifiers: comparison, text form, and the transport's request identifier.

use vstd::prelude::*;
use csnmp::{ObjectIdentifier, ObjectIdentifierConversionError};

verus! {

#[verifier::external_type_specification]
#[verifier::external_body]
pub struct ExObjectIdentifier(ObjectIdentifier);

#[verifier::external_type_specification]
#[verifier::external_body]
pub struct ExObjectIdentifierConversionError(ObjectIdentifierConversionError);

/// The most arcs a request identifier can carry.
pub const MAX_ARCS: usize = 128;

/// `o` equals the first `n` arcs of `q`, and `q` has at least `n` arcs.
pub open spec fn level_match(q: Seq<u16>, n: int, o: Seq<u16>) -> bool {
    &&& 0 <= n <= q.len()
    &&& q.subrange(0, n) == o
}

/// Exact equality of two identifiers.
pub fn same_oid(a: &[u16], b: &[u16]) -> (r: bool)
    ensures
        r == (a@ == b@),
{
    if a.len() != b.len() {
        return false;
    }
    let mut i: usize = 0;
    while i < a.len()
        invariant
            a.len() == b.len(),
            i <= a.len(),
            forall|k: int| 0 <= k < i ==> a@[k] == b@[k],
        decreases a.len() - i,
    {
        if a[i] != b[i] {
            return false;
        }
        i += 1;
    }
    assert(a@ =~= b@);
    true
}

/// Whether the first `n` arcs of `q` are exactly `o`; false when `q` is shorter than `n`.
pub fn level_matches(q: &[u16], n: usize, o: &[u16]) -> (r: bool)
    ensures
        r == level_match(q@, n as int, o@),
{
    if q.len() < n || o.len() != n {
        return false;
    }
    let mut i: usize = 0;
    while i < n
        invariant
            n <= q.len(),
            o.len() == n,
            i <= n,
            forall|k: int| 0 <= k < i ==> q@[k] == o@[k],
        decreases n - i,
    {
        if q[i] != o[i] {
            assert(q@.subrange(0, n as int)[i as int] != o@[i as int]);
            return false;
        }
        i += 1;
    }
    assert(q@.subrange(0, n as int) =~= o@);
    true
}

/// The decimal digit character of `d`.
pub open spec fn digit_char(d: nat) -> char {
    if d == 0 { '0' }
    else if d == 1 { '1' }
    else if d == 2 { '2' }
    else if d == 3 { '3' }
    else if d == 4 { '4' }
    else if d == 5 { '5' }
    else if d == 6 { '6' }
    else if d == 7 { '7' }
    else if d == 8 { '8' }
    else { '9' }
}

/// The decimal text of `n`, without leading zeros.
pub open spec fn decimal(n: nat) -> Seq<char>
    decreases n,
{
    if n < 10 {
        seq![digit_char(n)]
    } else {
        decimal(n / 10) + seq![digit_char(n % 10)]
    }
}

/// The dotted text of an identifier: its arcs in decimal, joined by `.`.
pub open spec fn dotted(o: Seq<u16>) -> Seq<char>
    decreases o.len(),
{
    if o.len() == 0 {
        seq![]
    } else if o.len() == 1 {
        decimal(o[0] as nat)
    } else {
        dotted(o.drop_last()) + seq!['.'] + decimal(o.last() as nat)
    }
}

fn digit_str(d: u16) -> (r: &'static str)
    requires
        d < 10,
    ensures
        r@ == seq![digit_char(d as nat)],
{
    proof {
        reveal_strlit("0");
        reveal_strlit("1");
        reveal_strlit("2");
        reveal_strlit("3");
        reveal_strlit("4");
        reveal_strlit("5");
        reveal_strlit("6");
        reveal_strlit("7");
        reveal_strlit("8");
        reveal_strlit("9");
    }
    if d == 0 { "0" }
    else if d == 1 { "1" }
    else if d == 2 { "2" }
    else if d == 3 { "3" }
    else if d == 4 { "4" }
    else if d == 5 { "5" }
    else if d == 6 { "6" }
    else if d == 7 { "7" }
    else if d == 8 { "8" }
    else { "9" }
}

fn append_decimal(s: &mut String, n: u16)
    ensures
        final(s)@ == old(s)@ + decimal(n as nat),
    decreases n,
{
    if n >= 10 {
        append_decimal(s, n / 10);
    }
    s.append(digit_str(n % 10));
}

/// The dotted text of an identifier, as `1.3.6.1.2.1`.
pub fn oid_string(o: &[u16]) -> (r: String)
    ensures
        r@ == dotted(o@),
{
    let mut s = String::new();
    let mut i: usize = 0;
    while i < o.len()
        invariant
            i <= o.len(),
            s@ == dotted(o@.subrange(0, i as int)),
        decreases o.len() - i,
    {
        let ghost before = o@.subrange(0, i as int);
        if i > 0 {
            proof { reveal_strlit("."); }
            s.append(".");
        }
        append_decimal(&mut s, o[i]);
        proof {
            let after = o@.subrange(0, i + 1);
            assert(after.drop_last() =~= before);
            assert(after.last() == o@[i as int]);
            assert(s@ =~= dotted(after));
        }
        i += 1;
    }
    assert(o@.subrange(0, o.len() as int) =~= o@);
    s
}

/// Relies on csnmp's `TryFrom<&[u32]>` for `ObjectIdentifier`: it accepts every arc list of
/// at most 128 arcs and refuses longer ones.
#[verifier::external_body]
fn object_identifier(o: &[u16]) -> (r: Result<ObjectIdentifier, ObjectIdentifierConversionError>)
    ensures
        r is Ok <==> o@.len() <= MAX_ARCS,
{
    let arcs: Vec<u32> = o.iter().map(|a| *a as u32).collect();
    ObjectIdentifier::try_from(arcs.as_slice())
}

/// The identifier that a subtree request for `o` is rooted at; `None` when `o` has too many
/// arcs to be one.
pub fn request_identifier(o: &[u16]) -> (r: Option<ObjectIdentifier>)
    ensures
        r is Some <==> o@.len() <= MAX_ARCS,
{
    match object_identifier(o) {
        Ok(id) => Some(id),
        Err(_) => None,
    }
}

/// The arc that extends an identifier is its last.
pub broadcast proof fn lemma_push_last<T>(s: Seq<T>, a: T)
    ensures
        (#[trigger] s.push(a))[s.len() as int] == a,
{
}

/// Extending an identifier keeps its leading arcs.
pub broadcast proof fn lemma_push_prefix<T>(s: Seq<T>, a: T, k: int)
    requires
        0 <= k <= s.len(),
    ensures
        (#[trigger] s.push(a).subrange(0, k)) == s.subrange(0, k),
{
    assert(s.push(a).subrange(0, k) =~= s.subrange(0, k));
}

/// All the leading arcs of an identifier are the identifier.
pub broadcast proof fn lemma_subrange_all<T>(s: Seq<T>)
    ensures
        (#[trigger] s.subrange(0, s.len() as int)) == s,
{
    assert(s.subrange(0, s.len() as int) =~= s);
}

} // verus!
