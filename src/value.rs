//! Typed leaf values of the MIB tree and the wire values they are decoded from.

use vstd::prelude::*;
use crate::oid::{dotted, oid_string, same_oid};

verus! {

/// A value as the transport hands it over, one variant per wire encoding.
#[derive(Debug)]
pub enum WireValue {
    Integer(i32),
    String(Vec<u8>),
    ObjectId(Vec<u32>),
    IpAddress(u8, u8, u8, u8),
    Counter32(u32),
    Unsigned32(u32),
    TimeTicks(u32),
    Opaque(Vec<u8>),
    Counter64(u64),
}

/// The signed reading of a wire value: only `Integer` has one.
pub open spec fn wire_i32(w: WireValue) -> Option<i32> {
    match w {
        WireValue::Integer(i) => Some(i),
        _ => None,
    }
}

/// The 32-bit unsigned reading: counters, gauges and time ticks.
pub open spec fn wire_u32(w: WireValue) -> Option<u32> {
    match w {
        WireValue::Counter32(i) => Some(i),
        WireValue::Unsigned32(i) => Some(i),
        WireValue::TimeTicks(i) => Some(i),
        _ => None,
    }
}

/// The 64-bit unsigned reading: every unsigned encoding, widened.
pub open spec fn wire_u64(w: WireValue) -> Option<u64> {
    match w {
        WireValue::Counter32(i) => Some(i as u64),
        WireValue::Unsigned32(i) => Some(i as u64),
        WireValue::TimeTicks(i) => Some(i as u64),
        WireValue::Counter64(i) => Some(i),
        _ => None,
    }
}

/// The octet-string reading: strings and opaque blobs.
pub open spec fn wire_bytes(w: WireValue) -> Option<Seq<u8>> {
    match w {
        WireValue::String(b) => Some(b@),
        WireValue::Opaque(b) => Some(b@),
        _ => None,
    }
}

/// The object-identifier reading.
pub open spec fn wire_oid(w: WireValue) -> Option<Seq<u32>> {
    match w {
        WireValue::ObjectId(o) => Some(o@),
        _ => None,
    }
}

/// The IPv4-address reading.
pub open spec fn wire_ipv4(w: WireValue) -> Option<(u8, u8, u8, u8)> {
    match w {
        WireValue::IpAddress(a, b, c, d) => Some((a, b, c, d)),
        _ => None,
    }
}

pub type Mac = (u16, u16, u16, u16, u16, u16);

pub type Ipv6 = (u16, u16, u16, u16, u16, u16, u16, u16);

/// A leaf holding display strings.
pub struct mvstring {
    pub name: String,
    pub oid: Vec<u16>,
    pub mutable: bool,
    pub value: Vec<String>,
}

/// A leaf holding signed 32-bit integers.
pub struct mvinti32 {
    pub name: String,
    pub oid: Vec<u16>,
    pub mutable: bool,
    pub value: Vec<i32>,
}

/// A leaf holding unsigned 32-bit counters, gauges or time ticks.
pub struct mvintu32 {
    pub name: String,
    pub oid: Vec<u16>,
    pub mutable: bool,
    pub value: Vec<u32>,
}

/// A leaf holding unsigned 64-bit counters.
pub struct mvintu64 {
    pub name: String,
    pub oid: Vec<u16>,
    pub mutable: bool,
    pub value: Vec<u64>,
}

/// A leaf holding object identifiers, one byte per arc.
pub struct mvoid {
    pub name: String,
    pub oid: Vec<u16>,
    pub mutable: bool,
    pub value: Vec<Vec<u8>>,
}

/// A leaf holding IPv4 addresses.
pub struct mvipv4 {
    pub name: String,
    pub oid: Vec<u16>,
    pub mutable: bool,
    pub value: Vec<(u8, u8, u8, u8)>,
}

/// A leaf holding six-word tuples.
pub struct mvmac {
    pub name: String,
    pub oid: Vec<u16>,
    pub mutable: bool,
    pub value: Vec<Mac>,
}

/// A leaf holding eight-word tuples.
pub struct mvipv6 {
    pub name: String,
    pub oid: Vec<u16>,
    pub mutable: bool,
    pub value: Vec<Ipv6>,
}

/// One addressable leaf of the tree: a scalar (one value) or a table column (one value per row).
pub enum MibValue {
    string(mvstring),
    inti32(mvinti32),
    intu32(mvintu32),
    intu64(mvintu64),
    oid(mvoid),
    ipv4(mvipv4),
    mac(mvmac),
    ipv6(mvipv6),
}

/// The values of a leaf, by encoding.
pub enum Values {
    Text(Seq<Seq<char>>),
    I32(Seq<i32>),
    U32(Seq<u32>),
    U64(Seq<u64>),
    Oid(Seq<Seq<u8>>),
    Ipv4(Seq<(u8, u8, u8, u8)>),
    Mac(Seq<Mac>),
    Ipv6(Seq<Ipv6>),
}

impl Values {
    pub open spec fn len(self) -> nat {
        match self {
            Values::Text(v) => v.len(),
            Values::I32(v) => v.len(),
            Values::U32(v) => v.len(),
            Values::U64(v) => v.len(),
            Values::Oid(v) => v.len(),
            Values::Ipv4(v) => v.len(),
            Values::Mac(v) => v.len(),
            Values::Ipv6(v) => v.len(),
        }
    }

    /// The single value at `i`, in the same encoding.
    pub open spec fn row(self, i: int) -> Values {
        match self {
            Values::Text(v) => Values::Text(seq![v[i]]),
            Values::I32(v) => Values::I32(seq![v[i]]),
            Values::U32(v) => Values::U32(seq![v[i]]),
            Values::U64(v) => Values::U64(seq![v[i]]),
            Values::Oid(v) => Values::Oid(seq![v[i]]),
            Values::Ipv4(v) => Values::Ipv4(seq![v[i]]),
            Values::Mac(v) => Values::Mac(seq![v[i]]),
            Values::Ipv6(v) => Values::Ipv6(seq![v[i]]),
        }
    }

    /// The numeric values widened to `i64`; `None` for encodings that are not numeric.
    pub open spec fn as_i64s(self) -> Option<Seq<i64>> {
        match self {
            Values::I32(v) => Some(v.map_values(|x: i32| x as i64)),
            Values::U32(v) => Some(v.map_values(|x: u32| x as i64)),
            Values::U64(v) => Some(v.map_values(|x: u64| x as i64)),
            _ => None,
        }
    }
}

/// What a leaf is, in mathematical terms.
pub struct Leaf {
    pub name: Seq<char>,
    pub oid: Seq<u16>,
    pub mutable: bool,
    pub values: Values,
}

impl Leaf {
    /// The single-row leaf that a table column yields for row `i`.
    pub open spec fn row(self, i: int) -> Leaf {
        Leaf { values: self.values.row(i), ..self }
    }

    /// A leaf as the schema declares it: the given metadata and no values yet.
    pub open spec fn declared(self, name: Seq<char>, oid: Seq<u16>, mutable: bool) -> bool {
        &&& self.name == name
        &&& self.oid == oid
        &&& self.mutable == mutable
        &&& self.values.len() == 0
    }
}

impl View for MibValue {
    type V = Leaf;

    open spec fn view(&self) -> Leaf {
        match self {
            MibValue::string(m) => Leaf {
                name: m.name@,
                oid: m.oid@,
                mutable: m.mutable,
                values: Values::Text(m.value@.map_values(|s: String| s@)),
            },
            MibValue::inti32(m) => Leaf {
                name: m.name@,
                oid: m.oid@,
                mutable: m.mutable,
                values: Values::I32(m.value@),
            },
            MibValue::intu32(m) => Leaf {
                name: m.name@,
                oid: m.oid@,
                mutable: m.mutable,
                values: Values::U32(m.value@),
            },
            MibValue::intu64(m) => Leaf {
                name: m.name@,
                oid: m.oid@,
                mutable: m.mutable,
                values: Values::U64(m.value@),
            },
            MibValue::oid(m) => Leaf {
                name: m.name@,
                oid: m.oid@,
                mutable: m.mutable,
                values: Values::Oid(m.value@.map_values(|b: Vec<u8>| b@)),
            },
            MibValue::ipv4(m) => Leaf {
                name: m.name@,
                oid: m.oid@,
                mutable: m.mutable,
                values: Values::Ipv4(m.value@),
            },
            MibValue::mac(m) => Leaf {
                name: m.name@,
                oid: m.oid@,
                mutable: m.mutable,
                values: Values::Mac(m.value@),
            },
            MibValue::ipv6(m) => Leaf {
                name: m.name@,
                oid: m.oid@,
                mutable: m.mutable,
                values: Values::Ipv6(m.value@),
            },
        }
    }
}


impl Clone for mvstring {
    fn clone(&self) -> (r: Self)
        ensures
            r.name@ == self.name@,
            r.oid@ == self.oid@,
            r.mutable == self.mutable,
            r.value@.map_values(|s: String| s@) == self.value@.map_values(|s: String| s@),
    {
        mvstring {
            name: self.name.clone(),
            oid: copy_vec(&self.oid),
            mutable: self.mutable,
            value: copy_strings(&self.value),
        }
    }
}

impl Clone for mvinti32 {
    fn clone(&self) -> (r: Self)
        ensures
            r.name@ == self.name@,
            r.oid@ == self.oid@,
            r.mutable == self.mutable,
            r.value@ == self.value@,
    {
        mvinti32 {
            name: self.name.clone(),
            oid: copy_vec(&self.oid),
            mutable: self.mutable,
            value: copy_vec(&self.value),
        }
    }
}

impl Clone for mvintu32 {
    fn clone(&self) -> (r: Self)
        ensures
            r.name@ == self.name@,
            r.oid@ == self.oid@,
            r.mutable == self.mutable,
            r.value@ == self.value@,
    {
        mvintu32 {
            name: self.name.clone(),
            oid: copy_vec(&self.oid),
            mutable: self.mutable,
            value: copy_vec(&self.value),
        }
    }
}

impl Clone for mvintu64 {
    fn clone(&self) -> (r: Self)
        ensures
            r.name@ == self.name@,
            r.oid@ == self.oid@,
            r.mutable == self.mutable,
            r.value@ == self.value@,
    {
        mvintu64 {
            name: self.name.clone(),
            oid: copy_vec(&self.oid),
            mutable: self.mutable,
            value: copy_vec(&self.value),
        }
    }
}

impl Clone for mvoid {
    fn clone(&self) -> (r: Self)
        ensures
            r.name@ == self.name@,
            r.oid@ == self.oid@,
            r.mutable == self.mutable,
            r.value@.map_values(|b: Vec<u8>| b@) == self.value@.map_values(|b: Vec<u8>| b@),
    {
        mvoid {
            name: self.name.clone(),
            oid: copy_vec(&self.oid),
            mutable: self.mutable,
            value: copy_byte_strings(&self.value),
        }
    }
}

impl Clone for mvipv4 {
    fn clone(&self) -> (r: Self)
        ensures
            r.name@ == self.name@,
            r.oid@ == self.oid@,
            r.mutable == self.mutable,
            r.value@ == self.value@,
    {
        mvipv4 {
            name: self.name.clone(),
            oid: copy_vec(&self.oid),
            mutable: self.mutable,
            value: copy_vec(&self.value),
        }
    }
}

impl Clone for mvmac {
    fn clone(&self) -> (r: Self)
        ensures
            r.name@ == self.name@,
            r.oid@ == self.oid@,
            r.mutable == self.mutable,
            r.value@ == self.value@,
    {
        mvmac {
            name: self.name.clone(),
            oid: copy_vec(&self.oid),
            mutable: self.mutable,
            value: copy_vec(&self.value),
        }
    }
}

impl Clone for mvipv6 {
    fn clone(&self) -> (r: Self)
        ensures
            r.name@ == self.name@,
            r.oid@ == self.oid@,
            r.mutable == self.mutable,
            r.value@ == self.value@,
    {
        mvipv6 {
            name: self.name.clone(),
            oid: copy_vec(&self.oid),
            mutable: self.mutable,
            value: copy_vec(&self.value),
        }
    }
}

impl Clone for MibValue {
    fn clone(&self) -> (r: Self)
        ensures
            r@ == self@,
    {
        match self {
            MibValue::string(m) => MibValue::string(m.clone()),
            MibValue::inti32(m) => MibValue::inti32(m.clone()),
            MibValue::intu32(m) => MibValue::intu32(m.clone()),
            MibValue::intu64(m) => MibValue::intu64(m.clone()),
            MibValue::oid(m) => MibValue::oid(m.clone()),
            MibValue::ipv4(m) => MibValue::ipv4(m.clone()),
            MibValue::mac(m) => MibValue::mac(m.clone()),
            MibValue::ipv6(m) => MibValue::ipv6(m.clone()),
        }
    }
}

impl MibValue {
    /// The arcs of this leaf's own identifier.
    pub fn oid_ref(&self) -> (r: &Vec<u16>)
        ensures
            r@ == self@.oid,
    {
        match self {
            MibValue::string(m) => &m.oid,
            MibValue::inti32(m) => &m.oid,
            MibValue::intu32(m) => &m.oid,
            MibValue::intu64(m) => &m.oid,
            MibValue::oid(m) => &m.oid,
            MibValue::ipv4(m) => &m.oid,
            MibValue::mac(m) => &m.oid,
            MibValue::ipv6(m) => &m.oid,
        }
    }

    /// How many values the leaf holds: one per row for a column, one for a walked scalar.
    pub fn value_count(&self) -> (r: usize)
        ensures
            r == self@.values.len(),
    {
        match self {
            MibValue::string(m) => m.value.len(),
            MibValue::inti32(m) => m.value.len(),
            MibValue::intu32(m) => m.value.len(),
            MibValue::intu64(m) => m.value.len(),
            MibValue::oid(m) => m.value.len(),
            MibValue::ipv4(m) => m.value.len(),
            MibValue::mac(m) => m.value.len(),
            MibValue::ipv6(m) => m.value.len(),
        }
    }

    /// A single-row copy holding only the value at `index`; `None` when there is no such row.
    pub fn clone_index(&self, index: usize) -> (r: Option<MibValue>)
        ensures
            r is Some <==> index < self@.values.len(),
            r matches Some(v) ==> v@ == self@.row(index as int),
    {
        match self {
            MibValue::string(m) => {
                if index >= m.value.len() {
                    return None;
                }
                let r = mvstring {
                    name: m.name.clone(),
                    oid: copy_vec(&m.oid),
                    mutable: m.mutable,
                    value: vec![m.value[index].clone()],
                };
                assert(r.value@.map_values(|s: String| s@) =~= seq![m.value@.map_values(|s: String| s@)[index as int]]);
                Some(MibValue::string(r))
            },
            MibValue::inti32(m) => {
                if index >= m.value.len() {
                    return None;
                }
                let r = mvinti32 {
                    name: m.name.clone(),
                    oid: copy_vec(&m.oid),
                    mutable: m.mutable,
                    value: vec![m.value[index]],
                };
                assert(r.value@ =~= seq![m.value@[index as int]]);
                Some(MibValue::inti32(r))
            },
            MibValue::intu32(m) => {
                if index >= m.value.len() {
                    return None;
                }
                let r = mvintu32 {
                    name: m.name.clone(),
                    oid: copy_vec(&m.oid),
                    mutable: m.mutable,
                    value: vec![m.value[index]],
                };
                assert(r.value@ =~= seq![m.value@[index as int]]);
                Some(MibValue::intu32(r))
            },
            MibValue::intu64(m) => {
                if index >= m.value.len() {
                    return None;
                }
                let r = mvintu64 {
                    name: m.name.clone(),
                    oid: copy_vec(&m.oid),
                    mutable: m.mutable,
                    value: vec![m.value[index]],
                };
                assert(r.value@ =~= seq![m.value@[index as int]]);
                Some(MibValue::intu64(r))
            },
            MibValue::oid(m) => {
                if index >= m.value.len() {
                    return None;
                }
                let r = mvoid {
                    name: m.name.clone(),
                    oid: copy_vec(&m.oid),
                    mutable: m.mutable,
                    value: vec![copy_vec(&m.value[index])],
                };
                assert(r.value@.map_values(|b: Vec<u8>| b@) =~= seq![m.value@.map_values(|b: Vec<u8>| b@)[index as int]]);
                Some(MibValue::oid(r))
            },
            MibValue::ipv4(m) => {
                if index >= m.value.len() {
                    return None;
                }
                let r = mvipv4 {
                    name: m.name.clone(),
                    oid: copy_vec(&m.oid),
                    mutable: m.mutable,
                    value: vec![m.value[index]],
                };
                assert(r.value@ =~= seq![m.value@[index as int]]);
                Some(MibValue::ipv4(r))
            },
            MibValue::mac(m) => {
                if index >= m.value.len() {
                    return None;
                }
                let r = mvmac {
                    name: m.name.clone(),
                    oid: copy_vec(&m.oid),
                    mutable: m.mutable,
                    value: vec![m.value[index]],
                };
                assert(r.value@ =~= seq![m.value@[index as int]]);
                Some(MibValue::mac(r))
            },
            MibValue::ipv6(m) => {
                if index >= m.value.len() {
                    return None;
                }
                let r = mvipv6 {
                    name: m.name.clone(),
                    oid: copy_vec(&m.oid),
                    mutable: m.mutable,
                    value: vec![m.value[index]],
                };
                assert(r.value@ =~= seq![m.value@[index as int]]);
                Some(MibValue::ipv6(r))
            },
        }
    }

    /// Whether `noid` is exactly this leaf's identifier.
    pub fn has_oid(&self, noid: &[u16]) -> (r: bool)
        ensures
            r == (noid@ == self@.oid),
    {
        same_oid(noid, self.oid_ref().as_slice())
    }

    /// A copy of this leaf's identifier.
    pub fn get_oid(&self) -> (r: Vec<u16>)
        ensures
            r@ == self@.oid,
    {
        copy_vec(self.oid_ref())
    }

    /// This leaf's identifier in dotted text.
    pub fn oid(&self) -> (r: String)
        ensures
            r@ == dotted(self@.oid),
    {
        oid_string(self.oid_ref().as_slice())
    }

    /// The values widened to `i64`, for the numeric encodings only.
    pub fn val_as_mvinti64(&self) -> (r: Option<Vec<i64>>)
        ensures
            r is Some <==> self@.values.as_i64s() is Some,
            r matches Some(v) ==> v@ == self@.values.as_i64s().unwrap(),
    {
        match self {
            MibValue::inti32(m) => {
                let mut out: Vec<i64> = Vec::new();
                let mut i: usize = 0;
                while i < m.value.len()
                    invariant
                        i <= m.value.len(),
                        out@ == m.value@.subrange(0, i as int).map_values(|x: i32| x as i64),
                    decreases m.value.len() - i,
                {
                    out.push(m.value[i] as i64);
                    assert(m.value@.subrange(0, i + 1).map_values(|x: i32| x as i64) =~= out@);
                    i += 1;
                }
                assert(m.value@.subrange(0, m.value.len() as int) =~= m.value@);
                Some(out)
            },
            MibValue::intu32(m) => {
                let mut out: Vec<i64> = Vec::new();
                let mut i: usize = 0;
                while i < m.value.len()
                    invariant
                        i <= m.value.len(),
                        out@ == m.value@.subrange(0, i as int).map_values(|x: u32| x as i64),
                    decreases m.value.len() - i,
                {
                    out.push(m.value[i] as i64);
                    assert(m.value@.subrange(0, i + 1).map_values(|x: u32| x as i64) =~= out@);
                    i += 1;
                }
                assert(m.value@.subrange(0, m.value.len() as int) =~= m.value@);
                Some(out)
            },
            MibValue::intu64(m) => {
                let mut out: Vec<i64> = Vec::new();
                let mut i: usize = 0;
                while i < m.value.len()
                    invariant
                        i <= m.value.len(),
                        out@ == m.value@.subrange(0, i as int).map_values(|x: u64| x as i64),
                    decreases m.value.len() - i,
                {
                    out.push(m.value[i] as i64);
                    assert(m.value@.subrange(0, i + 1).map_values(|x: u64| x as i64) =~= out@);
                    i += 1;
                }
                assert(m.value@.subrange(0, m.value.len() as int) =~= m.value@);
                Some(out)
            },
            _ => None,
        }
    }

    /// The `string` leaf inside, if this is one.
    pub fn as_mvstring(&self) -> (r: Option<mvstring>)
        ensures
            r is Some <==> self is string,
            r matches Some(m) ==> MibValue::string(m)@ == self@,
    {
        match self {
            MibValue::string(m) => Some(m.clone()),
            _ => None,
        }
    }

    /// The `inti32` leaf inside, if this is one.
    pub fn as_mvinti32(&self) -> (r: Option<mvinti32>)
        ensures
            r is Some <==> self is inti32,
            r matches Some(m) ==> MibValue::inti32(m)@ == self@,
    {
        match self {
            MibValue::inti32(m) => Some(m.clone()),
            _ => None,
        }
    }

    /// The `intu32` leaf inside, if this is one.
    pub fn as_mvintu32(&self) -> (r: Option<mvintu32>)
        ensures
            r is Some <==> self is intu32,
            r matches Some(m) ==> MibValue::intu32(m)@ == self@,
    {
        match self {
            MibValue::intu32(m) => Some(m.clone()),
            _ => None,
        }
    }

    /// The `intu64` leaf inside, if this is one.
    pub fn as_mvintu64(&self) -> (r: Option<mvintu64>)
        ensures
            r is Some <==> self is intu64,
            r matches Some(m) ==> MibValue::intu64(m)@ == self@,
    {
        match self {
            MibValue::intu64(m) => Some(m.clone()),
            _ => None,
        }
    }

    /// The `oid` leaf inside, if this is one.
    pub fn as_mvoid(&self) -> (r: Option<mvoid>)
        ensures
            r is Some <==> self is oid,
            r matches Some(m) ==> MibValue::oid(m)@ == self@,
    {
        match self {
            MibValue::oid(m) => Some(m.clone()),
            _ => None,
        }
    }

    /// The `ipv4` leaf inside, if this is one.
    pub fn as_mvipv4(&self) -> (r: Option<mvipv4>)
        ensures
            r is Some <==> self is ipv4,
            r matches Some(m) ==> MibValue::ipv4(m)@ == self@,
    {
        match self {
            MibValue::ipv4(m) => Some(m.clone()),
            _ => None,
        }
    }

    /// The `mac` leaf inside, if this is one.
    pub fn as_mvmac(&self) -> (r: Option<mvmac>)
        ensures
            r is Some <==> self is mac,
            r matches Some(m) ==> MibValue::mac(m)@ == self@,
    {
        match self {
            MibValue::mac(m) => Some(m.clone()),
            _ => None,
        }
    }

    /// The `ipv6` leaf inside, if this is one.
    pub fn as_mvipv6(&self) -> (r: Option<mvipv6>)
        ensures
            r is Some <==> self is ipv6,
            r matches Some(m) ==> MibValue::ipv6(m)@ == self@,
    {
        match self {
            MibValue::ipv6(m) => Some(m.clone()),
            _ => None,
        }
    }
}

impl MibValue {
    /// A `string` leaf named `name` at `parent` extended by `arc`, with no values yet.
    pub fn declare_string(name: &str, parent: &Vec<u16>, arc: u16, mutable: bool) -> (r: MibValue)
        ensures
            r is string,
            r@.declared(name@, parent@.push(arc), mutable),
    {
        let mut oid = copy_vec(parent);
        oid.push(arc);
        MibValue::string(mvstring { name: String::from_str(name), oid, mutable, value: Vec::new() })
    }

    /// A `inti32` leaf named `name` at `parent` extended by `arc`, with no values yet.
    pub fn declare_inti32(name: &str, parent: &Vec<u16>, arc: u16, mutable: bool) -> (r: MibValue)
        ensures
            r is inti32,
            r@.declared(name@, parent@.push(arc), mutable),
    {
        let mut oid = copy_vec(parent);
        oid.push(arc);
        MibValue::inti32(mvinti32 { name: String::from_str(name), oid, mutable, value: Vec::new() })
    }

    /// A `intu32` leaf named `name` at `parent` extended by `arc`, with no values yet.
    pub fn declare_intu32(name: &str, parent: &Vec<u16>, arc: u16, mutable: bool) -> (r: MibValue)
        ensures
            r is intu32,
            r@.declared(name@, parent@.push(arc), mutable),
    {
        let mut oid = copy_vec(parent);
        oid.push(arc);
        MibValue::intu32(mvintu32 { name: String::from_str(name), oid, mutable, value: Vec::new() })
    }

    /// A `intu64` leaf named `name` at `parent` extended by `arc`, with no values yet.
    pub fn declare_intu64(name: &str, parent: &Vec<u16>, arc: u16, mutable: bool) -> (r: MibValue)
        ensures
            r is intu64,
            r@.declared(name@, parent@.push(arc), mutable),
    {
        let mut oid = copy_vec(parent);
        oid.push(arc);
        MibValue::intu64(mvintu64 { name: String::from_str(name), oid, mutable, value: Vec::new() })
    }

    /// A `oid` leaf named `name` at `parent` extended by `arc`, with no values yet.
    pub fn declare_oid(name: &str, parent: &Vec<u16>, arc: u16, mutable: bool) -> (r: MibValue)
        ensures
            r is oid,
            r@.declared(name@, parent@.push(arc), mutable),
    {
        let mut oid = copy_vec(parent);
        oid.push(arc);
        MibValue::oid(mvoid { name: String::from_str(name), oid, mutable, value: Vec::new() })
    }

    /// A `ipv4` leaf named `name` at `parent` extended by `arc`, with no values yet.
    pub fn declare_ipv4(name: &str, parent: &Vec<u16>, arc: u16, mutable: bool) -> (r: MibValue)
        ensures
            r is ipv4,
            r@.declared(name@, parent@.push(arc), mutable),
    {
        let mut oid = copy_vec(parent);
        oid.push(arc);
        MibValue::ipv4(mvipv4 { name: String::from_str(name), oid, mutable, value: Vec::new() })
    }

    /// A `mac` leaf named `name` at `parent` extended by `arc`, with no values yet.
    pub fn declare_mac(name: &str, parent: &Vec<u16>, arc: u16, mutable: bool) -> (r: MibValue)
        ensures
            r is mac,
            r@.declared(name@, parent@.push(arc), mutable),
    {
        let mut oid = copy_vec(parent);
        oid.push(arc);
        MibValue::mac(mvmac { name: String::from_str(name), oid, mutable, value: Vec::new() })
    }

    /// A `ipv6` leaf named `name` at `parent` extended by `arc`, with no values yet.
    pub fn declare_ipv6(name: &str, parent: &Vec<u16>, arc: u16, mutable: bool) -> (r: MibValue)
        ensures
            r is ipv6,
            r@.declared(name@, parent@.push(arc), mutable),
    {
        let mut oid = copy_vec(parent);
        oid.push(arc);
        MibValue::ipv6(mvipv6 { name: String::from_str(name), oid, mutable, value: Vec::new() })
    }
}

/// A copy of a vector of plain values.
pub fn copy_vec<T: Copy>(v: &Vec<T>) -> (r: Vec<T>)
    ensures
        r@ == v@,
{
    let mut r: Vec<T> = Vec::new();
    let mut i: usize = 0;
    while i < v.len()
        invariant
            i <= v.len(),
            r@ == v@.subrange(0, i as int),
        decreases v.len() - i,
    {
        r.push(v[i]);
        i += 1;
    }
    assert(r@ =~= v@);
    r
}

/// A copy of a vector of strings.
pub fn copy_strings(v: &Vec<String>) -> (r: Vec<String>)
    ensures
        r@.map_values(|s: String| s@) == v@.map_values(|s: String| s@),
{
    let mut r: Vec<String> = Vec::new();
    let mut i: usize = 0;
    while i < v.len()
        invariant
            i <= v.len(),
            r@.len() == i,
            forall|k: int| 0 <= k < i ==> #[trigger] r@[k]@ == v@[k]@,
        decreases v.len() - i,
    {
        r.push(v[i].clone());
        i += 1;
    }
    assert(r@.map_values(|s: String| s@) =~= v@.map_values(|s: String| s@));
    r
}

/// A copy of a vector of byte strings.
pub fn copy_byte_strings(v: &Vec<Vec<u8>>) -> (r: Vec<Vec<u8>>)
    ensures
        r@.map_values(|b: Vec<u8>| b@) == v@.map_values(|b: Vec<u8>| b@),
{
    let mut r: Vec<Vec<u8>> = Vec::new();
    let mut i: usize = 0;
    while i < v.len()
        invariant
            i <= v.len(),
            r@.len() == i,
            forall|k: int| 0 <= k < i ==> #[trigger] r@[k]@ == v@[k]@,
        decreases v.len() - i,
    {
        r.push(copy_vec(&v[i]));
        i += 1;
    }
    assert(r@.map_values(|b: Vec<u8>| b@) =~= v@.map_values(|b: Vec<u8>| b@));
    r
}

} // verus!
