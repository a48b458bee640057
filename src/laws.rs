//! The laws the library states about the schema, the resolver and replay.

use vstd::prelude::*;
use crate::group_lemmas::{
    lemma_at_resolves, lemma_at_table_oids, lemma_at_table_resolves, lemma_at_oids, lemma_egp_neigh_table_oids,
    lemma_egp_neigh_table_resolves, lemma_egp_oids, lemma_egp_resolves, lemma_icmp_oids, lemma_icmp_resolves,
    lemma_if_table_oids, lemma_if_table_resolves, lemma_interfaces_oids, lemma_interfaces_resolves,
    lemma_ip_addr_table_oids, lemma_ip_addr_table_resolves, lemma_ip_net_to_media_table_oids,
    lemma_ip_net_to_media_table_resolves, lemma_ip_oids, lemma_ip_resolves, lemma_ip_route_table_oids,
    lemma_ip_route_table_resolves, lemma_snmp_oids, lemma_snmp_resolves, lemma_system_oids,
    lemma_system_resolves, lemma_tcp_conn_table_oids, lemma_tcp_conn_table_resolves, lemma_tcp_oids,
    lemma_tcp_resolves, lemma_udp_oids, lemma_udp_resolves, lemma_udp_table_oids, lemma_udp_table_resolves,
};
use crate::oid::{level_match, lemma_push_last, lemma_push_prefix, lemma_subrange_all};
use crate::schema::MibObject;
use crate::value::Leaf;

verus! {

/// No two leaves of `s` share an identifier.
pub open spec fn distinct_oids(s: Seq<Leaf>) -> bool {
    forall|i: int, j: int| 0 <= i < j < s.len() ==> #[trigger] s[i].oid != #[trigger] s[j].oid
}

/// Every leaf of `s` has `parent` as its first arcs and exactly `depth` arcs more.
pub open spec fn extends_by(s: Seq<Leaf>, parent: Seq<u16>, depth: nat) -> bool {
    forall|i: int| 0 <= i < s.len() ==> {
        &&& (#[trigger] s[i]).oid.len() == parent.len() + depth
        &&& s[i].oid.subrange(0, parent.len() as int) == parent
    }
}

proof fn lemma_distinct_concat(s: Seq<Leaf>, t: Seq<Leaf>, k: int)
    requires
        distinct_oids(s),
        distinct_oids(t),
        forall|i: int| 0 <= i < s.len() ==> (#[trigger] s[i]).oid.len() > 6 && s[i].oid[6] < k,
        forall|j: int| 0 <= j < t.len() ==> (#[trigger] t[j]).oid.len() > 6 && t[j].oid[6] == k,
    ensures
        distinct_oids(s + t),
        forall|i: int| 0 <= i < (s + t).len() ==> (#[trigger] (s + t)[i]).oid.len() > 6
            && (s + t)[i].oid[6] <= k,
{
    let u = s + t;
    assert forall|i: int, j: int| 0 <= i < j < u.len() implies #[trigger] u[i].oid != #[trigger] u[j].oid by {
        if j < s.len() {
            assert(u[i] == s[i] && u[j] == s[j]);
        } else if i >= s.len() {
            assert(u[i] == t[i - s.len()] && u[j] == t[j - s.len()]);
        } else {
            assert(u[i] == s[i] && u[j] == t[j - s.len()]);
        }
    }
    assert forall|i: int| 0 <= i < u.len() implies (#[trigger] u[i]).oid.len() > 6 && u[i].oid[6] <= k by {
        if i < s.len() {
            assert(u[i] == s[i]);
        } else {
            assert(u[i] == t[i - s.len()]);
        }
    }
}

/// In a snapshot whose identifiers are the ones the schema declares, no two leaves share an
/// identifier, and each leaf's identifier extends the identifier of the group that owns it by
/// exactly the group-to-leaf depth: one arc below a group, two below a table (the entry arc and
/// the column).
pub proof fn lemma_schema_complete(s: MibObject)
    requires
        s.oids_declared(),
    ensures
        distinct_oids(s.leaves()),
        extends_by(s.own_leaves(), s.oid@, 1),
        extends_by(s.system.own_leaves(), s.system.oid@, 1),
        extends_by(s.interfaces.own_leaves(), s.interfaces.oid@, 1),
        extends_by(s.interfaces.ifTable.own_leaves(), s.interfaces.ifTable.oid@, 2),
        extends_by(s.at.own_leaves(), s.at.oid@, 1),
        extends_by(s.at.atTable.own_leaves(), s.at.atTable.oid@, 2),
        extends_by(s.ip.own_leaves(), s.ip.oid@, 1),
        extends_by(s.ip.ipAddrTable.own_leaves(), s.ip.ipAddrTable.oid@, 2),
        extends_by(s.ip.ipRouteTable.own_leaves(), s.ip.ipRouteTable.oid@, 2),
        extends_by(s.ip.ipNetToMediaTable.own_leaves(), s.ip.ipNetToMediaTable.oid@, 2),
        extends_by(s.icmp.own_leaves(), s.icmp.oid@, 1),
        extends_by(s.tcp.own_leaves(), s.tcp.oid@, 1),
        extends_by(s.tcp.tcpConnTable.own_leaves(), s.tcp.tcpConnTable.oid@, 2),
        extends_by(s.udp.own_leaves(), s.udp.oid@, 1),
        extends_by(s.udp.udpTable.own_leaves(), s.udp.udpTable.oid@, 2),
        extends_by(s.egp.own_leaves(), s.egp.oid@, 1),
        extends_by(s.egp.egpNeighTable.own_leaves(), s.egp.egpNeighTable.oid@, 2),
        extends_by(s.snmp.own_leaves(), s.snmp.oid@, 1),
{
    broadcast use lemma_push_last, lemma_push_prefix, lemma_subrange_all;

    let p = s.oid@;
    lemma_system_oids(s.system, p);
    lemma_interfaces_oids(s.interfaces, p);
    lemma_if_table_oids(s.interfaces.ifTable, s.interfaces.oid@);
    lemma_at_oids(s.at, p);
    lemma_at_table_oids(s.at.atTable, s.at.oid@);
    lemma_ip_oids(s.ip, p);
    lemma_ip_addr_table_oids(s.ip.ipAddrTable, s.ip.oid@);
    lemma_ip_route_table_oids(s.ip.ipRouteTable, s.ip.oid@);
    lemma_ip_net_to_media_table_oids(s.ip.ipNetToMediaTable, s.ip.oid@);
    lemma_icmp_oids(s.icmp, p);
    lemma_tcp_oids(s.tcp, p);
    lemma_tcp_conn_table_oids(s.tcp.tcpConnTable, s.tcp.oid@);
    lemma_udp_oids(s.udp, p);
    lemma_udp_table_oids(s.udp.udpTable, s.udp.oid@);
    lemma_egp_oids(s.egp, p);
    lemma_egp_neigh_table_oids(s.egp.egpNeighTable, s.egp.oid@);
    lemma_snmp_oids(s.snmp, p);
    let tr = seq![s.transmission@];
    assert(distinct_oids(tr));
    let a1 = s.system.leaves();
    assert(distinct_oids(Seq::<Leaf>::empty()));
    lemma_distinct_concat(Seq::<Leaf>::empty(), a1, 1);
    assert(Seq::<Leaf>::empty() + a1 =~= a1);
    let a2 = a1 + s.interfaces.leaves();
    lemma_distinct_concat(a1, s.interfaces.leaves(), 2);
    let a3 = a2 + s.at.leaves();
    lemma_distinct_concat(a2, s.at.leaves(), 3);
    let a4 = a3 + s.ip.leaves();
    lemma_distinct_concat(a3, s.ip.leaves(), 4);
    let a5 = a4 + s.icmp.leaves();
    lemma_distinct_concat(a4, s.icmp.leaves(), 5);
    let a6 = a5 + s.tcp.leaves();
    lemma_distinct_concat(a5, s.tcp.leaves(), 6);
    let a7 = a6 + s.udp.leaves();
    lemma_distinct_concat(a6, s.udp.leaves(), 7);
    let a8 = a7 + s.egp.leaves();
    lemma_distinct_concat(a7, s.egp.leaves(), 8);
    let a9 = a8 + tr;
    lemma_distinct_concat(a8, tr, 10);
    lemma_distinct_concat(a9, s.snmp.leaves(), 11);
}

/// `q` starts with the identifier of no leaf of `s`.
pub open spec fn addresses_no_leaf(s: Seq<Leaf>, q: Seq<u16>) -> bool {
    forall|i: int| 0 <= i < s.len() ==> !level_match(q, (#[trigger] s[i]).oid.len() as int, s[i].oid)
}

/// `q` starts with the identifier of no leaf of `s`: of no group's leaves, nor of `transmission`.
pub open spec fn misses_every_leaf(s: MibObject, q: Seq<u16>) -> bool {
    &&& addresses_no_leaf(s.system.leaves(), q)
    &&& addresses_no_leaf(s.interfaces.leaves(), q)
    &&& addresses_no_leaf(s.at.leaves(), q)
    &&& addresses_no_leaf(s.ip.leaves(), q)
    &&& addresses_no_leaf(s.icmp.leaves(), q)
    &&& addresses_no_leaf(s.tcp.leaves(), q)
    &&& addresses_no_leaf(s.udp.leaves(), q)
    &&& addresses_no_leaf(s.egp.leaves(), q)
    &&& addresses_no_leaf(seq![s.transmission@], q)
    &&& addresses_no_leaf(s.snmp.leaves(), q)
}

/// `s` resolves the identifier of each leaf of `ls` to that very leaf.
pub open spec fn resolves_scalars(s: MibObject, ls: Seq<Leaf>) -> bool {
    forall|i: int| 0 <= i < ls.len() ==> s.find_spec(#[trigger] ls[i].oid) == Some(ls[i])
}

/// `s` resolves the identifier of each column of `cols`, followed by a row number, to that row.
pub open spec fn resolves_rows(s: MibObject, cols: Seq<Leaf>) -> bool {
    forall|i: int, r: int|
        0 <= i < cols.len() && 0 <= r < cols[i].values.len() && r <= 65535
            ==> s.find_spec(#[trigger] cols[i].oid.push(r as u16)) == Some(cols[i].row(r))
}

#[verifier::spinoff_prover]
proof fn lemma_scalars_resolve(s: MibObject)
    requires
        s.oids_declared(),
    ensures
        resolves_scalars(s, s.own_leaves()),
        resolves_scalars(s, s.system.own_leaves()),
        resolves_scalars(s, s.interfaces.own_leaves()),
        resolves_scalars(s, s.ip.own_leaves()),
        resolves_scalars(s, s.icmp.own_leaves()),
        resolves_scalars(s, s.tcp.own_leaves()),
        resolves_scalars(s, s.udp.own_leaves()),
        resolves_scalars(s, s.egp.own_leaves()),
        resolves_scalars(s, s.snmp.own_leaves()),
{
    broadcast use lemma_push_last, lemma_push_prefix, lemma_subrange_all;

    lemma_system_oids(s.system, s.oid@);
    lemma_interfaces_oids(s.interfaces, s.oid@);
    lemma_at_oids(s.at, s.oid@);
    lemma_ip_oids(s.ip, s.oid@);
    lemma_icmp_oids(s.icmp, s.oid@);
    lemma_tcp_oids(s.tcp, s.oid@);
    lemma_udp_oids(s.udp, s.oid@);
    lemma_egp_oids(s.egp, s.oid@);
    lemma_snmp_oids(s.snmp, s.oid@);
    lemma_system_resolves(s.system, s.oid@);
    lemma_interfaces_resolves(s.interfaces, s.oid@);
    lemma_at_resolves(s.at, s.oid@);
    lemma_ip_resolves(s.ip, s.oid@);
    lemma_icmp_resolves(s.icmp, s.oid@);
    lemma_tcp_resolves(s.tcp, s.oid@);
    lemma_udp_resolves(s.udp, s.oid@);
    lemma_egp_resolves(s.egp, s.oid@);
    lemma_snmp_resolves(s.snmp, s.oid@);
    lemma_if_table_oids(s.interfaces.ifTable, s.interfaces.oid@);
    lemma_at_table_oids(s.at.atTable, s.at.oid@);
    lemma_ip_addr_table_oids(s.ip.ipAddrTable, s.ip.oid@);
    lemma_ip_route_table_oids(s.ip.ipRouteTable, s.ip.oid@);
    lemma_ip_net_to_media_table_oids(s.ip.ipNetToMediaTable, s.ip.oid@);
    lemma_tcp_conn_table_oids(s.tcp.tcpConnTable, s.tcp.oid@);
    lemma_udp_table_oids(s.udp.udpTable, s.udp.oid@);
    lemma_egp_neigh_table_oids(s.egp.egpNeighTable, s.egp.oid@);
    assert(s.own_leaves()[0] == s.transmission@);
    assert forall|i: int| 0 <= i < s.system.own_leaves().len()
        implies s.find_spec(#[trigger] s.system.own_leaves()[i].oid) == Some(s.system.own_leaves()[i]) by {
        assert(level_match(s.system.own_leaves()[i].oid, 7, s.system.oid@));
    }
    assert forall|i: int| 0 <= i < s.interfaces.own_leaves().len()
        implies s.find_spec(#[trigger] s.interfaces.own_leaves()[i].oid) == Some(s.interfaces.own_leaves()[i]) by {
        assert(level_match(s.interfaces.own_leaves()[i].oid, 7, s.interfaces.oid@));
    }
    assert forall|i: int| 0 <= i < s.ip.own_leaves().len()
        implies s.find_spec(#[trigger] s.ip.own_leaves()[i].oid) == Some(s.ip.own_leaves()[i]) by {
        assert(level_match(s.ip.own_leaves()[i].oid, 7, s.ip.oid@));
    }
    assert forall|i: int| 0 <= i < s.icmp.own_leaves().len()
        implies s.find_spec(#[trigger] s.icmp.own_leaves()[i].oid) == Some(s.icmp.own_leaves()[i]) by {
        assert(level_match(s.icmp.own_leaves()[i].oid, 7, s.icmp.oid@));
    }
    assert forall|i: int| 0 <= i < s.tcp.own_leaves().len()
        implies s.find_spec(#[trigger] s.tcp.own_leaves()[i].oid) == Some(s.tcp.own_leaves()[i]) by {
        assert(level_match(s.tcp.own_leaves()[i].oid, 7, s.tcp.oid@));
    }
    assert forall|i: int| 0 <= i < s.udp.own_leaves().len()
        implies s.find_spec(#[trigger] s.udp.own_leaves()[i].oid) == Some(s.udp.own_leaves()[i]) by {
        assert(level_match(s.udp.own_leaves()[i].oid, 7, s.udp.oid@));
    }
    assert forall|i: int| 0 <= i < s.egp.own_leaves().len()
        implies s.find_spec(#[trigger] s.egp.own_leaves()[i].oid) == Some(s.egp.own_leaves()[i]) by {
        assert(level_match(s.egp.own_leaves()[i].oid, 7, s.egp.oid@));
    }
    assert forall|i: int| 0 <= i < s.snmp.own_leaves().len()
        implies s.find_spec(#[trigger] s.snmp.own_leaves()[i].oid) == Some(s.snmp.own_leaves()[i]) by {
        assert(level_match(s.snmp.own_leaves()[i].oid, 7, s.snmp.oid@));
    }
}

#[verifier::spinoff_prover]
proof fn lemma_if_table_rows_resolve(s: MibObject)
    requires
        s.oids_declared(),
    ensures
        resolves_rows(s, s.interfaces.ifTable.own_leaves()),
{
    broadcast use lemma_push_last, lemma_push_prefix, lemma_subrange_all;

    lemma_interfaces_resolves(s.interfaces, s.oid@);
    lemma_if_table_resolves(s.interfaces.ifTable, s.interfaces.oid@);
    assert forall|i: int, r: int|
        0 <= i < s.interfaces.ifTable.own_leaves().len() && 0 <= r < s.interfaces.ifTable.own_leaves()[i].values.len() && r <= 65535
            implies s.find_spec(#[trigger] s.interfaces.ifTable.own_leaves()[i].oid.push(r as u16))
                == Some(s.interfaces.ifTable.own_leaves()[i].row(r)) by {
        let q = s.interfaces.ifTable.own_leaves()[i].oid.push(r as u16);
        assert(level_match(q, 7, s.interfaces.oid@));
        assert(level_match(q, 8, s.interfaces.ifTable.oid@));
    }
}

#[verifier::spinoff_prover]
proof fn lemma_at_table_rows_resolve(s: MibObject)
    requires
        s.oids_declared(),
    ensures
        resolves_rows(s, s.at.atTable.own_leaves()),
{
    broadcast use lemma_push_last, lemma_push_prefix, lemma_subrange_all;

    lemma_at_resolves(s.at, s.oid@);
    lemma_at_table_resolves(s.at.atTable, s.at.oid@);
    assert forall|i: int, r: int|
        0 <= i < s.at.atTable.own_leaves().len() && 0 <= r < s.at.atTable.own_leaves()[i].values.len() && r <= 65535
            implies s.find_spec(#[trigger] s.at.atTable.own_leaves()[i].oid.push(r as u16))
                == Some(s.at.atTable.own_leaves()[i].row(r)) by {
        let q = s.at.atTable.own_leaves()[i].oid.push(r as u16);
        assert(level_match(q, 7, s.at.oid@));
        assert(level_match(q, 8, s.at.atTable.oid@));
    }
}

#[verifier::spinoff_prover]
proof fn lemma_ip_addr_table_rows_resolve(s: MibObject)
    requires
        s.oids_declared(),
    ensures
        resolves_rows(s, s.ip.ipAddrTable.own_leaves()),
{
    broadcast use lemma_push_last, lemma_push_prefix, lemma_subrange_all;

    lemma_ip_resolves(s.ip, s.oid@);
    lemma_ip_addr_table_resolves(s.ip.ipAddrTable, s.ip.oid@);
    assert forall|i: int, r: int|
        0 <= i < s.ip.ipAddrTable.own_leaves().len() && 0 <= r < s.ip.ipAddrTable.own_leaves()[i].values.len() && r <= 65535
            implies s.find_spec(#[trigger] s.ip.ipAddrTable.own_leaves()[i].oid.push(r as u16))
                == Some(s.ip.ipAddrTable.own_leaves()[i].row(r)) by {
        let q = s.ip.ipAddrTable.own_leaves()[i].oid.push(r as u16);
        assert(level_match(q, 7, s.ip.oid@));
        assert(level_match(q, 8, s.ip.ipAddrTable.oid@));
    }
}

#[verifier::spinoff_prover]
proof fn lemma_ip_route_table_rows_resolve(s: MibObject)
    requires
        s.oids_declared(),
    ensures
        resolves_rows(s, s.ip.ipRouteTable.own_leaves()),
{
    broadcast use lemma_push_last, lemma_push_prefix, lemma_subrange_all;

    lemma_ip_resolves(s.ip, s.oid@);
    lemma_ip_route_table_resolves(s.ip.ipRouteTable, s.ip.oid@);
    assert forall|i: int, r: int|
        0 <= i < s.ip.ipRouteTable.own_leaves().len() && 0 <= r < s.ip.ipRouteTable.own_leaves()[i].values.len() && r <= 65535
            implies s.find_spec(#[trigger] s.ip.ipRouteTable.own_leaves()[i].oid.push(r as u16))
                == Some(s.ip.ipRouteTable.own_leaves()[i].row(r)) by {
        let q = s.ip.ipRouteTable.own_leaves()[i].oid.push(r as u16);
        assert(level_match(q, 7, s.ip.oid@));
        assert(level_match(q, 8, s.ip.ipRouteTable.oid@));
    }
}

#[verifier::spinoff_prover]
proof fn lemma_ip_net_to_media_table_rows_resolve(s: MibObject)
    requires
        s.oids_declared(),
    ensures
        resolves_rows(s, s.ip.ipNetToMediaTable.own_leaves()),
{
    broadcast use lemma_push_last, lemma_push_prefix, lemma_subrange_all;

    lemma_ip_resolves(s.ip, s.oid@);
    lemma_ip_net_to_media_table_resolves(s.ip.ipNetToMediaTable, s.ip.oid@);
    assert forall|i: int, r: int|
        0 <= i < s.ip.ipNetToMediaTable.own_leaves().len() && 0 <= r < s.ip.ipNetToMediaTable.own_leaves()[i].values.len() && r <= 65535
            implies s.find_spec(#[trigger] s.ip.ipNetToMediaTable.own_leaves()[i].oid.push(r as u16))
                == Some(s.ip.ipNetToMediaTable.own_leaves()[i].row(r)) by {
        let q = s.ip.ipNetToMediaTable.own_leaves()[i].oid.push(r as u16);
        assert(level_match(q, 7, s.ip.oid@));
        assert(level_match(q, 8, s.ip.ipNetToMediaTable.oid@));
    }
}

#[verifier::spinoff_prover]
proof fn lemma_tcp_conn_table_rows_resolve(s: MibObject)
    requires
        s.oids_declared(),
    ensures
        resolves_rows(s, s.tcp.tcpConnTable.own_leaves()),
{
    broadcast use lemma_push_last, lemma_push_prefix, lemma_subrange_all;

    lemma_tcp_resolves(s.tcp, s.oid@);
    lemma_tcp_conn_table_resolves(s.tcp.tcpConnTable, s.tcp.oid@);
    assert forall|i: int, r: int|
        0 <= i < s.tcp.tcpConnTable.own_leaves().len() && 0 <= r < s.tcp.tcpConnTable.own_leaves()[i].values.len() && r <= 65535
            implies s.find_spec(#[trigger] s.tcp.tcpConnTable.own_leaves()[i].oid.push(r as u16))
                == Some(s.tcp.tcpConnTable.own_leaves()[i].row(r)) by {
        let q = s.tcp.tcpConnTable.own_leaves()[i].oid.push(r as u16);
        assert(level_match(q, 7, s.tcp.oid@));
        assert(level_match(q, 8, s.tcp.tcpConnTable.oid@));
    }
}

#[verifier::spinoff_prover]
proof fn lemma_udp_table_rows_resolve(s: MibObject)
    requires
        s.oids_declared(),
    ensures
        resolves_rows(s, s.udp.udpTable.own_leaves()),
{
    broadcast use lemma_push_last, lemma_push_prefix, lemma_subrange_all;

    lemma_udp_resolves(s.udp, s.oid@);
    lemma_udp_table_resolves(s.udp.udpTable, s.udp.oid@);
    assert forall|i: int, r: int|
        0 <= i < s.udp.udpTable.own_leaves().len() && 0 <= r < s.udp.udpTable.own_leaves()[i].values.len() && r <= 65535
            implies s.find_spec(#[trigger] s.udp.udpTable.own_leaves()[i].oid.push(r as u16))
                == Some(s.udp.udpTable.own_leaves()[i].row(r)) by {
        let q = s.udp.udpTable.own_leaves()[i].oid.push(r as u16);
        assert(level_match(q, 7, s.udp.oid@));
        assert(level_match(q, 8, s.udp.udpTable.oid@));
    }
}

#[verifier::spinoff_prover]
proof fn lemma_egp_neigh_table_rows_resolve(s: MibObject)
    requires
        s.oids_declared(),
    ensures
        resolves_rows(s, s.egp.egpNeighTable.own_leaves()),
{
    broadcast use lemma_push_last, lemma_push_prefix, lemma_subrange_all;

    lemma_egp_resolves(s.egp, s.oid@);
    lemma_egp_neigh_table_resolves(s.egp.egpNeighTable, s.egp.oid@);
    assert forall|i: int, r: int|
        0 <= i < s.egp.egpNeighTable.own_leaves().len() && 0 <= r < s.egp.egpNeighTable.own_leaves()[i].values.len() && r <= 65535
            implies s.find_spec(#[trigger] s.egp.egpNeighTable.own_leaves()[i].oid.push(r as u16))
                == Some(s.egp.egpNeighTable.own_leaves()[i].row(r)) by {
        let q = s.egp.egpNeighTable.own_leaves()[i].oid.push(r as u16);
        assert(level_match(q, 7, s.egp.oid@));
        assert(level_match(q, 8, s.egp.egpNeighTable.oid@));
    }
}

#[verifier::spinoff_prover]
proof fn lemma_system_misses(s: MibObject, q: Seq<u16>)
    requires
        s.oids_declared(),
        misses_every_leaf(s, q),
        level_match(q, 7, s.system.oid@),
    ensures
        s.find_spec(q) is None,
{
    broadcast use lemma_push_last, lemma_push_prefix, lemma_subrange_all;

    lemma_system_resolves(s.system, s.oid@);
}

#[verifier::spinoff_prover]
proof fn lemma_interfaces_misses(s: MibObject, q: Seq<u16>)
    requires
        s.oids_declared(),
        misses_every_leaf(s, q),
        level_match(q, 7, s.interfaces.oid@),
    ensures
        s.find_spec(q) is None,
{
    broadcast use lemma_push_last, lemma_push_prefix, lemma_subrange_all;

    lemma_interfaces_resolves(s.interfaces, s.oid@);
}

#[verifier::spinoff_prover]
proof fn lemma_at_misses(s: MibObject, q: Seq<u16>)
    requires
        s.oids_declared(),
        misses_every_leaf(s, q),
        level_match(q, 7, s.at.oid@),
    ensures
        s.find_spec(q) is None,
{
    broadcast use lemma_push_last, lemma_push_prefix, lemma_subrange_all;

    lemma_at_resolves(s.at, s.oid@);
}

#[verifier::spinoff_prover]
proof fn lemma_ip_misses(s: MibObject, q: Seq<u16>)
    requires
        s.oids_declared(),
        misses_every_leaf(s, q),
        level_match(q, 7, s.ip.oid@),
    ensures
        s.find_spec(q) is None,
{
    broadcast use lemma_push_last, lemma_push_prefix, lemma_subrange_all;

    lemma_ip_resolves(s.ip, s.oid@);
}

#[verifier::spinoff_prover]
proof fn lemma_icmp_misses(s: MibObject, q: Seq<u16>)
    requires
        s.oids_declared(),
        misses_every_leaf(s, q),
        level_match(q, 7, s.icmp.oid@),
    ensures
        s.find_spec(q) is None,
{
    broadcast use lemma_push_last, lemma_push_prefix, lemma_subrange_all;

    lemma_icmp_resolves(s.icmp, s.oid@);
}

#[verifier::spinoff_prover]
proof fn lemma_tcp_misses(s: MibObject, q: Seq<u16>)
    requires
        s.oids_declared(),
        misses_every_leaf(s, q),
        level_match(q, 7, s.tcp.oid@),
    ensures
        s.find_spec(q) is None,
{
    broadcast use lemma_push_last, lemma_push_prefix, lemma_subrange_all;

    lemma_tcp_resolves(s.tcp, s.oid@);
}

#[verifier::spinoff_prover]
proof fn lemma_udp_misses(s: MibObject, q: Seq<u16>)
    requires
        s.oids_declared(),
        misses_every_leaf(s, q),
        level_match(q, 7, s.udp.oid@),
    ensures
        s.find_spec(q) is None,
{
    broadcast use lemma_push_last, lemma_push_prefix, lemma_subrange_all;

    lemma_udp_resolves(s.udp, s.oid@);
}

#[verifier::spinoff_prover]
proof fn lemma_egp_misses(s: MibObject, q: Seq<u16>)
    requires
        s.oids_declared(),
        misses_every_leaf(s, q),
        level_match(q, 7, s.egp.oid@),
    ensures
        s.find_spec(q) is None,
{
    broadcast use lemma_push_last, lemma_push_prefix, lemma_subrange_all;

    lemma_egp_resolves(s.egp, s.oid@);
}

#[verifier::spinoff_prover]
proof fn lemma_snmp_misses(s: MibObject, q: Seq<u16>)
    requires
        s.oids_declared(),
        misses_every_leaf(s, q),
        level_match(q, 7, s.snmp.oid@),
    ensures
        s.find_spec(q) is None,
{
    broadcast use lemma_push_last, lemma_push_prefix, lemma_subrange_all;

    lemma_snmp_resolves(s.snmp, s.oid@);
}

#[verifier::spinoff_prover]
proof fn lemma_misses_resolve(s: MibObject)
    requires
        s.oids_declared(),
    ensures
        forall|q: Seq<u16>| misses_every_leaf(s, q) ==> (#[trigger] s.find_spec(q)) is None,
{
    assert forall|q: Seq<u16>| misses_every_leaf(s, q) implies (#[trigger] s.find_spec(q)) is None by {
        if level_match(q, 7, s.system.oid@) {
            lemma_system_misses(s, q);
        } else if level_match(q, 7, s.interfaces.oid@) {
            lemma_interfaces_misses(s, q);
        } else if level_match(q, 7, s.at.oid@) {
            lemma_at_misses(s, q);
        } else if level_match(q, 7, s.ip.oid@) {
            lemma_ip_misses(s, q);
        } else if level_match(q, 7, s.icmp.oid@) {
            lemma_icmp_misses(s, q);
        } else if level_match(q, 7, s.tcp.oid@) {
            lemma_tcp_misses(s, q);
        } else if level_match(q, 7, s.udp.oid@) {
            lemma_udp_misses(s, q);
        } else if level_match(q, 7, s.egp.oid@) {
            lemma_egp_misses(s, q);
        } else if level_match(q, 7, s.transmission@.oid) {
            assert(seq![s.transmission@][0] == s.transmission@);
        } else if level_match(q, 7, s.snmp.oid@) {
            lemma_snmp_misses(s, q);
        }
    }
}

/// In a snapshot whose identifiers are the ones the schema declares, the resolver finds each
/// scalar by its identifier, finds each existing row of each table column by the column's
/// identifier followed by the row number, and finds nothing for an identifier that starts with
/// no leaf's identifier.
pub proof fn lemma_resolver_round_trip(s: MibObject)
    requires
        s.oids_declared(),
    ensures
        resolves_scalars(s, s.own_leaves()),
        resolves_scalars(s, s.system.own_leaves()),
        resolves_scalars(s, s.interfaces.own_leaves()),
        resolves_scalars(s, s.ip.own_leaves()),
        resolves_scalars(s, s.icmp.own_leaves()),
        resolves_scalars(s, s.tcp.own_leaves()),
        resolves_scalars(s, s.udp.own_leaves()),
        resolves_scalars(s, s.egp.own_leaves()),
        resolves_scalars(s, s.snmp.own_leaves()),
        resolves_rows(s, s.interfaces.ifTable.own_leaves()),
        resolves_rows(s, s.at.atTable.own_leaves()),
        resolves_rows(s, s.ip.ipAddrTable.own_leaves()),
        resolves_rows(s, s.ip.ipRouteTable.own_leaves()),
        resolves_rows(s, s.ip.ipNetToMediaTable.own_leaves()),
        resolves_rows(s, s.tcp.tcpConnTable.own_leaves()),
        resolves_rows(s, s.udp.udpTable.own_leaves()),
        resolves_rows(s, s.egp.egpNeighTable.own_leaves()),
        forall|q: Seq<u16>| misses_every_leaf(s, q) ==> (#[trigger] s.find_spec(q)) is None,
{
    lemma_scalars_resolve(s);
    lemma_if_table_rows_resolve(s);
    lemma_at_table_rows_resolve(s);
    lemma_ip_addr_table_rows_resolve(s);
    lemma_ip_route_table_rows_resolve(s);
    lemma_ip_net_to_media_table_rows_resolve(s);
    lemma_tcp_conn_table_rows_resolve(s);
    lemma_udp_table_rows_resolve(s);
    lemma_egp_neigh_table_rows_resolve(s);
    lemma_misses_resolve(s);
}

} // verus!
