//! Facts about each group of the schema, one group at a time: its identifiers are distinct and
//! extend the group's own, and its resolver finds what it declares.

use vstd::prelude::*;
use crate::laws::{addresses_no_leaf, distinct_oids, extends_by};
use crate::oid::{level_match, lemma_push_last, lemma_push_prefix, lemma_subrange_all};
use crate::schema::{
    At, AtTable, Egp, EgpNeighTable, Icmp, IfTable, Interfaces, Ip, IpAddrTable, IpNetToMediaTable,
    IpRouteTable, MibObject, Snmp, System, Tcp, TcpConnTable, Udp, UdpTable,
};

verus! {

pub(crate) proof fn lemma_system_oids(g: System, p: Seq<u16>)
    requires
        g.oids_declared(p),
    ensures
        distinct_oids(g.leaves()),
        forall|i: int| 0 <= i < g.leaves().len() ==> (#[trigger] g.leaves()[i]).oid.len() > p.len()
            && g.leaves()[i].oid[p.len() as int] == 1,
        extends_by(g.own_leaves(), g.oid@, 1),
{
    broadcast use lemma_push_last, lemma_push_prefix, lemma_subrange_all;
}

pub(crate) proof fn lemma_interfaces_oids(g: Interfaces, p: Seq<u16>)
    requires
        g.oids_declared(p),
    ensures
        distinct_oids(g.leaves()),
        forall|i: int| 0 <= i < g.leaves().len() ==> (#[trigger] g.leaves()[i]).oid.len() > p.len()
            && g.leaves()[i].oid[p.len() as int] == 2,
        extends_by(g.own_leaves(), g.oid@, 1),
{
    broadcast use lemma_push_last, lemma_push_prefix, lemma_subrange_all;
    lemma_if_table_oids(g.ifTable, g.oid@);
}

pub(crate) proof fn lemma_if_table_oids(g: IfTable, p: Seq<u16>)
    requires
        g.oids_declared(p),
    ensures
        distinct_oids(g.leaves()),
        forall|i: int| 0 <= i < g.leaves().len() ==> (#[trigger] g.leaves()[i]).oid.len() > p.len()
            && g.leaves()[i].oid[p.len() as int] == 2,
        extends_by(g.own_leaves(), g.oid@, 2),
{
    broadcast use lemma_push_last, lemma_push_prefix, lemma_subrange_all;
}

pub(crate) proof fn lemma_at_oids(g: At, p: Seq<u16>)
    requires
        g.oids_declared(p),
    ensures
        distinct_oids(g.leaves()),
        forall|i: int| 0 <= i < g.leaves().len() ==> (#[trigger] g.leaves()[i]).oid.len() > p.len()
            && g.leaves()[i].oid[p.len() as int] == 3,
        extends_by(g.own_leaves(), g.oid@, 1),
{
    broadcast use lemma_push_last, lemma_push_prefix, lemma_subrange_all;
    lemma_at_table_oids(g.atTable, g.oid@);
}

pub(crate) proof fn lemma_at_table_oids(g: AtTable, p: Seq<u16>)
    requires
        g.oids_declared(p),
    ensures
        distinct_oids(g.leaves()),
        forall|i: int| 0 <= i < g.leaves().len() ==> (#[trigger] g.leaves()[i]).oid.len() > p.len()
            && g.leaves()[i].oid[p.len() as int] == 1,
        extends_by(g.own_leaves(), g.oid@, 2),
{
    broadcast use lemma_push_last, lemma_push_prefix, lemma_subrange_all;
}

pub(crate) proof fn lemma_ip_oids(g: Ip, p: Seq<u16>)
    requires
        g.oids_declared(p),
    ensures
        distinct_oids(g.leaves()),
        forall|i: int| 0 <= i < g.leaves().len() ==> (#[trigger] g.leaves()[i]).oid.len() > p.len()
            && g.leaves()[i].oid[p.len() as int] == 4,
        extends_by(g.own_leaves(), g.oid@, 1),
{
    broadcast use lemma_push_last, lemma_push_prefix, lemma_subrange_all;
    lemma_ip_addr_table_oids(g.ipAddrTable, g.oid@);
    lemma_ip_route_table_oids(g.ipRouteTable, g.oid@);
    lemma_ip_net_to_media_table_oids(g.ipNetToMediaTable, g.oid@);
}

pub(crate) proof fn lemma_ip_addr_table_oids(g: IpAddrTable, p: Seq<u16>)
    requires
        g.oids_declared(p),
    ensures
        distinct_oids(g.leaves()),
        forall|i: int| 0 <= i < g.leaves().len() ==> (#[trigger] g.leaves()[i]).oid.len() > p.len()
            && g.leaves()[i].oid[p.len() as int] == 20,
        extends_by(g.own_leaves(), g.oid@, 2),
{
    broadcast use lemma_push_last, lemma_push_prefix, lemma_subrange_all;
}

pub(crate) proof fn lemma_ip_route_table_oids(g: IpRouteTable, p: Seq<u16>)
    requires
        g.oids_declared(p),
    ensures
        distinct_oids(g.leaves()),
        forall|i: int| 0 <= i < g.leaves().len() ==> (#[trigger] g.leaves()[i]).oid.len() > p.len()
            && g.leaves()[i].oid[p.len() as int] == 21,
        extends_by(g.own_leaves(), g.oid@, 2),
{
    broadcast use lemma_push_last, lemma_push_prefix, lemma_subrange_all;
}

pub(crate) proof fn lemma_ip_net_to_media_table_oids(g: IpNetToMediaTable, p: Seq<u16>)
    requires
        g.oids_declared(p),
    ensures
        distinct_oids(g.leaves()),
        forall|i: int| 0 <= i < g.leaves().len() ==> (#[trigger] g.leaves()[i]).oid.len() > p.len()
            && g.leaves()[i].oid[p.len() as int] == 22,
        extends_by(g.own_leaves(), g.oid@, 2),
{
    broadcast use lemma_push_last, lemma_push_prefix, lemma_subrange_all;
}

pub(crate) proof fn lemma_icmp_oids(g: Icmp, p: Seq<u16>)
    requires
        g.oids_declared(p),
    ensures
        distinct_oids(g.leaves()),
        forall|i: int| 0 <= i < g.leaves().len() ==> (#[trigger] g.leaves()[i]).oid.len() > p.len()
            && g.leaves()[i].oid[p.len() as int] == 5,
        extends_by(g.own_leaves(), g.oid@, 1),
{
    broadcast use lemma_push_last, lemma_push_prefix, lemma_subrange_all;
}

pub(crate) proof fn lemma_tcp_oids(g: Tcp, p: Seq<u16>)
    requires
        g.oids_declared(p),
    ensures
        distinct_oids(g.leaves()),
        forall|i: int| 0 <= i < g.leaves().len() ==> (#[trigger] g.leaves()[i]).oid.len() > p.len()
            && g.leaves()[i].oid[p.len() as int] == 6,
        extends_by(g.own_leaves(), g.oid@, 1),
{
    broadcast use lemma_push_last, lemma_push_prefix, lemma_subrange_all;
    lemma_tcp_conn_table_oids(g.tcpConnTable, g.oid@);
}

pub(crate) proof fn lemma_tcp_conn_table_oids(g: TcpConnTable, p: Seq<u16>)
    requires
        g.oids_declared(p),
    ensures
        distinct_oids(g.leaves()),
        forall|i: int| 0 <= i < g.leaves().len() ==> (#[trigger] g.leaves()[i]).oid.len() > p.len()
            && g.leaves()[i].oid[p.len() as int] == 13,
        extends_by(g.own_leaves(), g.oid@, 2),
{
    broadcast use lemma_push_last, lemma_push_prefix, lemma_subrange_all;
}

pub(crate) proof fn lemma_udp_oids(g: Udp, p: Seq<u16>)
    requires
        g.oids_declared(p),
    ensures
        distinct_oids(g.leaves()),
        forall|i: int| 0 <= i < g.leaves().len() ==> (#[trigger] g.leaves()[i]).oid.len() > p.len()
            && g.leaves()[i].oid[p.len() as int] == 7,
        extends_by(g.own_leaves(), g.oid@, 1),
{
    broadcast use lemma_push_last, lemma_push_prefix, lemma_subrange_all;
    lemma_udp_table_oids(g.udpTable, g.oid@);
}

pub(crate) proof fn lemma_udp_table_oids(g: UdpTable, p: Seq<u16>)
    requires
        g.oids_declared(p),
    ensures
        distinct_oids(g.leaves()),
        forall|i: int| 0 <= i < g.leaves().len() ==> (#[trigger] g.leaves()[i]).oid.len() > p.len()
            && g.leaves()[i].oid[p.len() as int] == 5,
        extends_by(g.own_leaves(), g.oid@, 2),
{
    broadcast use lemma_push_last, lemma_push_prefix, lemma_subrange_all;
}

pub(crate) proof fn lemma_egp_oids(g: Egp, p: Seq<u16>)
    requires
        g.oids_declared(p),
    ensures
        distinct_oids(g.leaves()),
        forall|i: int| 0 <= i < g.leaves().len() ==> (#[trigger] g.leaves()[i]).oid.len() > p.len()
            && g.leaves()[i].oid[p.len() as int] == 8,
        extends_by(g.own_leaves(), g.oid@, 1),
{
    broadcast use lemma_push_last, lemma_push_prefix, lemma_subrange_all;
    lemma_egp_neigh_table_oids(g.egpNeighTable, g.oid@);
}

pub(crate) proof fn lemma_egp_neigh_table_oids(g: EgpNeighTable, p: Seq<u16>)
    requires
        g.oids_declared(p),
    ensures
        distinct_oids(g.leaves()),
        forall|i: int| 0 <= i < g.leaves().len() ==> (#[trigger] g.leaves()[i]).oid.len() > p.len()
            && g.leaves()[i].oid[p.len() as int] == 5,
        extends_by(g.own_leaves(), g.oid@, 2),
{
    broadcast use lemma_push_last, lemma_push_prefix, lemma_subrange_all;
}

pub(crate) proof fn lemma_snmp_oids(g: Snmp, p: Seq<u16>)
    requires
        g.oids_declared(p),
    ensures
        distinct_oids(g.leaves()),
        forall|i: int| 0 <= i < g.leaves().len() ==> (#[trigger] g.leaves()[i]).oid.len() > p.len()
            && g.leaves()[i].oid[p.len() as int] == 11,
        extends_by(g.own_leaves(), g.oid@, 1),
{
    broadcast use lemma_push_last, lemma_push_prefix, lemma_subrange_all;
}

pub(crate) proof fn lemma_snmp_resolves(g: Snmp, p: Seq<u16>)
    requires
        g.oids_declared(p),
        p.len() == 6,
    ensures
        forall|i: int| 0 <= i < g.own_leaves().len()
            ==> g.find_spec(#[trigger] g.own_leaves()[i].oid) == Some(g.own_leaves()[i]),
        forall|q: Seq<u16>| addresses_no_leaf(g.leaves(), q) ==> (#[trigger] g.find_spec(q)) is None,
{
    broadcast use lemma_push_last, lemma_push_prefix, lemma_subrange_all;

    assert forall|q: Seq<u16>| addresses_no_leaf(g.leaves(), q) implies (#[trigger] g.find_spec(q)) is None by {
        assert(g.leaves()[0] == g.snmpInPkts@);
        assert(g.leaves()[1] == g.snmpOutPkts@);
        assert(g.leaves()[2] == g.snmpInBadVersions@);
        assert(g.leaves()[3] == g.snmpInBadCommunityNames@);
        assert(g.leaves()[4] == g.snmpInBadCommunityUses@);
        assert(g.leaves()[5] == g.snmpInASNParseErrs@);
        assert(g.leaves()[6] == g.snmpInTooBigs@);
        assert(g.leaves()[7] == g.snmpInNoSuchNames@);
        assert(g.leaves()[8] == g.snmpInBadValues@);
        assert(g.leaves()[9] == g.snmpInReadOnlys@);
        assert(g.leaves()[10] == g.snmpInGenErrs@);
        assert(g.leaves()[11] == g.snmpInTotalReqVars@);
        assert(g.leaves()[12] == g.snmpInTotalSetVars@);
        assert(g.leaves()[13] == g.snmpInGetRequests@);
        assert(g.leaves()[14] == g.snmpInGetNexts@);
        assert(g.leaves()[15] == g.snmpInSetRequests@);
        assert(g.leaves()[16] == g.snmpInGetResponses@);
        assert(g.leaves()[17] == g.snmpInTraps@);
        assert(g.leaves()[18] == g.snmpOutTooBigs@);
        assert(g.leaves()[19] == g.snmpOutNoSuchNames@);
        assert(g.leaves()[20] == g.snmpOutBadValues@);
        assert(g.leaves()[21] == g.snmpOutGenErrs@);
        assert(g.leaves()[22] == g.snmpOutGetRequests@);
        assert(g.leaves()[23] == g.snmpOutGetNexts@);
        assert(g.leaves()[24] == g.snmpOutSetRequests@);
        assert(g.leaves()[25] == g.snmpOutGetResponses@);
        assert(g.leaves()[26] == g.snmpOutTraps@);
        assert(g.leaves()[27] == g.snmpEnableAuthenTraps@);
    }
}

pub(crate) proof fn lemma_egp_neigh_table_resolves(g: EgpNeighTable, p: Seq<u16>)
    requires
        g.oids_declared(p),
        p.len() == 7,
    ensures
        forall|i: int, r: int|
            0 <= i < g.own_leaves().len() && 0 <= r < g.own_leaves()[i].values.len() && r <= 65535
                ==> g.find_spec(#[trigger] g.own_leaves()[i].oid.push(r as u16)) == Some(g.own_leaves()[i].row(r)),
        forall|q: Seq<u16>| addresses_no_leaf(g.leaves(), q) ==> (#[trigger] g.find_spec(q)) is None,
{
    broadcast use lemma_push_last, lemma_push_prefix, lemma_subrange_all;

    assert forall|i: int, r: int|
        0 <= i < g.own_leaves().len() && 0 <= r < g.own_leaves()[i].values.len() && r <= 65535
            implies g.find_spec(#[trigger] g.own_leaves()[i].oid.push(r as u16)) == Some(g.own_leaves()[i].row(r)) by {
        let q = g.own_leaves()[i].oid.push(r as u16);
        assert(q.last() == r as u16);
    }
    assert forall|q: Seq<u16>| addresses_no_leaf(g.leaves(), q) implies (#[trigger] g.find_spec(q)) is None by {
        assert(g.leaves()[0] == g.egpNeighState@);
        assert(g.leaves()[1] == g.egpNeighAddr@);
        assert(g.leaves()[2] == g.egpNeighAs@);
        assert(g.leaves()[3] == g.egpNeighInMsgs@);
        assert(g.leaves()[4] == g.egpNeighInErrs@);
        assert(g.leaves()[5] == g.egpNeighOutMsgs@);
        assert(g.leaves()[6] == g.egpNeighOutErrs@);
        assert(g.leaves()[7] == g.egpNeighInErrMsgs@);
        assert(g.leaves()[8] == g.egpNeighOutErrMsgs@);
        assert(g.leaves()[9] == g.egpNeighStateUps@);
        assert(g.leaves()[10] == g.egpNeighStateDowns@);
        assert(g.leaves()[11] == g.egpNeighIntervalHello@);
        assert(g.leaves()[12] == g.egpNeighIntervalPoll@);
        assert(g.leaves()[13] == g.egpNeighMode@);
        assert(g.leaves()[14] == g.egpNeighEventTrigger@);
    }
}

pub(crate) proof fn lemma_egp_resolves(g: Egp, p: Seq<u16>)
    requires
        g.oids_declared(p),
        p.len() == 6,
    ensures
        forall|i: int| 0 <= i < g.own_leaves().len()
            ==> g.find_spec(#[trigger] g.own_leaves()[i].oid) == Some(g.own_leaves()[i]),
        forall|q: Seq<u16>| level_match(q, 8, g.egpNeighTable.oid@) ==> #[trigger] g.find_spec(q) == g.egpNeighTable.find_spec(q),
        forall|q: Seq<u16>| addresses_no_leaf(g.leaves(), q) ==> (#[trigger] g.find_spec(q)) is None,
{
    broadcast use lemma_push_last, lemma_push_prefix, lemma_subrange_all;

    lemma_egp_neigh_table_resolves(g.egpNeighTable, g.oid@);
    assert forall|q: Seq<u16>| addresses_no_leaf(g.leaves(), q) implies (#[trigger] g.find_spec(q)) is None by {
        assert(g.leaves()[0] == g.egpInMsgs@);
        assert(g.leaves()[1] == g.egpInErrors@);
        assert(g.leaves()[2] == g.egpOutMsgs@);
        assert(g.leaves()[3] == g.egpOutErrors@);
        assert forall|i: int| 0 <= i < g.egpNeighTable.leaves().len() implies !level_match(q, (#[trigger] g.egpNeighTable.leaves()[i]).oid.len() as int, g.egpNeighTable.leaves()[i].oid) by {
            assert(g.leaves()[4 + i] == g.egpNeighTable.leaves()[i]);
        }
        assert(g.leaves()[19] == g.egpAs@);
    }
}

pub(crate) proof fn lemma_udp_table_resolves(g: UdpTable, p: Seq<u16>)
    requires
        g.oids_declared(p),
        p.len() == 7,
    ensures
        forall|i: int, r: int|
            0 <= i < g.own_leaves().len() && 0 <= r < g.own_leaves()[i].values.len() && r <= 65535
                ==> g.find_spec(#[trigger] g.own_leaves()[i].oid.push(r as u16)) == Some(g.own_leaves()[i].row(r)),
        forall|q: Seq<u16>| addresses_no_leaf(g.leaves(), q) ==> (#[trigger] g.find_spec(q)) is None,
{
    broadcast use lemma_push_last, lemma_push_prefix, lemma_subrange_all;

    assert forall|i: int, r: int|
        0 <= i < g.own_leaves().len() && 0 <= r < g.own_leaves()[i].values.len() && r <= 65535
            implies g.find_spec(#[trigger] g.own_leaves()[i].oid.push(r as u16)) == Some(g.own_leaves()[i].row(r)) by {
        let q = g.own_leaves()[i].oid.push(r as u16);
        assert(q.last() == r as u16);
    }
    assert forall|q: Seq<u16>| addresses_no_leaf(g.leaves(), q) implies (#[trigger] g.find_spec(q)) is None by {
        assert(g.leaves()[0] == g.udpLocalAddress@);
        assert(g.leaves()[1] == g.udpLocalPort@);
    }
}

pub(crate) proof fn lemma_udp_resolves(g: Udp, p: Seq<u16>)
    requires
        g.oids_declared(p),
        p.len() == 6,
    ensures
        forall|i: int| 0 <= i < g.own_leaves().len()
            ==> g.find_spec(#[trigger] g.own_leaves()[i].oid) == Some(g.own_leaves()[i]),
        forall|q: Seq<u16>| level_match(q, 8, g.udpTable.oid@) ==> #[trigger] g.find_spec(q) == g.udpTable.find_spec(q),
        forall|q: Seq<u16>| addresses_no_leaf(g.leaves(), q) ==> (#[trigger] g.find_spec(q)) is None,
{
    broadcast use lemma_push_last, lemma_push_prefix, lemma_subrange_all;

    lemma_udp_table_resolves(g.udpTable, g.oid@);
    assert forall|q: Seq<u16>| addresses_no_leaf(g.leaves(), q) implies (#[trigger] g.find_spec(q)) is None by {
        assert(g.leaves()[0] == g.udpInDatagrams@);
        assert(g.leaves()[1] == g.udpNoPorts@);
        assert(g.leaves()[2] == g.udpInErrors@);
        assert(g.leaves()[3] == g.udpOutDatagrams@);
        assert forall|i: int| 0 <= i < g.udpTable.leaves().len() implies !level_match(q, (#[trigger] g.udpTable.leaves()[i]).oid.len() as int, g.udpTable.leaves()[i].oid) by {
            assert(g.leaves()[4 + i] == g.udpTable.leaves()[i]);
        }
    }
}

pub(crate) proof fn lemma_tcp_conn_table_resolves(g: TcpConnTable, p: Seq<u16>)
    requires
        g.oids_declared(p),
        p.len() == 7,
    ensures
        forall|i: int, r: int|
            0 <= i < g.own_leaves().len() && 0 <= r < g.own_leaves()[i].values.len() && r <= 65535
                ==> g.find_spec(#[trigger] g.own_leaves()[i].oid.push(r as u16)) == Some(g.own_leaves()[i].row(r)),
        forall|q: Seq<u16>| addresses_no_leaf(g.leaves(), q) ==> (#[trigger] g.find_spec(q)) is None,
{
    broadcast use lemma_push_last, lemma_push_prefix, lemma_subrange_all;

    assert forall|i: int, r: int|
        0 <= i < g.own_leaves().len() && 0 <= r < g.own_leaves()[i].values.len() && r <= 65535
            implies g.find_spec(#[trigger] g.own_leaves()[i].oid.push(r as u16)) == Some(g.own_leaves()[i].row(r)) by {
        let q = g.own_leaves()[i].oid.push(r as u16);
        assert(q.last() == r as u16);
    }
    assert forall|q: Seq<u16>| addresses_no_leaf(g.leaves(), q) implies (#[trigger] g.find_spec(q)) is None by {
        assert(g.leaves()[0] == g.tcpConnState@);
        assert(g.leaves()[1] == g.tcpConnLocalAddress@);
        assert(g.leaves()[2] == g.tcpConnLocalPort@);
        assert(g.leaves()[3] == g.tcpConnRemAddress@);
        assert(g.leaves()[4] == g.tcpConnRemPort@);
    }
}

pub(crate) proof fn lemma_tcp_resolves(g: Tcp, p: Seq<u16>)
    requires
        g.oids_declared(p),
        p.len() == 6,
    ensures
        forall|i: int| 0 <= i < g.own_leaves().len()
            ==> g.find_spec(#[trigger] g.own_leaves()[i].oid) == Some(g.own_leaves()[i]),
        forall|q: Seq<u16>| level_match(q, 8, g.tcpConnTable.oid@) ==> #[trigger] g.find_spec(q) == g.tcpConnTable.find_spec(q),
        forall|q: Seq<u16>| addresses_no_leaf(g.leaves(), q) ==> (#[trigger] g.find_spec(q)) is None,
{
    broadcast use lemma_push_last, lemma_push_prefix, lemma_subrange_all;

    lemma_tcp_conn_table_resolves(g.tcpConnTable, g.oid@);
    assert forall|q: Seq<u16>| addresses_no_leaf(g.leaves(), q) implies (#[trigger] g.find_spec(q)) is None by {
        assert(g.leaves()[0] == g.tcpRtoAlgorithm@);
        assert(g.leaves()[1] == g.tcpRtoMin@);
        assert(g.leaves()[2] == g.tcpRtoMax@);
        assert(g.leaves()[3] == g.tcpMaxConn@);
        assert(g.leaves()[4] == g.tcpActiveOpens@);
        assert(g.leaves()[5] == g.tcpPassiveOpens@);
        assert(g.leaves()[6] == g.tcpAttemptFails@);
        assert(g.leaves()[7] == g.tcpEstabResets@);
        assert(g.leaves()[8] == g.tcpCurrEstab@);
        assert(g.leaves()[9] == g.tcpInSegs@);
        assert(g.leaves()[10] == g.tcpOutSegs@);
        assert(g.leaves()[11] == g.tcpRetransSegs@);
        assert forall|i: int| 0 <= i < g.tcpConnTable.leaves().len() implies !level_match(q, (#[trigger] g.tcpConnTable.leaves()[i]).oid.len() as int, g.tcpConnTable.leaves()[i].oid) by {
            assert(g.leaves()[12 + i] == g.tcpConnTable.leaves()[i]);
        }
        assert(g.leaves()[17] == g.tcpInErrs@);
        assert(g.leaves()[18] == g.tcpOutRsts@);
    }
}

pub(crate) proof fn lemma_icmp_resolves(g: Icmp, p: Seq<u16>)
    requires
        g.oids_declared(p),
        p.len() == 6,
    ensures
        forall|i: int| 0 <= i < g.own_leaves().len()
            ==> g.find_spec(#[trigger] g.own_leaves()[i].oid) == Some(g.own_leaves()[i]),
        forall|q: Seq<u16>| addresses_no_leaf(g.leaves(), q) ==> (#[trigger] g.find_spec(q)) is None,
{
    broadcast use lemma_push_last, lemma_push_prefix, lemma_subrange_all;

    assert forall|q: Seq<u16>| addresses_no_leaf(g.leaves(), q) implies (#[trigger] g.find_spec(q)) is None by {
        assert(g.leaves()[0] == g.icmpInMsgs@);
        assert(g.leaves()[1] == g.icmpInErrors@);
        assert(g.leaves()[2] == g.icmpInDestUnreachs@);
        assert(g.leaves()[3] == g.icmpInTimeExcds@);
        assert(g.leaves()[4] == g.icmpInParmProbs@);
        assert(g.leaves()[5] == g.icmpInSrcQuenchs@);
        assert(g.leaves()[6] == g.icmpInRedirects@);
        assert(g.leaves()[7] == g.icmpInEchos@);
        assert(g.leaves()[8] == g.icmpInEchoReps@);
        assert(g.leaves()[9] == g.icmpInTimestamps@);
        assert(g.leaves()[10] == g.icmpInTimestampReps@);
        assert(g.leaves()[11] == g.icmpInAddrMasks@);
        assert(g.leaves()[12] == g.icmpInAddrMaskReps@);
        assert(g.leaves()[13] == g.icmpOutMsgs@);
        assert(g.leaves()[14] == g.icmpOutErrors@);
        assert(g.leaves()[15] == g.icmpOutDestUnreachs@);
        assert(g.leaves()[16] == g.icmpOutTimeExcds@);
        assert(g.leaves()[17] == g.icmpOutParmProbs@);
        assert(g.leaves()[18] == g.icmpOutSrcQuenchs@);
        assert(g.leaves()[19] == g.icmpOutRedirects@);
        assert(g.leaves()[20] == g.icmpOutEchos@);
        assert(g.leaves()[21] == g.icmpOutEchoReps@);
        assert(g.leaves()[22] == g.icmpOutTimestamps@);
        assert(g.leaves()[23] == g.icmpOutTimestampReps@);
        assert(g.leaves()[24] == g.icmpOutAddrMasks@);
        assert(g.leaves()[25] == g.icmpOutAddrMaskReps@);
    }
}

pub(crate) proof fn lemma_ip_net_to_media_table_resolves(g: IpNetToMediaTable, p: Seq<u16>)
    requires
        g.oids_declared(p),
        p.len() == 7,
    ensures
        forall|i: int, r: int|
            0 <= i < g.own_leaves().len() && 0 <= r < g.own_leaves()[i].values.len() && r <= 65535
                ==> g.find_spec(#[trigger] g.own_leaves()[i].oid.push(r as u16)) == Some(g.own_leaves()[i].row(r)),
        forall|q: Seq<u16>| addresses_no_leaf(g.leaves(), q) ==> (#[trigger] g.find_spec(q)) is None,
{
    broadcast use lemma_push_last, lemma_push_prefix, lemma_subrange_all;

    assert forall|i: int, r: int|
        0 <= i < g.own_leaves().len() && 0 <= r < g.own_leaves()[i].values.len() && r <= 65535
            implies g.find_spec(#[trigger] g.own_leaves()[i].oid.push(r as u16)) == Some(g.own_leaves()[i].row(r)) by {
        let q = g.own_leaves()[i].oid.push(r as u16);
        assert(q.last() == r as u16);
    }
    assert forall|q: Seq<u16>| addresses_no_leaf(g.leaves(), q) implies (#[trigger] g.find_spec(q)) is None by {
        assert(g.leaves()[0] == g.ipNetToMediaIfIndex@);
        assert(g.leaves()[1] == g.ipNetToMediaPhysAddress@);
        assert(g.leaves()[2] == g.ipNetToMediaNetAddress@);
        assert(g.leaves()[3] == g.ipNetToMediaType@);
    }
}

pub(crate) proof fn lemma_ip_route_table_resolves(g: IpRouteTable, p: Seq<u16>)
    requires
        g.oids_declared(p),
        p.len() == 7,
    ensures
        forall|i: int, r: int|
            0 <= i < g.own_leaves().len() && 0 <= r < g.own_leaves()[i].values.len() && r <= 65535
                ==> g.find_spec(#[trigger] g.own_leaves()[i].oid.push(r as u16)) == Some(g.own_leaves()[i].row(r)),
        forall|q: Seq<u16>| addresses_no_leaf(g.leaves(), q) ==> (#[trigger] g.find_spec(q)) is None,
{
    broadcast use lemma_push_last, lemma_push_prefix, lemma_subrange_all;

    assert forall|i: int, r: int|
        0 <= i < g.own_leaves().len() && 0 <= r < g.own_leaves()[i].values.len() && r <= 65535
            implies g.find_spec(#[trigger] g.own_leaves()[i].oid.push(r as u16)) == Some(g.own_leaves()[i].row(r)) by {
        let q = g.own_leaves()[i].oid.push(r as u16);
        assert(q.last() == r as u16);
    }
    assert forall|q: Seq<u16>| addresses_no_leaf(g.leaves(), q) implies (#[trigger] g.find_spec(q)) is None by {
        assert(g.leaves()[0] == g.ipRouteDest@);
        assert(g.leaves()[1] == g.ipRouteIfIndex@);
        assert(g.leaves()[2] == g.ipRouteMetric1@);
        assert(g.leaves()[3] == g.ipRouteMetric2@);
        assert(g.leaves()[4] == g.ipRouteMetric3@);
        assert(g.leaves()[5] == g.ipRouteMetric4@);
        assert(g.leaves()[6] == g.ipRouteNextHop@);
        assert(g.leaves()[7] == g.ipRouteType@);
        assert(g.leaves()[8] == g.ipRouteProto@);
        assert(g.leaves()[9] == g.ipRouteAge@);
        assert(g.leaves()[10] == g.ipRouteMask@);
        assert(g.leaves()[11] == g.ipRouteMetric5@);
        assert(g.leaves()[12] == g.ipRouteInfo@);
    }
}

pub(crate) proof fn lemma_ip_addr_table_resolves(g: IpAddrTable, p: Seq<u16>)
    requires
        g.oids_declared(p),
        p.len() == 7,
    ensures
        forall|i: int, r: int|
            0 <= i < g.own_leaves().len() && 0 <= r < g.own_leaves()[i].values.len() && r <= 65535
                ==> g.find_spec(#[trigger] g.own_leaves()[i].oid.push(r as u16)) == Some(g.own_leaves()[i].row(r)),
        forall|q: Seq<u16>| addresses_no_leaf(g.leaves(), q) ==> (#[trigger] g.find_spec(q)) is None,
{
    broadcast use lemma_push_last, lemma_push_prefix, lemma_subrange_all;

    assert forall|i: int, r: int|
        0 <= i < g.own_leaves().len() && 0 <= r < g.own_leaves()[i].values.len() && r <= 65535
            implies g.find_spec(#[trigger] g.own_leaves()[i].oid.push(r as u16)) == Some(g.own_leaves()[i].row(r)) by {
        let q = g.own_leaves()[i].oid.push(r as u16);
        assert(q.last() == r as u16);
    }
    assert forall|q: Seq<u16>| addresses_no_leaf(g.leaves(), q) implies (#[trigger] g.find_spec(q)) is None by {
        assert(g.leaves()[0] == g.ipAdEntAddr@);
        assert(g.leaves()[1] == g.ipAdEntIfIndex@);
        assert(g.leaves()[2] == g.ipAdEntNetMask@);
        assert(g.leaves()[3] == g.ipAdEntBcastAddr@);
        assert(g.leaves()[4] == g.ipAdEntReasmMaxSize@);
    }
}

#[verifier::spinoff_prover]
#[verifier::rlimit(100)]
pub(crate) proof fn lemma_ip_resolves(g: Ip, p: Seq<u16>)
    requires
        g.oids_declared(p),
        p.len() == 6,
    ensures
        forall|i: int| 0 <= i < g.own_leaves().len()
            ==> g.find_spec(#[trigger] g.own_leaves()[i].oid) == Some(g.own_leaves()[i]),
        forall|q: Seq<u16>| level_match(q, 8, g.ipAddrTable.oid@) ==> #[trigger] g.find_spec(q) == g.ipAddrTable.find_spec(q),
        forall|q: Seq<u16>| level_match(q, 8, g.ipRouteTable.oid@) ==> #[trigger] g.find_spec(q) == g.ipRouteTable.find_spec(q),
        forall|q: Seq<u16>| level_match(q, 8, g.ipNetToMediaTable.oid@) ==> #[trigger] g.find_spec(q) == g.ipNetToMediaTable.find_spec(q),
        forall|q: Seq<u16>| addresses_no_leaf(g.leaves(), q) ==> (#[trigger] g.find_spec(q)) is None,
{
    broadcast use lemma_push_last, lemma_push_prefix, lemma_subrange_all;

    lemma_ip_addr_table_resolves(g.ipAddrTable, g.oid@);
    lemma_ip_route_table_resolves(g.ipRouteTable, g.oid@);
    lemma_ip_net_to_media_table_resolves(g.ipNetToMediaTable, g.oid@);
    assert forall|q: Seq<u16>| addresses_no_leaf(g.leaves(), q) implies (#[trigger] g.find_spec(q)) is None by {
        assert(g.leaves()[0] == g.ipForwarding@);
        assert(g.leaves()[1] == g.ipDefaultTTL@);
        assert(g.leaves()[2] == g.ipInReceives@);
        assert(g.leaves()[3] == g.ipInHdrErrors@);
        assert(g.leaves()[4] == g.ipInAddrErrors@);
        assert(g.leaves()[5] == g.ipForwDatagrams@);
        assert(g.leaves()[6] == g.ipInUnknownProtos@);
        assert(g.leaves()[7] == g.ipInDiscards@);
        assert(g.leaves()[8] == g.ipInDelivers@);
        assert(g.leaves()[9] == g.ipOutRequests@);
        assert(g.leaves()[10] == g.ipOutDiscards@);
        assert(g.leaves()[11] == g.ipOutNoRoutes@);
        assert(g.leaves()[12] == g.ipReasmTimeout@);
        assert(g.leaves()[13] == g.ipReasmReqds@);
        assert(g.leaves()[14] == g.ipReasmOKs@);
        assert(g.leaves()[15] == g.ipReasmFails@);
        assert(g.leaves()[16] == g.ipFragOKs@);
        assert(g.leaves()[17] == g.ipFragFails@);
        assert(g.leaves()[18] == g.ipFragCreates@);
        assert forall|i: int| 0 <= i < g.ipAddrTable.leaves().len() implies !level_match(q, (#[trigger] g.ipAddrTable.leaves()[i]).oid.len() as int, g.ipAddrTable.leaves()[i].oid) by {
            assert(g.leaves()[19 + i] == g.ipAddrTable.leaves()[i]);
        }
        assert forall|i: int| 0 <= i < g.ipRouteTable.leaves().len() implies !level_match(q, (#[trigger] g.ipRouteTable.leaves()[i]).oid.len() as int, g.ipRouteTable.leaves()[i].oid) by {
            assert(g.leaves()[24 + i] == g.ipRouteTable.leaves()[i]);
        }
        assert forall|i: int| 0 <= i < g.ipNetToMediaTable.leaves().len() implies !level_match(q, (#[trigger] g.ipNetToMediaTable.leaves()[i]).oid.len() as int, g.ipNetToMediaTable.leaves()[i].oid) by {
            assert(g.leaves()[37 + i] == g.ipNetToMediaTable.leaves()[i]);
        }
        assert(g.leaves()[41] == g.ipRoutingDiscards@);
    }
}

pub(crate) proof fn lemma_at_table_resolves(g: AtTable, p: Seq<u16>)
    requires
        g.oids_declared(p),
        p.len() == 7,
    ensures
        forall|i: int, r: int|
            0 <= i < g.own_leaves().len() && 0 <= r < g.own_leaves()[i].values.len() && r <= 65535
                ==> g.find_spec(#[trigger] g.own_leaves()[i].oid.push(r as u16)) == Some(g.own_leaves()[i].row(r)),
        forall|q: Seq<u16>| addresses_no_leaf(g.leaves(), q) ==> (#[trigger] g.find_spec(q)) is None,
{
    broadcast use lemma_push_last, lemma_push_prefix, lemma_subrange_all;

    assert forall|i: int, r: int|
        0 <= i < g.own_leaves().len() && 0 <= r < g.own_leaves()[i].values.len() && r <= 65535
            implies g.find_spec(#[trigger] g.own_leaves()[i].oid.push(r as u16)) == Some(g.own_leaves()[i].row(r)) by {
        let q = g.own_leaves()[i].oid.push(r as u16);
        assert(q.last() == r as u16);
    }
    assert forall|q: Seq<u16>| addresses_no_leaf(g.leaves(), q) implies (#[trigger] g.find_spec(q)) is None by {
        assert(g.leaves()[0] == g.atIfIndex@);
        assert(g.leaves()[1] == g.atPhysAddress@);
        assert(g.leaves()[2] == g.atNetAddress@);
    }
}

pub(crate) proof fn lemma_at_resolves(g: At, p: Seq<u16>)
    requires
        g.oids_declared(p),
        p.len() == 6,
    ensures
        forall|i: int| 0 <= i < g.own_leaves().len()
            ==> g.find_spec(#[trigger] g.own_leaves()[i].oid) == Some(g.own_leaves()[i]),
        forall|q: Seq<u16>| level_match(q, 8, g.atTable.oid@) ==> #[trigger] g.find_spec(q) == g.atTable.find_spec(q),
        forall|q: Seq<u16>| addresses_no_leaf(g.leaves(), q) ==> (#[trigger] g.find_spec(q)) is None,
{
    broadcast use lemma_push_last, lemma_push_prefix, lemma_subrange_all;

    lemma_at_table_resolves(g.atTable, g.oid@);
    assert forall|q: Seq<u16>| addresses_no_leaf(g.leaves(), q) implies (#[trigger] g.find_spec(q)) is None by {
        assert forall|i: int| 0 <= i < g.atTable.leaves().len() implies !level_match(q, (#[trigger] g.atTable.leaves()[i]).oid.len() as int, g.atTable.leaves()[i].oid) by {
            assert(g.leaves()[0 + i] == g.atTable.leaves()[i]);
        }
    }
}

pub(crate) proof fn lemma_if_table_resolves(g: IfTable, p: Seq<u16>)
    requires
        g.oids_declared(p),
        p.len() == 7,
    ensures
        forall|i: int, r: int|
            0 <= i < g.own_leaves().len() && 0 <= r < g.own_leaves()[i].values.len() && r <= 65535
                ==> g.find_spec(#[trigger] g.own_leaves()[i].oid.push(r as u16)) == Some(g.own_leaves()[i].row(r)),
        forall|q: Seq<u16>| addresses_no_leaf(g.leaves(), q) ==> (#[trigger] g.find_spec(q)) is None,
{
    broadcast use lemma_push_last, lemma_push_prefix, lemma_subrange_all;

    assert forall|i: int, r: int|
        0 <= i < g.own_leaves().len() && 0 <= r < g.own_leaves()[i].values.len() && r <= 65535
            implies g.find_spec(#[trigger] g.own_leaves()[i].oid.push(r as u16)) == Some(g.own_leaves()[i].row(r)) by {
        let q = g.own_leaves()[i].oid.push(r as u16);
        assert(q.last() == r as u16);
    }
    assert forall|q: Seq<u16>| addresses_no_leaf(g.leaves(), q) implies (#[trigger] g.find_spec(q)) is None by {
        assert(g.leaves()[0] == g.ifIndex@);
        assert(g.leaves()[1] == g.ifDescr@);
        assert(g.leaves()[2] == g.ifType@);
        assert(g.leaves()[3] == g.ifMtu@);
        assert(g.leaves()[4] == g.ifSpeed@);
        assert(g.leaves()[5] == g.ifPhysAddress@);
        assert(g.leaves()[6] == g.ifAdminStatus@);
        assert(g.leaves()[7] == g.ifOperStatus@);
        assert(g.leaves()[8] == g.ifLastChange@);
        assert(g.leaves()[9] == g.ifInOctets@);
        assert(g.leaves()[10] == g.ifInUcastPkts@);
        assert(g.leaves()[11] == g.ifInNUcastPkts@);
        assert(g.leaves()[12] == g.ifInDiscards@);
        assert(g.leaves()[13] == g.ifInErrors@);
        assert(g.leaves()[14] == g.ifInUnknownProtos@);
        assert(g.leaves()[15] == g.ifOutOctets@);
        assert(g.leaves()[16] == g.ifOutUcastPkts@);
        assert(g.leaves()[17] == g.ifOutNUcastPkts@);
        assert(g.leaves()[18] == g.ifOutDiscards@);
        assert(g.leaves()[19] == g.ifOutErrors@);
        assert(g.leaves()[20] == g.ifOutQLen@);
        assert(g.leaves()[21] == g.ifSpecific@);
    }
}

pub(crate) proof fn lemma_interfaces_resolves(g: Interfaces, p: Seq<u16>)
    requires
        g.oids_declared(p),
        p.len() == 6,
    ensures
        forall|i: int| 0 <= i < g.own_leaves().len()
            ==> g.find_spec(#[trigger] g.own_leaves()[i].oid) == Some(g.own_leaves()[i]),
        forall|q: Seq<u16>| level_match(q, 8, g.ifTable.oid@) ==> #[trigger] g.find_spec(q) == g.ifTable.find_spec(q),
        forall|q: Seq<u16>| addresses_no_leaf(g.leaves(), q) ==> (#[trigger] g.find_spec(q)) is None,
{
    broadcast use lemma_push_last, lemma_push_prefix, lemma_subrange_all;

    lemma_if_table_resolves(g.ifTable, g.oid@);
    assert forall|q: Seq<u16>| addresses_no_leaf(g.leaves(), q) implies (#[trigger] g.find_spec(q)) is None by {
        assert(g.leaves()[0] == g.ifNumber@);
        assert forall|i: int| 0 <= i < g.ifTable.leaves().len() implies !level_match(q, (#[trigger] g.ifTable.leaves()[i]).oid.len() as int, g.ifTable.leaves()[i].oid) by {
            assert(g.leaves()[1 + i] == g.ifTable.leaves()[i]);
        }
    }
}

pub(crate) proof fn lemma_system_resolves(g: System, p: Seq<u16>)
    requires
        g.oids_declared(p),
        p.len() == 6,
    ensures
        forall|i: int| 0 <= i < g.own_leaves().len()
            ==> g.find_spec(#[trigger] g.own_leaves()[i].oid) == Some(g.own_leaves()[i]),
        forall|q: Seq<u16>| addresses_no_leaf(g.leaves(), q) ==> (#[trigger] g.find_spec(q)) is None,
{
    broadcast use lemma_push_last, lemma_push_prefix, lemma_subrange_all;

    assert forall|q: Seq<u16>| addresses_no_leaf(g.leaves(), q) implies (#[trigger] g.find_spec(q)) is None by {
        assert(g.leaves()[0] == g.sysDesc@);
        assert(g.leaves()[1] == g.sysObjectID@);
        assert(g.leaves()[2] == g.sysUpTime@);
        assert(g.leaves()[3] == g.sysContact@);
        assert(g.leaves()[4] == g.sysName@);
        assert(g.leaves()[5] == g.sysLocation@);
        assert(g.leaves()[6] == g.sysServices@);
    }
}

} // verus!
