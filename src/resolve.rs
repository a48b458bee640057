//! The resolver: from an identifier to the leaf, or the table row, that it addresses.

use vstd::prelude::*;
use crate::oid::{level_match, level_matches};
use crate::schema::{
    At, AtTable, Egp, EgpNeighTable, Icmp, IfTable, Interfaces, Ip, IpAddrTable, IpNetToMediaTable,
    IpRouteTable, MibObject, Snmp, System, Tcp, TcpConnTable, Udp, UdpTable,
};
use crate::value::{Leaf, MibValue};

verus! {

/// The view of an optional leaf.
pub open spec fn opt_view(r: Option<MibValue>) -> Option<Leaf> {
    match r {
        Some(v) => Some(v@),
        None => None,
    }
}

/// The row of column `c` that the last arc of `q` addresses, counting from zero.
pub open spec fn row_at(c: Leaf, q: Seq<u16>) -> Option<Leaf> {
    if q.len() > 0 && (q.last() as int) < c.values.len() {
        Some(c.row(q.last() as int))
    } else {
        None
    }
}

fn table_row(c: &MibValue, oid: &Vec<u16>) -> (r: Option<MibValue>)
    ensures
        opt_view(r) == row_at(c@, oid@),
{
    if oid.len() == 0 {
        return None;
    }
    c.clone_index(oid[oid.len() - 1] as usize)
}

impl MibObject {
    /// What `q` resolves to: its first 7 arcs are compared with each group's identifier (and the
    /// identifier of the scalar `transmission`), in declaration order, and the first that is equal
    /// decides; `None` where none is, or where `q` is shorter.
    pub open spec fn find_spec(self, q: Seq<u16>) -> Option<Leaf> {
        if level_match(q, 7, self.system.oid@) {
            self.system.find_spec(q)
        } else if level_match(q, 7, self.interfaces.oid@) {
            self.interfaces.find_spec(q)
        } else if level_match(q, 7, self.at.oid@) {
            self.at.find_spec(q)
        } else if level_match(q, 7, self.ip.oid@) {
            self.ip.find_spec(q)
        } else if level_match(q, 7, self.icmp.oid@) {
            self.icmp.find_spec(q)
        } else if level_match(q, 7, self.tcp.oid@) {
            self.tcp.find_spec(q)
        } else if level_match(q, 7, self.udp.oid@) {
            self.udp.find_spec(q)
        } else if level_match(q, 7, self.egp.oid@) {
            self.egp.find_spec(q)
        } else if level_match(q, 7, self.transmission@.oid) {
            Some(self.transmission@)
        } else if level_match(q, 7, self.snmp.oid@) {
            self.snmp.find_spec(q)
        } else {
            None
        }
    }

    /// The leaf, or the single table row, that `oid` addresses; see `find_spec`.
    pub fn find_oid(&self, oid: Vec<u16>) -> (r: Option<MibValue>)
        ensures
            opt_view(r) == self.find_spec(oid@),
    {
        if level_matches(oid.as_slice(), 7, self.system.oid.as_slice()) {
            return self.system.find_oid(oid);
        }
        if level_matches(oid.as_slice(), 7, self.interfaces.oid.as_slice()) {
            return self.interfaces.find_oid(oid);
        }
        if level_matches(oid.as_slice(), 7, self.at.oid.as_slice()) {
            return self.at.find_oid(oid);
        }
        if level_matches(oid.as_slice(), 7, self.ip.oid.as_slice()) {
            return self.ip.find_oid(oid);
        }
        if level_matches(oid.as_slice(), 7, self.icmp.oid.as_slice()) {
            return self.icmp.find_oid(oid);
        }
        if level_matches(oid.as_slice(), 7, self.tcp.oid.as_slice()) {
            return self.tcp.find_oid(oid);
        }
        if level_matches(oid.as_slice(), 7, self.udp.oid.as_slice()) {
            return self.udp.find_oid(oid);
        }
        if level_matches(oid.as_slice(), 7, self.egp.oid.as_slice()) {
            return self.egp.find_oid(oid);
        }
        if level_matches(oid.as_slice(), 7, self.transmission.oid_ref().as_slice()) {
            return Some(self.transmission.clone());
        }
        if level_matches(oid.as_slice(), 7, self.snmp.oid.as_slice()) {
            return self.snmp.find_oid(oid);
        }
        None
    }
}

impl System {
    /// What `q` resolves to within the group: its first 8 arcs are compared with each
    /// child's identifier in declaration order; an equal scalar is the result, an equal table
    /// resolves `q` further. `None` where no child is equal, or where `q` is shorter.
    pub open spec fn find_spec(self, q: Seq<u16>) -> Option<Leaf> {
        if level_match(q, 8, self.sysDesc@.oid) {
            Some(self.sysDesc@)
        } else if level_match(q, 8, self.sysObjectID@.oid) {
            Some(self.sysObjectID@)
        } else if level_match(q, 8, self.sysUpTime@.oid) {
            Some(self.sysUpTime@)
        } else if level_match(q, 8, self.sysContact@.oid) {
            Some(self.sysContact@)
        } else if level_match(q, 8, self.sysName@.oid) {
            Some(self.sysName@)
        } else if level_match(q, 8, self.sysLocation@.oid) {
            Some(self.sysLocation@)
        } else if level_match(q, 8, self.sysServices@.oid) {
            Some(self.sysServices@)
        } else {
            None
        }
    }

    /// The leaf, or the single table row, that `oid` addresses; see `find_spec`.
    pub fn find_oid(&self, oid: Vec<u16>) -> (r: Option<MibValue>)
        ensures
            opt_view(r) == self.find_spec(oid@),
    {
        if level_matches(oid.as_slice(), 8, self.sysDesc.oid_ref().as_slice()) {
            return Some(self.sysDesc.clone());
        }
        if level_matches(oid.as_slice(), 8, self.sysObjectID.oid_ref().as_slice()) {
            return Some(self.sysObjectID.clone());
        }
        if level_matches(oid.as_slice(), 8, self.sysUpTime.oid_ref().as_slice()) {
            return Some(self.sysUpTime.clone());
        }
        if level_matches(oid.as_slice(), 8, self.sysContact.oid_ref().as_slice()) {
            return Some(self.sysContact.clone());
        }
        if level_matches(oid.as_slice(), 8, self.sysName.oid_ref().as_slice()) {
            return Some(self.sysName.clone());
        }
        if level_matches(oid.as_slice(), 8, self.sysLocation.oid_ref().as_slice()) {
            return Some(self.sysLocation.clone());
        }
        if level_matches(oid.as_slice(), 8, self.sysServices.oid_ref().as_slice()) {
            return Some(self.sysServices.clone());
        }
        None
    }
}

impl Interfaces {
    /// What `q` resolves to within the group: its first 8 arcs are compared with each
    /// child's identifier in declaration order; an equal scalar is the result, an equal table
    /// resolves `q` further. `None` where no child is equal, or where `q` is shorter.
    pub open spec fn find_spec(self, q: Seq<u16>) -> Option<Leaf> {
        if level_match(q, 8, self.ifNumber@.oid) {
            Some(self.ifNumber@)
        } else if level_match(q, 8, self.ifTable.oid@) {
            self.ifTable.find_spec(q)
        } else {
            None
        }
    }

    /// The leaf, or the single table row, that `oid` addresses; see `find_spec`.
    pub fn find_oid(&self, oid: Vec<u16>) -> (r: Option<MibValue>)
        ensures
            opt_view(r) == self.find_spec(oid@),
    {
        if level_matches(oid.as_slice(), 8, self.ifNumber.oid_ref().as_slice()) {
            return Some(self.ifNumber.clone());
        }
        if level_matches(oid.as_slice(), 8, self.ifTable.oid.as_slice()) {
            return self.ifTable.find_oid(oid);
        }
        None
    }
}

impl IfTable {
    /// What `q` resolves to within the table: its first 10 arcs are compared with each
    /// column's identifier in declaration order; the first equal column yields the row that the
    /// last arc of `q` addresses. `None` where no column is equal, the row does not exist, or
    /// `q` is shorter.
    pub open spec fn find_spec(self, q: Seq<u16>) -> Option<Leaf> {
        if level_match(q, 10, self.ifIndex@.oid) {
            row_at(self.ifIndex@, q)
        } else if level_match(q, 10, self.ifDescr@.oid) {
            row_at(self.ifDescr@, q)
        } else if level_match(q, 10, self.ifType@.oid) {
            row_at(self.ifType@, q)
        } else if level_match(q, 10, self.ifMtu@.oid) {
            row_at(self.ifMtu@, q)
        } else if level_match(q, 10, self.ifSpeed@.oid) {
            row_at(self.ifSpeed@, q)
        } else if level_match(q, 10, self.ifPhysAddress@.oid) {
            row_at(self.ifPhysAddress@, q)
        } else if level_match(q, 10, self.ifAdminStatus@.oid) {
            row_at(self.ifAdminStatus@, q)
        } else if level_match(q, 10, self.ifOperStatus@.oid) {
            row_at(self.ifOperStatus@, q)
        } else if level_match(q, 10, self.ifLastChange@.oid) {
            row_at(self.ifLastChange@, q)
        } else if level_match(q, 10, self.ifInOctets@.oid) {
            row_at(self.ifInOctets@, q)
        } else if level_match(q, 10, self.ifInUcastPkts@.oid) {
            row_at(self.ifInUcastPkts@, q)
        } else if level_match(q, 10, self.ifInNUcastPkts@.oid) {
            row_at(self.ifInNUcastPkts@, q)
        } else if level_match(q, 10, self.ifInDiscards@.oid) {
            row_at(self.ifInDiscards@, q)
        } else if level_match(q, 10, self.ifInErrors@.oid) {
            row_at(self.ifInErrors@, q)
        } else if level_match(q, 10, self.ifInUnknownProtos@.oid) {
            row_at(self.ifInUnknownProtos@, q)
        } else if level_match(q, 10, self.ifOutOctets@.oid) {
            row_at(self.ifOutOctets@, q)
        } else if level_match(q, 10, self.ifOutUcastPkts@.oid) {
            row_at(self.ifOutUcastPkts@, q)
        } else if level_match(q, 10, self.ifOutNUcastPkts@.oid) {
            row_at(self.ifOutNUcastPkts@, q)
        } else if level_match(q, 10, self.ifOutDiscards@.oid) {
            row_at(self.ifOutDiscards@, q)
        } else if level_match(q, 10, self.ifOutErrors@.oid) {
            row_at(self.ifOutErrors@, q)
        } else if level_match(q, 10, self.ifOutQLen@.oid) {
            row_at(self.ifOutQLen@, q)
        } else if level_match(q, 10, self.ifSpecific@.oid) {
            row_at(self.ifSpecific@, q)
        } else {
            None
        }
    }

    /// The leaf, or the single table row, that `oid` addresses; see `find_spec`.
    pub fn find_oid(&self, oid: Vec<u16>) -> (r: Option<MibValue>)
        ensures
            opt_view(r) == self.find_spec(oid@),
    {
        if level_matches(oid.as_slice(), 10, self.ifIndex.oid_ref().as_slice()) {
            return table_row(&self.ifIndex, &oid);
        }
        if level_matches(oid.as_slice(), 10, self.ifDescr.oid_ref().as_slice()) {
            return table_row(&self.ifDescr, &oid);
        }
        if level_matches(oid.as_slice(), 10, self.ifType.oid_ref().as_slice()) {
            return table_row(&self.ifType, &oid);
        }
        if level_matches(oid.as_slice(), 10, self.ifMtu.oid_ref().as_slice()) {
            return table_row(&self.ifMtu, &oid);
        }
        if level_matches(oid.as_slice(), 10, self.ifSpeed.oid_ref().as_slice()) {
            return table_row(&self.ifSpeed, &oid);
        }
        if level_matches(oid.as_slice(), 10, self.ifPhysAddress.oid_ref().as_slice()) {
            return table_row(&self.ifPhysAddress, &oid);
        }
        if level_matches(oid.as_slice(), 10, self.ifAdminStatus.oid_ref().as_slice()) {
            return table_row(&self.ifAdminStatus, &oid);
        }
        if level_matches(oid.as_slice(), 10, self.ifOperStatus.oid_ref().as_slice()) {
            return table_row(&self.ifOperStatus, &oid);
        }
        if level_matches(oid.as_slice(), 10, self.ifLastChange.oid_ref().as_slice()) {
            return table_row(&self.ifLastChange, &oid);
        }
        if level_matches(oid.as_slice(), 10, self.ifInOctets.oid_ref().as_slice()) {
            return table_row(&self.ifInOctets, &oid);
        }
        if level_matches(oid.as_slice(), 10, self.ifInUcastPkts.oid_ref().as_slice()) {
            return table_row(&self.ifInUcastPkts, &oid);
        }
        if level_matches(oid.as_slice(), 10, self.ifInNUcastPkts.oid_ref().as_slice()) {
            return table_row(&self.ifInNUcastPkts, &oid);
        }
        if level_matches(oid.as_slice(), 10, self.ifInDiscards.oid_ref().as_slice()) {
            return table_row(&self.ifInDiscards, &oid);
        }
        if level_matches(oid.as_slice(), 10, self.ifInErrors.oid_ref().as_slice()) {
            return table_row(&self.ifInErrors, &oid);
        }
        if level_matches(oid.as_slice(), 10, self.ifInUnknownProtos.oid_ref().as_slice()) {
            return table_row(&self.ifInUnknownProtos, &oid);
        }
        if level_matches(oid.as_slice(), 10, self.ifOutOctets.oid_ref().as_slice()) {
            return table_row(&self.ifOutOctets, &oid);
        }
        if level_matches(oid.as_slice(), 10, self.ifOutUcastPkts.oid_ref().as_slice()) {
            return table_row(&self.ifOutUcastPkts, &oid);
        }
        if level_matches(oid.as_slice(), 10, self.ifOutNUcastPkts.oid_ref().as_slice()) {
            return table_row(&self.ifOutNUcastPkts, &oid);
        }
        if level_matches(oid.as_slice(), 10, self.ifOutDiscards.oid_ref().as_slice()) {
            return table_row(&self.ifOutDiscards, &oid);
        }
        if level_matches(oid.as_slice(), 10, self.ifOutErrors.oid_ref().as_slice()) {
            return table_row(&self.ifOutErrors, &oid);
        }
        if level_matches(oid.as_slice(), 10, self.ifOutQLen.oid_ref().as_slice()) {
            return table_row(&self.ifOutQLen, &oid);
        }
        if level_matches(oid.as_slice(), 10, self.ifSpecific.oid_ref().as_slice()) {
            return table_row(&self.ifSpecific, &oid);
        }
        None
    }
}

impl At {
    /// What `q` resolves to within the group: its first 8 arcs are compared with each
    /// child's identifier in declaration order; an equal scalar is the result, an equal table
    /// resolves `q` further. `None` where no child is equal, or where `q` is shorter.
    pub open spec fn find_spec(self, q: Seq<u16>) -> Option<Leaf> {
        if level_match(q, 8, self.atTable.oid@) {
            self.atTable.find_spec(q)
        } else {
            None
        }
    }

    /// The leaf, or the single table row, that `oid` addresses; see `find_spec`.
    pub fn find_oid(&self, oid: Vec<u16>) -> (r: Option<MibValue>)
        ensures
            opt_view(r) == self.find_spec(oid@),
    {
        if level_matches(oid.as_slice(), 8, self.atTable.oid.as_slice()) {
            return self.atTable.find_oid(oid);
        }
        None
    }
}

impl AtTable {
    /// What `q` resolves to within the table: its first 10 arcs are compared with each
    /// column's identifier in declaration order; the first equal column yields the row that the
    /// last arc of `q` addresses. `None` where no column is equal, the row does not exist, or
    /// `q` is shorter.
    pub open spec fn find_spec(self, q: Seq<u16>) -> Option<Leaf> {
        if level_match(q, 10, self.atIfIndex@.oid) {
            row_at(self.atIfIndex@, q)
        } else if level_match(q, 10, self.atPhysAddress@.oid) {
            row_at(self.atPhysAddress@, q)
        } else if level_match(q, 10, self.atNetAddress@.oid) {
            row_at(self.atNetAddress@, q)
        } else {
            None
        }
    }

    /// The leaf, or the single table row, that `oid` addresses; see `find_spec`.
    pub fn find_oid(&self, oid: Vec<u16>) -> (r: Option<MibValue>)
        ensures
            opt_view(r) == self.find_spec(oid@),
    {
        if level_matches(oid.as_slice(), 10, self.atIfIndex.oid_ref().as_slice()) {
            return table_row(&self.atIfIndex, &oid);
        }
        if level_matches(oid.as_slice(), 10, self.atPhysAddress.oid_ref().as_slice()) {
            return table_row(&self.atPhysAddress, &oid);
        }
        if level_matches(oid.as_slice(), 10, self.atNetAddress.oid_ref().as_slice()) {
            return table_row(&self.atNetAddress, &oid);
        }
        None
    }
}

impl Ip {
    /// What `q` resolves to within the group: its first 8 arcs are compared with each
    /// child's identifier in declaration order; an equal scalar is the result, an equal table
    /// resolves `q` further. `None` where no child is equal, or where `q` is shorter.
    pub open spec fn find_spec(self, q: Seq<u16>) -> Option<Leaf> {
        if level_match(q, 8, self.ipForwarding@.oid) {
            Some(self.ipForwarding@)
        } else if level_match(q, 8, self.ipDefaultTTL@.oid) {
            Some(self.ipDefaultTTL@)
        } else if level_match(q, 8, self.ipInReceives@.oid) {
            Some(self.ipInReceives@)
        } else if level_match(q, 8, self.ipInHdrErrors@.oid) {
            Some(self.ipInHdrErrors@)
        } else if level_match(q, 8, self.ipInAddrErrors@.oid) {
            Some(self.ipInAddrErrors@)
        } else if level_match(q, 8, self.ipForwDatagrams@.oid) {
            Some(self.ipForwDatagrams@)
        } else if level_match(q, 8, self.ipInUnknownProtos@.oid) {
            Some(self.ipInUnknownProtos@)
        } else if level_match(q, 8, self.ipInDiscards@.oid) {
            Some(self.ipInDiscards@)
        } else if level_match(q, 8, self.ipInDelivers@.oid) {
            Some(self.ipInDelivers@)
        } else if level_match(q, 8, self.ipOutRequests@.oid) {
            Some(self.ipOutRequests@)
        } else if level_match(q, 8, self.ipOutDiscards@.oid) {
            Some(self.ipOutDiscards@)
        } else if level_match(q, 8, self.ipOutNoRoutes@.oid) {
            Some(self.ipOutNoRoutes@)
        } else if level_match(q, 8, self.ipReasmTimeout@.oid) {
            Some(self.ipReasmTimeout@)
        } else if level_match(q, 8, self.ipReasmReqds@.oid) {
            Some(self.ipReasmReqds@)
        } else if level_match(q, 8, self.ipReasmOKs@.oid) {
            Some(self.ipReasmOKs@)
        } else if level_match(q, 8, self.ipReasmFails@.oid) {
            Some(self.ipReasmFails@)
        } else if level_match(q, 8, self.ipFragOKs@.oid) {
            Some(self.ipFragOKs@)
        } else if level_match(q, 8, self.ipFragFails@.oid) {
            Some(self.ipFragFails@)
        } else if level_match(q, 8, self.ipFragCreates@.oid) {
            Some(self.ipFragCreates@)
        } else if level_match(q, 8, self.ipAddrTable.oid@) {
            self.ipAddrTable.find_spec(q)
        } else if level_match(q, 8, self.ipRouteTable.oid@) {
            self.ipRouteTable.find_spec(q)
        } else if level_match(q, 8, self.ipNetToMediaTable.oid@) {
            self.ipNetToMediaTable.find_spec(q)
        } else if level_match(q, 8, self.ipRoutingDiscards@.oid) {
            Some(self.ipRoutingDiscards@)
        } else {
            None
        }
    }

    /// The leaf, or the single table row, that `oid` addresses; see `find_spec`.
    pub fn find_oid(&self, oid: Vec<u16>) -> (r: Option<MibValue>)
        ensures
            opt_view(r) == self.find_spec(oid@),
    {
        if level_matches(oid.as_slice(), 8, self.ipForwarding.oid_ref().as_slice()) {
            return Some(self.ipForwarding.clone());
        }
        if level_matches(oid.as_slice(), 8, self.ipDefaultTTL.oid_ref().as_slice()) {
            return Some(self.ipDefaultTTL.clone());
        }
        if level_matches(oid.as_slice(), 8, self.ipInReceives.oid_ref().as_slice()) {
            return Some(self.ipInReceives.clone());
        }
        if level_matches(oid.as_slice(), 8, self.ipInHdrErrors.oid_ref().as_slice()) {
            return Some(self.ipInHdrErrors.clone());
        }
        if level_matches(oid.as_slice(), 8, self.ipInAddrErrors.oid_ref().as_slice()) {
            return Some(self.ipInAddrErrors.clone());
        }
        if level_matches(oid.as_slice(), 8, self.ipForwDatagrams.oid_ref().as_slice()) {
            return Some(self.ipForwDatagrams.clone());
        }
        if level_matches(oid.as_slice(), 8, self.ipInUnknownProtos.oid_ref().as_slice()) {
            return Some(self.ipInUnknownProtos.clone());
        }
        if level_matches(oid.as_slice(), 8, self.ipInDiscards.oid_ref().as_slice()) {
            return Some(self.ipInDiscards.clone());
        }
        if level_matches(oid.as_slice(), 8, self.ipInDelivers.oid_ref().as_slice()) {
            return Some(self.ipInDelivers.clone());
        }
        if level_matches(oid.as_slice(), 8, self.ipOutRequests.oid_ref().as_slice()) {
            return Some(self.ipOutRequests.clone());
        }
        if level_matches(oid.as_slice(), 8, self.ipOutDiscards.oid_ref().as_slice()) {
            return Some(self.ipOutDiscards.clone());
        }
        if level_matches(oid.as_slice(), 8, self.ipOutNoRoutes.oid_ref().as_slice()) {
            return Some(self.ipOutNoRoutes.clone());
        }
        if level_matches(oid.as_slice(), 8, self.ipReasmTimeout.oid_ref().as_slice()) {
            return Some(self.ipReasmTimeout.clone());
        }
        if level_matches(oid.as_slice(), 8, self.ipReasmReqds.oid_ref().as_slice()) {
            return Some(self.ipReasmReqds.clone());
        }
        if level_matches(oid.as_slice(), 8, self.ipReasmOKs.oid_ref().as_slice()) {
            return Some(self.ipReasmOKs.clone());
        }
        if level_matches(oid.as_slice(), 8, self.ipReasmFails.oid_ref().as_slice()) {
            return Some(self.ipReasmFails.clone());
        }
        if level_matches(oid.as_slice(), 8, self.ipFragOKs.oid_ref().as_slice()) {
            return Some(self.ipFragOKs.clone());
        }
        if level_matches(oid.as_slice(), 8, self.ipFragFails.oid_ref().as_slice()) {
            return Some(self.ipFragFails.clone());
        }
        if level_matches(oid.as_slice(), 8, self.ipFragCreates.oid_ref().as_slice()) {
            return Some(self.ipFragCreates.clone());
        }
        if level_matches(oid.as_slice(), 8, self.ipAddrTable.oid.as_slice()) {
            return self.ipAddrTable.find_oid(oid);
        }
        if level_matches(oid.as_slice(), 8, self.ipRouteTable.oid.as_slice()) {
            return self.ipRouteTable.find_oid(oid);
        }
        if level_matches(oid.as_slice(), 8, self.ipNetToMediaTable.oid.as_slice()) {
            return self.ipNetToMediaTable.find_oid(oid);
        }
        if level_matches(oid.as_slice(), 8, self.ipRoutingDiscards.oid_ref().as_slice()) {
            return Some(self.ipRoutingDiscards.clone());
        }
        None
    }
}

impl IpAddrTable {
    /// What `q` resolves to within the table: its first 10 arcs are compared with each
    /// column's identifier in declaration order; the first equal column yields the row that the
    /// last arc of `q` addresses. `None` where no column is equal, the row does not exist, or
    /// `q` is shorter.
    pub open spec fn find_spec(self, q: Seq<u16>) -> Option<Leaf> {
        if level_match(q, 10, self.ipAdEntAddr@.oid) {
            row_at(self.ipAdEntAddr@, q)
        } else if level_match(q, 10, self.ipAdEntIfIndex@.oid) {
            row_at(self.ipAdEntIfIndex@, q)
        } else if level_match(q, 10, self.ipAdEntNetMask@.oid) {
            row_at(self.ipAdEntNetMask@, q)
        } else if level_match(q, 10, self.ipAdEntBcastAddr@.oid) {
            row_at(self.ipAdEntBcastAddr@, q)
        } else if level_match(q, 10, self.ipAdEntReasmMaxSize@.oid) {
            row_at(self.ipAdEntReasmMaxSize@, q)
        } else {
            None
        }
    }

    /// The leaf, or the single table row, that `oid` addresses; see `find_spec`.
    pub fn find_oid(&self, oid: Vec<u16>) -> (r: Option<MibValue>)
        ensures
            opt_view(r) == self.find_spec(oid@),
    {
        if level_matches(oid.as_slice(), 10, self.ipAdEntAddr.oid_ref().as_slice()) {
            return table_row(&self.ipAdEntAddr, &oid);
        }
        if level_matches(oid.as_slice(), 10, self.ipAdEntIfIndex.oid_ref().as_slice()) {
            return table_row(&self.ipAdEntIfIndex, &oid);
        }
        if level_matches(oid.as_slice(), 10, self.ipAdEntNetMask.oid_ref().as_slice()) {
            return table_row(&self.ipAdEntNetMask, &oid);
        }
        if level_matches(oid.as_slice(), 10, self.ipAdEntBcastAddr.oid_ref().as_slice()) {
            return table_row(&self.ipAdEntBcastAddr, &oid);
        }
        if level_matches(oid.as_slice(), 10, self.ipAdEntReasmMaxSize.oid_ref().as_slice()) {
            return table_row(&self.ipAdEntReasmMaxSize, &oid);
        }
        None
    }
}

impl IpRouteTable {
    /// What `q` resolves to within the table: its first 10 arcs are compared with each
    /// column's identifier in declaration order; the first equal column yields the row that the
    /// last arc of `q` addresses. `None` where no column is equal, the row does not exist, or
    /// `q` is shorter.
    pub open spec fn find_spec(self, q: Seq<u16>) -> Option<Leaf> {
        if level_match(q, 10, self.ipRouteDest@.oid) {
            row_at(self.ipRouteDest@, q)
        } else if level_match(q, 10, self.ipRouteIfIndex@.oid) {
            row_at(self.ipRouteIfIndex@, q)
        } else if level_match(q, 10, self.ipRouteMetric1@.oid) {
            row_at(self.ipRouteMetric1@, q)
        } else if level_match(q, 10, self.ipRouteMetric2@.oid) {
            row_at(self.ipRouteMetric2@, q)
        } else if level_match(q, 10, self.ipRouteMetric3@.oid) {
            row_at(self.ipRouteMetric3@, q)
        } else if level_match(q, 10, self.ipRouteMetric4@.oid) {
            row_at(self.ipRouteMetric4@, q)
        } else if level_match(q, 10, self.ipRouteNextHop@.oid) {
            row_at(self.ipRouteNextHop@, q)
        } else if level_match(q, 10, self.ipRouteType@.oid) {
            row_at(self.ipRouteType@, q)
        } else if level_match(q, 10, self.ipRouteProto@.oid) {
            row_at(self.ipRouteProto@, q)
        } else if level_match(q, 10, self.ipRouteAge@.oid) {
            row_at(self.ipRouteAge@, q)
        } else if level_match(q, 10, self.ipRouteMask@.oid) {
            row_at(self.ipRouteMask@, q)
        } else if level_match(q, 10, self.ipRouteMetric5@.oid) {
            row_at(self.ipRouteMetric5@, q)
        } else if level_match(q, 10, self.ipRouteInfo@.oid) {
            row_at(self.ipRouteInfo@, q)
        } else {
            None
        }
    }

    /// The leaf, or the single table row, that `oid` addresses; see `find_spec`.
    pub fn find_oid(&self, oid: Vec<u16>) -> (r: Option<MibValue>)
        ensures
            opt_view(r) == self.find_spec(oid@),
    {
        if level_matches(oid.as_slice(), 10, self.ipRouteDest.oid_ref().as_slice()) {
            return table_row(&self.ipRouteDest, &oid);
        }
        if level_matches(oid.as_slice(), 10, self.ipRouteIfIndex.oid_ref().as_slice()) {
            return table_row(&self.ipRouteIfIndex, &oid);
        }
        if level_matches(oid.as_slice(), 10, self.ipRouteMetric1.oid_ref().as_slice()) {
            return table_row(&self.ipRouteMetric1, &oid);
        }
        if level_matches(oid.as_slice(), 10, self.ipRouteMetric2.oid_ref().as_slice()) {
            return table_row(&self.ipRouteMetric2, &oid);
        }
        if level_matches(oid.as_slice(), 10, self.ipRouteMetric3.oid_ref().as_slice()) {
            return table_row(&self.ipRouteMetric3, &oid);
        }
        if level_matches(oid.as_slice(), 10, self.ipRouteMetric4.oid_ref().as_slice()) {
            return table_row(&self.ipRouteMetric4, &oid);
        }
        if level_matches(oid.as_slice(), 10, self.ipRouteNextHop.oid_ref().as_slice()) {
            return table_row(&self.ipRouteNextHop, &oid);
        }
        if level_matches(oid.as_slice(), 10, self.ipRouteType.oid_ref().as_slice()) {
            return table_row(&self.ipRouteType, &oid);
        }
        if level_matches(oid.as_slice(), 10, self.ipRouteProto.oid_ref().as_slice()) {
            return table_row(&self.ipRouteProto, &oid);
        }
        if level_matches(oid.as_slice(), 10, self.ipRouteAge.oid_ref().as_slice()) {
            return table_row(&self.ipRouteAge, &oid);
        }
        if level_matches(oid.as_slice(), 10, self.ipRouteMask.oid_ref().as_slice()) {
            return table_row(&self.ipRouteMask, &oid);
        }
        if level_matches(oid.as_slice(), 10, self.ipRouteMetric5.oid_ref().as_slice()) {
            return table_row(&self.ipRouteMetric5, &oid);
        }
        if level_matches(oid.as_slice(), 10, self.ipRouteInfo.oid_ref().as_slice()) {
            return table_row(&self.ipRouteInfo, &oid);
        }
        None
    }
}

impl IpNetToMediaTable {
    /// What `q` resolves to within the table: its first 10 arcs are compared with each
    /// column's identifier in declaration order; the first equal column yields the row that the
    /// last arc of `q` addresses. `None` where no column is equal, the row does not exist, or
    /// `q` is shorter.
    pub open spec fn find_spec(self, q: Seq<u16>) -> Option<Leaf> {
        if level_match(q, 10, self.ipNetToMediaIfIndex@.oid) {
            row_at(self.ipNetToMediaIfIndex@, q)
        } else if level_match(q, 10, self.ipNetToMediaPhysAddress@.oid) {
            row_at(self.ipNetToMediaPhysAddress@, q)
        } else if level_match(q, 10, self.ipNetToMediaNetAddress@.oid) {
            row_at(self.ipNetToMediaNetAddress@, q)
        } else if level_match(q, 10, self.ipNetToMediaType@.oid) {
            row_at(self.ipNetToMediaType@, q)
        } else {
            None
        }
    }

    /// The leaf, or the single table row, that `oid` addresses; see `find_spec`.
    pub fn find_oid(&self, oid: Vec<u16>) -> (r: Option<MibValue>)
        ensures
            opt_view(r) == self.find_spec(oid@),
    {
        if level_matches(oid.as_slice(), 10, self.ipNetToMediaIfIndex.oid_ref().as_slice()) {
            return table_row(&self.ipNetToMediaIfIndex, &oid);
        }
        if level_matches(oid.as_slice(), 10, self.ipNetToMediaPhysAddress.oid_ref().as_slice()) {
            return table_row(&self.ipNetToMediaPhysAddress, &oid);
        }
        if level_matches(oid.as_slice(), 10, self.ipNetToMediaNetAddress.oid_ref().as_slice()) {
            return table_row(&self.ipNetToMediaNetAddress, &oid);
        }
        if level_matches(oid.as_slice(), 10, self.ipNetToMediaType.oid_ref().as_slice()) {
            return table_row(&self.ipNetToMediaType, &oid);
        }
        None
    }
}

impl Icmp {
    /// What `q` resolves to within the group: its first 8 arcs are compared with each
    /// child's identifier in declaration order; an equal scalar is the result, an equal table
    /// resolves `q` further. `None` where no child is equal, or where `q` is shorter.
    pub open spec fn find_spec(self, q: Seq<u16>) -> Option<Leaf> {
        if level_match(q, 8, self.icmpInMsgs@.oid) {
            Some(self.icmpInMsgs@)
        } else if level_match(q, 8, self.icmpInErrors@.oid) {
            Some(self.icmpInErrors@)
        } else if level_match(q, 8, self.icmpInDestUnreachs@.oid) {
            Some(self.icmpInDestUnreachs@)
        } else if level_match(q, 8, self.icmpInTimeExcds@.oid) {
            Some(self.icmpInTimeExcds@)
        } else if level_match(q, 8, self.icmpInParmProbs@.oid) {
            Some(self.icmpInParmProbs@)
        } else if level_match(q, 8, self.icmpInSrcQuenchs@.oid) {
            Some(self.icmpInSrcQuenchs@)
        } else if level_match(q, 8, self.icmpInRedirects@.oid) {
            Some(self.icmpInRedirects@)
        } else if level_match(q, 8, self.icmpInEchos@.oid) {
            Some(self.icmpInEchos@)
        } else if level_match(q, 8, self.icmpInEchoReps@.oid) {
            Some(self.icmpInEchoReps@)
        } else if level_match(q, 8, self.icmpInTimestamps@.oid) {
            Some(self.icmpInTimestamps@)
        } else if level_match(q, 8, self.icmpInTimestampReps@.oid) {
            Some(self.icmpInTimestampReps@)
        } else if level_match(q, 8, self.icmpInAddrMasks@.oid) {
            Some(self.icmpInAddrMasks@)
        } else if level_match(q, 8, self.icmpInAddrMaskReps@.oid) {
            Some(self.icmpInAddrMaskReps@)
        } else if level_match(q, 8, self.icmpOutMsgs@.oid) {
            Some(self.icmpOutMsgs@)
        } else if level_match(q, 8, self.icmpOutErrors@.oid) {
            Some(self.icmpOutErrors@)
        } else if level_match(q, 8, self.icmpOutDestUnreachs@.oid) {
            Some(self.icmpOutDestUnreachs@)
        } else if level_match(q, 8, self.icmpOutTimeExcds@.oid) {
            Some(self.icmpOutTimeExcds@)
        } else if level_match(q, 8, self.icmpOutParmProbs@.oid) {
            Some(self.icmpOutParmProbs@)
        } else if level_match(q, 8, self.icmpOutSrcQuenchs@.oid) {
            Some(self.icmpOutSrcQuenchs@)
        } else if level_match(q, 8, self.icmpOutRedirects@.oid) {
            Some(self.icmpOutRedirects@)
        } else if level_match(q, 8, self.icmpOutEchos@.oid) {
            Some(self.icmpOutEchos@)
        } else if level_match(q, 8, self.icmpOutEchoReps@.oid) {
            Some(self.icmpOutEchoReps@)
        } else if level_match(q, 8, self.icmpOutTimestamps@.oid) {
            Some(self.icmpOutTimestamps@)
        } else if level_match(q, 8, self.icmpOutTimestampReps@.oid) {
            Some(self.icmpOutTimestampReps@)
        } else if level_match(q, 8, self.icmpOutAddrMasks@.oid) {
            Some(self.icmpOutAddrMasks@)
        } else if level_match(q, 8, self.icmpOutAddrMaskReps@.oid) {
            Some(self.icmpOutAddrMaskReps@)
        } else {
            None
        }
    }

    /// The leaf, or the single table row, that `oid` addresses; see `find_spec`.
    pub fn find_oid(&self, oid: Vec<u16>) -> (r: Option<MibValue>)
        ensures
            opt_view(r) == self.find_spec(oid@),
    {
        if level_matches(oid.as_slice(), 8, self.icmpInMsgs.oid_ref().as_slice()) {
            return Some(self.icmpInMsgs.clone());
        }
        if level_matches(oid.as_slice(), 8, self.icmpInErrors.oid_ref().as_slice()) {
            return Some(self.icmpInErrors.clone());
        }
        if level_matches(oid.as_slice(), 8, self.icmpInDestUnreachs.oid_ref().as_slice()) {
            return Some(self.icmpInDestUnreachs.clone());
        }
        if level_matches(oid.as_slice(), 8, self.icmpInTimeExcds.oid_ref().as_slice()) {
            return Some(self.icmpInTimeExcds.clone());
        }
        if level_matches(oid.as_slice(), 8, self.icmpInParmProbs.oid_ref().as_slice()) {
            return Some(self.icmpInParmProbs.clone());
        }
        if level_matches(oid.as_slice(), 8, self.icmpInSrcQuenchs.oid_ref().as_slice()) {
            return Some(self.icmpInSrcQuenchs.clone());
        }
        if level_matches(oid.as_slice(), 8, self.icmpInRedirects.oid_ref().as_slice()) {
            return Some(self.icmpInRedirects.clone());
        }
        if level_matches(oid.as_slice(), 8, self.icmpInEchos.oid_ref().as_slice()) {
            return Some(self.icmpInEchos.clone());
        }
        if level_matches(oid.as_slice(), 8, self.icmpInEchoReps.oid_ref().as_slice()) {
            return Some(self.icmpInEchoReps.clone());
        }
        if level_matches(oid.as_slice(), 8, self.icmpInTimestamps.oid_ref().as_slice()) {
            return Some(self.icmpInTimestamps.clone());
        }
        if level_matches(oid.as_slice(), 8, self.icmpInTimestampReps.oid_ref().as_slice()) {
            return Some(self.icmpInTimestampReps.clone());
        }
        if level_matches(oid.as_slice(), 8, self.icmpInAddrMasks.oid_ref().as_slice()) {
            return Some(self.icmpInAddrMasks.clone());
        }
        if level_matches(oid.as_slice(), 8, self.icmpInAddrMaskReps.oid_ref().as_slice()) {
            return Some(self.icmpInAddrMaskReps.clone());
        }
        if level_matches(oid.as_slice(), 8, self.icmpOutMsgs.oid_ref().as_slice()) {
            return Some(self.icmpOutMsgs.clone());
        }
        if level_matches(oid.as_slice(), 8, self.icmpOutErrors.oid_ref().as_slice()) {
            return Some(self.icmpOutErrors.clone());
        }
        if level_matches(oid.as_slice(), 8, self.icmpOutDestUnreachs.oid_ref().as_slice()) {
            return Some(self.icmpOutDestUnreachs.clone());
        }
        if level_matches(oid.as_slice(), 8, self.icmpOutTimeExcds.oid_ref().as_slice()) {
            return Some(self.icmpOutTimeExcds.clone());
        }
        if level_matches(oid.as_slice(), 8, self.icmpOutParmProbs.oid_ref().as_slice()) {
            return Some(self.icmpOutParmProbs.clone());
        }
        if level_matches(oid.as_slice(), 8, self.icmpOutSrcQuenchs.oid_ref().as_slice()) {
            return Some(self.icmpOutSrcQuenchs.clone());
        }
        if level_matches(oid.as_slice(), 8, self.icmpOutRedirects.oid_ref().as_slice()) {
            return Some(self.icmpOutRedirects.clone());
        }
        if level_matches(oid.as_slice(), 8, self.icmpOutEchos.oid_ref().as_slice()) {
            return Some(self.icmpOutEchos.clone());
        }
        if level_matches(oid.as_slice(), 8, self.icmpOutEchoReps.oid_ref().as_slice()) {
            return Some(self.icmpOutEchoReps.clone());
        }
        if level_matches(oid.as_slice(), 8, self.icmpOutTimestamps.oid_ref().as_slice()) {
            return Some(self.icmpOutTimestamps.clone());
        }
        if level_matches(oid.as_slice(), 8, self.icmpOutTimestampReps.oid_ref().as_slice()) {
            return Some(self.icmpOutTimestampReps.clone());
        }
        if level_matches(oid.as_slice(), 8, self.icmpOutAddrMasks.oid_ref().as_slice()) {
            return Some(self.icmpOutAddrMasks.clone());
        }
        if level_matches(oid.as_slice(), 8, self.icmpOutAddrMaskReps.oid_ref().as_slice()) {
            return Some(self.icmpOutAddrMaskReps.clone());
        }
        None
    }
}

impl Tcp {
    /// What `q` resolves to within the group: its first 8 arcs are compared with each
    /// child's identifier in declaration order; an equal scalar is the result, an equal table
    /// resolves `q` further. `None` where no child is equal, or where `q` is shorter.
    pub open spec fn find_spec(self, q: Seq<u16>) -> Option<Leaf> {
        if level_match(q, 8, self.tcpRtoAlgorithm@.oid) {
            Some(self.tcpRtoAlgorithm@)
        } else if level_match(q, 8, self.tcpRtoMin@.oid) {
            Some(self.tcpRtoMin@)
        } else if level_match(q, 8, self.tcpRtoMax@.oid) {
            Some(self.tcpRtoMax@)
        } else if level_match(q, 8, self.tcpMaxConn@.oid) {
            Some(self.tcpMaxConn@)
        } else if level_match(q, 8, self.tcpActiveOpens@.oid) {
            Some(self.tcpActiveOpens@)
        } else if level_match(q, 8, self.tcpPassiveOpens@.oid) {
            Some(self.tcpPassiveOpens@)
        } else if level_match(q, 8, self.tcpAttemptFails@.oid) {
            Some(self.tcpAttemptFails@)
        } else if level_match(q, 8, self.tcpEstabResets@.oid) {
            Some(self.tcpEstabResets@)
        } else if level_match(q, 8, self.tcpCurrEstab@.oid) {
            Some(self.tcpCurrEstab@)
        } else if level_match(q, 8, self.tcpInSegs@.oid) {
            Some(self.tcpInSegs@)
        } else if level_match(q, 8, self.tcpOutSegs@.oid) {
            Some(self.tcpOutSegs@)
        } else if level_match(q, 8, self.tcpRetransSegs@.oid) {
            Some(self.tcpRetransSegs@)
        } else if level_match(q, 8, self.tcpConnTable.oid@) {
            self.tcpConnTable.find_spec(q)
        } else if level_match(q, 8, self.tcpInErrs@.oid) {
            Some(self.tcpInErrs@)
        } else if level_match(q, 8, self.tcpOutRsts@.oid) {
            Some(self.tcpOutRsts@)
        } else {
            None
        }
    }

    /// The leaf, or the single table row, that `oid` addresses; see `find_spec`.
    pub fn find_oid(&self, oid: Vec<u16>) -> (r: Option<MibValue>)
        ensures
            opt_view(r) == self.find_spec(oid@),
    {
        if level_matches(oid.as_slice(), 8, self.tcpRtoAlgorithm.oid_ref().as_slice()) {
            return Some(self.tcpRtoAlgorithm.clone());
        }
        if level_matches(oid.as_slice(), 8, self.tcpRtoMin.oid_ref().as_slice()) {
            return Some(self.tcpRtoMin.clone());
        }
        if level_matches(oid.as_slice(), 8, self.tcpRtoMax.oid_ref().as_slice()) {
            return Some(self.tcpRtoMax.clone());
        }
        if level_matches(oid.as_slice(), 8, self.tcpMaxConn.oid_ref().as_slice()) {
            return Some(self.tcpMaxConn.clone());
        }
        if level_matches(oid.as_slice(), 8, self.tcpActiveOpens.oid_ref().as_slice()) {
            return Some(self.tcpActiveOpens.clone());
        }
        if level_matches(oid.as_slice(), 8, self.tcpPassiveOpens.oid_ref().as_slice()) {
            return Some(self.tcpPassiveOpens.clone());
        }
        if level_matches(oid.as_slice(), 8, self.tcpAttemptFails.oid_ref().as_slice()) {
            return Some(self.tcpAttemptFails.clone());
        }
        if level_matches(oid.as_slice(), 8, self.tcpEstabResets.oid_ref().as_slice()) {
            return Some(self.tcpEstabResets.clone());
        }
        if level_matches(oid.as_slice(), 8, self.tcpCurrEstab.oid_ref().as_slice()) {
            return Some(self.tcpCurrEstab.clone());
        }
        if level_matches(oid.as_slice(), 8, self.tcpInSegs.oid_ref().as_slice()) {
            return Some(self.tcpInSegs.clone());
        }
        if level_matches(oid.as_slice(), 8, self.tcpOutSegs.oid_ref().as_slice()) {
            return Some(self.tcpOutSegs.clone());
        }
        if level_matches(oid.as_slice(), 8, self.tcpRetransSegs.oid_ref().as_slice()) {
            return Some(self.tcpRetransSegs.clone());
        }
        if level_matches(oid.as_slice(), 8, self.tcpConnTable.oid.as_slice()) {
            return self.tcpConnTable.find_oid(oid);
        }
        if level_matches(oid.as_slice(), 8, self.tcpInErrs.oid_ref().as_slice()) {
            return Some(self.tcpInErrs.clone());
        }
        if level_matches(oid.as_slice(), 8, self.tcpOutRsts.oid_ref().as_slice()) {
            return Some(self.tcpOutRsts.clone());
        }
        None
    }
}

impl TcpConnTable {
    /// What `q` resolves to within the table: its first 10 arcs are compared with each
    /// column's identifier in declaration order; the first equal column yields the row that the
    /// last arc of `q` addresses. `None` where no column is equal, the row does not exist, or
    /// `q` is shorter.
    pub open spec fn find_spec(self, q: Seq<u16>) -> Option<Leaf> {
        if level_match(q, 10, self.tcpConnState@.oid) {
            row_at(self.tcpConnState@, q)
        } else if level_match(q, 10, self.tcpConnLocalAddress@.oid) {
            row_at(self.tcpConnLocalAddress@, q)
        } else if level_match(q, 10, self.tcpConnLocalPort@.oid) {
            row_at(self.tcpConnLocalPort@, q)
        } else if level_match(q, 10, self.tcpConnRemAddress@.oid) {
            row_at(self.tcpConnRemAddress@, q)
        } else if level_match(q, 10, self.tcpConnRemPort@.oid) {
            row_at(self.tcpConnRemPort@, q)
        } else {
            None
        }
    }

    /// The leaf, or the single table row, that `oid` addresses; see `find_spec`.
    pub fn find_oid(&self, oid: Vec<u16>) -> (r: Option<MibValue>)
        ensures
            opt_view(r) == self.find_spec(oid@),
    {
        if level_matches(oid.as_slice(), 10, self.tcpConnState.oid_ref().as_slice()) {
            return table_row(&self.tcpConnState, &oid);
        }
        if level_matches(oid.as_slice(), 10, self.tcpConnLocalAddress.oid_ref().as_slice()) {
            return table_row(&self.tcpConnLocalAddress, &oid);
        }
        if level_matches(oid.as_slice(), 10, self.tcpConnLocalPort.oid_ref().as_slice()) {
            return table_row(&self.tcpConnLocalPort, &oid);
        }
        if level_matches(oid.as_slice(), 10, self.tcpConnRemAddress.oid_ref().as_slice()) {
            return table_row(&self.tcpConnRemAddress, &oid);
        }
        if level_matches(oid.as_slice(), 10, self.tcpConnRemPort.oid_ref().as_slice()) {
            return table_row(&self.tcpConnRemPort, &oid);
        }
        None
    }
}

impl Udp {
    /// What `q` resolves to within the group: its first 8 arcs are compared with each
    /// child's identifier in declaration order; an equal scalar is the result, an equal table
    /// resolves `q` further. `None` where no child is equal, or where `q` is shorter.
    pub open spec fn find_spec(self, q: Seq<u16>) -> Option<Leaf> {
        if level_match(q, 8, self.udpInDatagrams@.oid) {
            Some(self.udpInDatagrams@)
        } else if level_match(q, 8, self.udpNoPorts@.oid) {
            Some(self.udpNoPorts@)
        } else if level_match(q, 8, self.udpInErrors@.oid) {
            Some(self.udpInErrors@)
        } else if level_match(q, 8, self.udpOutDatagrams@.oid) {
            Some(self.udpOutDatagrams@)
        } else if level_match(q, 8, self.udpTable.oid@) {
            self.udpTable.find_spec(q)
        } else {
            None
        }
    }

    /// The leaf, or the single table row, that `oid` addresses; see `find_spec`.
    pub fn find_oid(&self, oid: Vec<u16>) -> (r: Option<MibValue>)
        ensures
            opt_view(r) == self.find_spec(oid@),
    {
        if level_matches(oid.as_slice(), 8, self.udpInDatagrams.oid_ref().as_slice()) {
            return Some(self.udpInDatagrams.clone());
        }
        if level_matches(oid.as_slice(), 8, self.udpNoPorts.oid_ref().as_slice()) {
            return Some(self.udpNoPorts.clone());
        }
        if level_matches(oid.as_slice(), 8, self.udpInErrors.oid_ref().as_slice()) {
            return Some(self.udpInErrors.clone());
        }
        if level_matches(oid.as_slice(), 8, self.udpOutDatagrams.oid_ref().as_slice()) {
            return Some(self.udpOutDatagrams.clone());
        }
        if level_matches(oid.as_slice(), 8, self.udpTable.oid.as_slice()) {
            return self.udpTable.find_oid(oid);
        }
        None
    }
}

impl UdpTable {
    /// What `q` resolves to within the table: its first 10 arcs are compared with each
    /// column's identifier in declaration order; the first equal column yields the row that the
    /// last arc of `q` addresses. `None` where no column is equal, the row does not exist, or
    /// `q` is shorter.
    pub open spec fn find_spec(self, q: Seq<u16>) -> Option<Leaf> {
        if level_match(q, 10, self.udpLocalAddress@.oid) {
            row_at(self.udpLocalAddress@, q)
        } else if level_match(q, 10, self.udpLocalPort@.oid) {
            row_at(self.udpLocalPort@, q)
        } else {
            None
        }
    }

    /// The leaf, or the single table row, that `oid` addresses; see `find_spec`.
    pub fn find_oid(&self, oid: Vec<u16>) -> (r: Option<MibValue>)
        ensures
            opt_view(r) == self.find_spec(oid@),
    {
        if level_matches(oid.as_slice(), 10, self.udpLocalAddress.oid_ref().as_slice()) {
            return table_row(&self.udpLocalAddress, &oid);
        }
        if level_matches(oid.as_slice(), 10, self.udpLocalPort.oid_ref().as_slice()) {
            return table_row(&self.udpLocalPort, &oid);
        }
        None
    }
}

impl Egp {
    /// What `q` resolves to within the group: its first 8 arcs are compared with each
    /// child's identifier in declaration order; an equal scalar is the result, an equal table
    /// resolves `q` further. `None` where no child is equal, or where `q` is shorter.
    pub open spec fn find_spec(self, q: Seq<u16>) -> Option<Leaf> {
        if level_match(q, 8, self.egpInMsgs@.oid) {
            Some(self.egpInMsgs@)
        } else if level_match(q, 8, self.egpInErrors@.oid) {
            Some(self.egpInErrors@)
        } else if level_match(q, 8, self.egpOutMsgs@.oid) {
            Some(self.egpOutMsgs@)
        } else if level_match(q, 8, self.egpOutErrors@.oid) {
            Some(self.egpOutErrors@)
        } else if level_match(q, 8, self.egpNeighTable.oid@) {
            self.egpNeighTable.find_spec(q)
        } else if level_match(q, 8, self.egpAs@.oid) {
            Some(self.egpAs@)
        } else {
            None
        }
    }

    /// The leaf, or the single table row, that `oid` addresses; see `find_spec`.
    pub fn find_oid(&self, oid: Vec<u16>) -> (r: Option<MibValue>)
        ensures
            opt_view(r) == self.find_spec(oid@),
    {
        if level_matches(oid.as_slice(), 8, self.egpInMsgs.oid_ref().as_slice()) {
            return Some(self.egpInMsgs.clone());
        }
        if level_matches(oid.as_slice(), 8, self.egpInErrors.oid_ref().as_slice()) {
            return Some(self.egpInErrors.clone());
        }
        if level_matches(oid.as_slice(), 8, self.egpOutMsgs.oid_ref().as_slice()) {
            return Some(self.egpOutMsgs.clone());
        }
        if level_matches(oid.as_slice(), 8, self.egpOutErrors.oid_ref().as_slice()) {
            return Some(self.egpOutErrors.clone());
        }
        if level_matches(oid.as_slice(), 8, self.egpNeighTable.oid.as_slice()) {
            return self.egpNeighTable.find_oid(oid);
        }
        if level_matches(oid.as_slice(), 8, self.egpAs.oid_ref().as_slice()) {
            return Some(self.egpAs.clone());
        }
        None
    }
}

impl EgpNeighTable {
    /// What `q` resolves to within the table: its first 10 arcs are compared with each
    /// column's identifier in declaration order; the first equal column yields the row that the
    /// last arc of `q` addresses. `None` where no column is equal, the row does not exist, or
    /// `q` is shorter.
    pub open spec fn find_spec(self, q: Seq<u16>) -> Option<Leaf> {
        if level_match(q, 10, self.egpNeighState@.oid) {
            row_at(self.egpNeighState@, q)
        } else if level_match(q, 10, self.egpNeighAddr@.oid) {
            row_at(self.egpNeighAddr@, q)
        } else if level_match(q, 10, self.egpNeighAs@.oid) {
            row_at(self.egpNeighAs@, q)
        } else if level_match(q, 10, self.egpNeighInMsgs@.oid) {
            row_at(self.egpNeighInMsgs@, q)
        } else if level_match(q, 10, self.egpNeighInErrs@.oid) {
            row_at(self.egpNeighInErrs@, q)
        } else if level_match(q, 10, self.egpNeighOutMsgs@.oid) {
            row_at(self.egpNeighOutMsgs@, q)
        } else if level_match(q, 10, self.egpNeighOutErrs@.oid) {
            row_at(self.egpNeighOutErrs@, q)
        } else if level_match(q, 10, self.egpNeighInErrMsgs@.oid) {
            row_at(self.egpNeighInErrMsgs@, q)
        } else if level_match(q, 10, self.egpNeighOutErrMsgs@.oid) {
            row_at(self.egpNeighOutErrMsgs@, q)
        } else if level_match(q, 10, self.egpNeighStateUps@.oid) {
            row_at(self.egpNeighStateUps@, q)
        } else if level_match(q, 10, self.egpNeighStateDowns@.oid) {
            row_at(self.egpNeighStateDowns@, q)
        } else if level_match(q, 10, self.egpNeighIntervalHello@.oid) {
            row_at(self.egpNeighIntervalHello@, q)
        } else if level_match(q, 10, self.egpNeighIntervalPoll@.oid) {
            row_at(self.egpNeighIntervalPoll@, q)
        } else if level_match(q, 10, self.egpNeighMode@.oid) {
            row_at(self.egpNeighMode@, q)
        } else if level_match(q, 10, self.egpNeighEventTrigger@.oid) {
            row_at(self.egpNeighEventTrigger@, q)
        } else {
            None
        }
    }

    /// The leaf, or the single table row, that `oid` addresses; see `find_spec`.
    pub fn find_oid(&self, oid: Vec<u16>) -> (r: Option<MibValue>)
        ensures
            opt_view(r) == self.find_spec(oid@),
    {
        if level_matches(oid.as_slice(), 10, self.egpNeighState.oid_ref().as_slice()) {
            return table_row(&self.egpNeighState, &oid);
        }
        if level_matches(oid.as_slice(), 10, self.egpNeighAddr.oid_ref().as_slice()) {
            return table_row(&self.egpNeighAddr, &oid);
        }
        if level_matches(oid.as_slice(), 10, self.egpNeighAs.oid_ref().as_slice()) {
            return table_row(&self.egpNeighAs, &oid);
        }
        if level_matches(oid.as_slice(), 10, self.egpNeighInMsgs.oid_ref().as_slice()) {
            return table_row(&self.egpNeighInMsgs, &oid);
        }
        if level_matches(oid.as_slice(), 10, self.egpNeighInErrs.oid_ref().as_slice()) {
            return table_row(&self.egpNeighInErrs, &oid);
        }
        if level_matches(oid.as_slice(), 10, self.egpNeighOutMsgs.oid_ref().as_slice()) {
            return table_row(&self.egpNeighOutMsgs, &oid);
        }
        if level_matches(oid.as_slice(), 10, self.egpNeighOutErrs.oid_ref().as_slice()) {
            return table_row(&self.egpNeighOutErrs, &oid);
        }
        if level_matches(oid.as_slice(), 10, self.egpNeighInErrMsgs.oid_ref().as_slice()) {
            return table_row(&self.egpNeighInErrMsgs, &oid);
        }
        if level_matches(oid.as_slice(), 10, self.egpNeighOutErrMsgs.oid_ref().as_slice()) {
            return table_row(&self.egpNeighOutErrMsgs, &oid);
        }
        if level_matches(oid.as_slice(), 10, self.egpNeighStateUps.oid_ref().as_slice()) {
            return table_row(&self.egpNeighStateUps, &oid);
        }
        if level_matches(oid.as_slice(), 10, self.egpNeighStateDowns.oid_ref().as_slice()) {
            return table_row(&self.egpNeighStateDowns, &oid);
        }
        if level_matches(oid.as_slice(), 10, self.egpNeighIntervalHello.oid_ref().as_slice()) {
            return table_row(&self.egpNeighIntervalHello, &oid);
        }
        if level_matches(oid.as_slice(), 10, self.egpNeighIntervalPoll.oid_ref().as_slice()) {
            return table_row(&self.egpNeighIntervalPoll, &oid);
        }
        if level_matches(oid.as_slice(), 10, self.egpNeighMode.oid_ref().as_slice()) {
            return table_row(&self.egpNeighMode, &oid);
        }
        if level_matches(oid.as_slice(), 10, self.egpNeighEventTrigger.oid_ref().as_slice()) {
            return table_row(&self.egpNeighEventTrigger, &oid);
        }
        None
    }
}

impl Snmp {
    /// What `q` resolves to within the group: its first 8 arcs are compared with each
    /// child's identifier in declaration order; an equal scalar is the result, an equal table
    /// resolves `q` further. `None` where no child is equal, or where `q` is shorter.
    pub open spec fn find_spec(self, q: Seq<u16>) -> Option<Leaf> {
        if level_match(q, 8, self.snmpInPkts@.oid) {
            Some(self.snmpInPkts@)
        } else if level_match(q, 8, self.snmpOutPkts@.oid) {
            Some(self.snmpOutPkts@)
        } else if level_match(q, 8, self.snmpInBadVersions@.oid) {
            Some(self.snmpInBadVersions@)
        } else if level_match(q, 8, self.snmpInBadCommunityNames@.oid) {
            Some(self.snmpInBadCommunityNames@)
        } else if level_match(q, 8, self.snmpInBadCommunityUses@.oid) {
            Some(self.snmpInBadCommunityUses@)
        } else if level_match(q, 8, self.snmpInASNParseErrs@.oid) {
            Some(self.snmpInASNParseErrs@)
        } else if level_match(q, 8, self.snmpInTooBigs@.oid) {
            Some(self.snmpInTooBigs@)
        } else if level_match(q, 8, self.snmpInNoSuchNames@.oid) {
            Some(self.snmpInNoSuchNames@)
        } else if level_match(q, 8, self.snmpInBadValues@.oid) {
            Some(self.snmpInBadValues@)
        } else if level_match(q, 8, self.snmpInReadOnlys@.oid) {
            Some(self.snmpInReadOnlys@)
        } else if level_match(q, 8, self.snmpInGenErrs@.oid) {
            Some(self.snmpInGenErrs@)
        } else if level_match(q, 8, self.snmpInTotalReqVars@.oid) {
            Some(self.snmpInTotalReqVars@)
        } else if level_match(q, 8, self.snmpInTotalSetVars@.oid) {
            Some(self.snmpInTotalSetVars@)
        } else if level_match(q, 8, self.snmpInGetRequests@.oid) {
            Some(self.snmpInGetRequests@)
        } else if level_match(q, 8, self.snmpInGetNexts@.oid) {
            Some(self.snmpInGetNexts@)
        } else if level_match(q, 8, self.snmpInSetRequests@.oid) {
            Some(self.snmpInSetRequests@)
        } else if level_match(q, 8, self.snmpInGetResponses@.oid) {
            Some(self.snmpInGetResponses@)
        } else if level_match(q, 8, self.snmpInTraps@.oid) {
            Some(self.snmpInTraps@)
        } else if level_match(q, 8, self.snmpOutTooBigs@.oid) {
            Some(self.snmpOutTooBigs@)
        } else if level_match(q, 8, self.snmpOutNoSuchNames@.oid) {
            Some(self.snmpOutNoSuchNames@)
        } else if level_match(q, 8, self.snmpOutBadValues@.oid) {
            Some(self.snmpOutBadValues@)
        } else if level_match(q, 8, self.snmpOutGenErrs@.oid) {
            Some(self.snmpOutGenErrs@)
        } else if level_match(q, 8, self.snmpOutGetRequests@.oid) {
            Some(self.snmpOutGetRequests@)
        } else if level_match(q, 8, self.snmpOutGetNexts@.oid) {
            Some(self.snmpOutGetNexts@)
        } else if level_match(q, 8, self.snmpOutSetRequests@.oid) {
            Some(self.snmpOutSetRequests@)
        } else if level_match(q, 8, self.snmpOutGetResponses@.oid) {
            Some(self.snmpOutGetResponses@)
        } else if level_match(q, 8, self.snmpOutTraps@.oid) {
            Some(self.snmpOutTraps@)
        } else if level_match(q, 8, self.snmpEnableAuthenTraps@.oid) {
            Some(self.snmpEnableAuthenTraps@)
        } else {
            None
        }
    }

    /// The leaf, or the single table row, that `oid` addresses; see `find_spec`.
    pub fn find_oid(&self, oid: Vec<u16>) -> (r: Option<MibValue>)
        ensures
            opt_view(r) == self.find_spec(oid@),
    {
        if level_matches(oid.as_slice(), 8, self.snmpInPkts.oid_ref().as_slice()) {
            return Some(self.snmpInPkts.clone());
        }
        if level_matches(oid.as_slice(), 8, self.snmpOutPkts.oid_ref().as_slice()) {
            return Some(self.snmpOutPkts.clone());
        }
        if level_matches(oid.as_slice(), 8, self.snmpInBadVersions.oid_ref().as_slice()) {
            return Some(self.snmpInBadVersions.clone());
        }
        if level_matches(oid.as_slice(), 8, self.snmpInBadCommunityNames.oid_ref().as_slice()) {
            return Some(self.snmpInBadCommunityNames.clone());
        }
        if level_matches(oid.as_slice(), 8, self.snmpInBadCommunityUses.oid_ref().as_slice()) {
            return Some(self.snmpInBadCommunityUses.clone());
        }
        if level_matches(oid.as_slice(), 8, self.snmpInASNParseErrs.oid_ref().as_slice()) {
            return Some(self.snmpInASNParseErrs.clone());
        }
        if level_matches(oid.as_slice(), 8, self.snmpInTooBigs.oid_ref().as_slice()) {
            return Some(self.snmpInTooBigs.clone());
        }
        if level_matches(oid.as_slice(), 8, self.snmpInNoSuchNames.oid_ref().as_slice()) {
            return Some(self.snmpInNoSuchNames.clone());
        }
        if level_matches(oid.as_slice(), 8, self.snmpInBadValues.oid_ref().as_slice()) {
            return Some(self.snmpInBadValues.clone());
        }
        if level_matches(oid.as_slice(), 8, self.snmpInReadOnlys.oid_ref().as_slice()) {
            return Some(self.snmpInReadOnlys.clone());
        }
        if level_matches(oid.as_slice(), 8, self.snmpInGenErrs.oid_ref().as_slice()) {
            return Some(self.snmpInGenErrs.clone());
        }
        if level_matches(oid.as_slice(), 8, self.snmpInTotalReqVars.oid_ref().as_slice()) {
            return Some(self.snmpInTotalReqVars.clone());
        }
        if level_matches(oid.as_slice(), 8, self.snmpInTotalSetVars.oid_ref().as_slice()) {
            return Some(self.snmpInTotalSetVars.clone());
        }
        if level_matches(oid.as_slice(), 8, self.snmpInGetRequests.oid_ref().as_slice()) {
            return Some(self.snmpInGetRequests.clone());
        }
        if level_matches(oid.as_slice(), 8, self.snmpInGetNexts.oid_ref().as_slice()) {
            return Some(self.snmpInGetNexts.clone());
        }
        if level_matches(oid.as_slice(), 8, self.snmpInSetRequests.oid_ref().as_slice()) {
            return Some(self.snmpInSetRequests.clone());
        }
        if level_matches(oid.as_slice(), 8, self.snmpInGetResponses.oid_ref().as_slice()) {
            return Some(self.snmpInGetResponses.clone());
        }
        if level_matches(oid.as_slice(), 8, self.snmpInTraps.oid_ref().as_slice()) {
            return Some(self.snmpInTraps.clone());
        }
        if level_matches(oid.as_slice(), 8, self.snmpOutTooBigs.oid_ref().as_slice()) {
            return Some(self.snmpOutTooBigs.clone());
        }
        if level_matches(oid.as_slice(), 8, self.snmpOutNoSuchNames.oid_ref().as_slice()) {
            return Some(self.snmpOutNoSuchNames.clone());
        }
        if level_matches(oid.as_slice(), 8, self.snmpOutBadValues.oid_ref().as_slice()) {
            return Some(self.snmpOutBadValues.clone());
        }
        if level_matches(oid.as_slice(), 8, self.snmpOutGenErrs.oid_ref().as_slice()) {
            return Some(self.snmpOutGenErrs.clone());
        }
        if level_matches(oid.as_slice(), 8, self.snmpOutGetRequests.oid_ref().as_slice()) {
            return Some(self.snmpOutGetRequests.clone());
        }
        if level_matches(oid.as_slice(), 8, self.snmpOutGetNexts.oid_ref().as_slice()) {
            return Some(self.snmpOutGetNexts.clone());
        }
        if level_matches(oid.as_slice(), 8, self.snmpOutSetRequests.oid_ref().as_slice()) {
            return Some(self.snmpOutSetRequests.clone());
        }
        if level_matches(oid.as_slice(), 8, self.snmpOutGetResponses.oid_ref().as_slice()) {
            return Some(self.snmpOutGetResponses.clone());
        }
        if level_matches(oid.as_slice(), 8, self.snmpOutTraps.oid_ref().as_slice()) {
            return Some(self.snmpOutTraps.clone());
        }
        if level_matches(oid.as_slice(), 8, self.snmpEnableAuthenTraps.oid_ref().as_slice()) {
            return Some(self.snmpEnableAuthenTraps.clone());
        }
        None
    }
}

} // verus!
