//! The MIB-II schema: every group with its identifier and every leaf with its name,
//! identifier and encoding.

use vstd::prelude::*;
use crate::value::{copy_vec, Leaf, MibValue};

verus! {

/// The identifier of the MIB-II subtree, `1.3.6.1.2.1`.
pub open spec fn mib2_oid() -> Seq<u16> {
    seq![1u16, 3, 6, 1, 2, 1]
}

/// Relies on chrono's `Local::now().timestamp()`: the current time in whole seconds since the
/// Unix epoch. Nothing is known of its value.
#[verifier::external_body]
fn now_timestamp() -> (r: i64) {
    chrono::Local::now().timestamp()
}

/// A snapshot: one timestamped instance of the whole schema.
pub struct MibObject {
    pub oid: Vec<u16>,
    pub timestamp: i64,
    pub system: System,
    pub interfaces: Interfaces,
    pub at: At,
    pub ip: Ip,
    pub icmp: Icmp,
    pub tcp: Tcp,
    pub udp: Udp,
    pub egp: Egp,
    pub transmission: MibValue,
    pub snmp: Snmp,
}

/// The `system` group: description, identity, uptime and contact of the agent.
pub struct System {
    pub oid: Vec<u16>,
    pub sysDesc: MibValue,
    pub sysObjectID: MibValue,
    pub sysUpTime: MibValue,
    pub sysContact: MibValue,
    pub sysName: MibValue,
    pub sysLocation: MibValue,
    pub sysServices: MibValue,
}

/// The `interfaces` group: the interface count and the interface table.
pub struct Interfaces {
    pub oid: Vec<u16>,
    pub ifNumber: MibValue,
    pub ifTable: IfTable,
}

/// The interface table, one row per interface.
pub struct IfTable {
    pub oid: Vec<u16>,
    pub ifIndex: MibValue,
    pub ifDescr: MibValue,
    pub ifType: MibValue,
    pub ifMtu: MibValue,
    pub ifSpeed: MibValue,
    pub ifPhysAddress: MibValue,
    pub ifAdminStatus: MibValue,
    pub ifOperStatus: MibValue,
    pub ifLastChange: MibValue,
    pub ifInOctets: MibValue,
    pub ifInUcastPkts: MibValue,
    pub ifInNUcastPkts: MibValue,
    pub ifInDiscards: MibValue,
    pub ifInErrors: MibValue,
    pub ifInUnknownProtos: MibValue,
    pub ifOutOctets: MibValue,
    pub ifOutUcastPkts: MibValue,
    pub ifOutNUcastPkts: MibValue,
    pub ifOutDiscards: MibValue,
    pub ifOutErrors: MibValue,
    pub ifOutQLen: MibValue,
    pub ifSpecific: MibValue,
}

/// The `at` group: the address-translation table.
pub struct At {
    pub oid: Vec<u16>,
    pub atTable: AtTable,
}

/// The address-translation table.
pub struct AtTable {
    pub oid: Vec<u16>,
    pub atIfIndex: MibValue,
    pub atPhysAddress: MibValue,
    pub atNetAddress: MibValue,
}

/// The `ip` group: IP counters and the address, route and media tables.
pub struct Ip {
    pub oid: Vec<u16>,
    pub ipForwarding: MibValue,
    pub ipDefaultTTL: MibValue,
    pub ipInReceives: MibValue,
    pub ipInHdrErrors: MibValue,
    pub ipInAddrErrors: MibValue,
    pub ipForwDatagrams: MibValue,
    pub ipInUnknownProtos: MibValue,
    pub ipInDiscards: MibValue,
    pub ipInDelivers: MibValue,
    pub ipOutRequests: MibValue,
    pub ipOutDiscards: MibValue,
    pub ipOutNoRoutes: MibValue,
    pub ipReasmTimeout: MibValue,
    pub ipReasmReqds: MibValue,
    pub ipReasmOKs: MibValue,
    pub ipReasmFails: MibValue,
    pub ipFragOKs: MibValue,
    pub ipFragFails: MibValue,
    pub ipFragCreates: MibValue,
    pub ipAddrTable: IpAddrTable,
    pub ipRouteTable: IpRouteTable,
    pub ipNetToMediaTable: IpNetToMediaTable,
    pub ipRoutingDiscards: MibValue,
}

/// The IP address table.
pub struct IpAddrTable {
    pub oid: Vec<u16>,
    pub ipAdEntAddr: MibValue,
    pub ipAdEntIfIndex: MibValue,
    pub ipAdEntNetMask: MibValue,
    pub ipAdEntBcastAddr: MibValue,
    pub ipAdEntReasmMaxSize: MibValue,
}

/// The IP route table.
pub struct IpRouteTable {
    pub oid: Vec<u16>,
    pub ipRouteDest: MibValue,
    pub ipRouteIfIndex: MibValue,
    pub ipRouteMetric1: MibValue,
    pub ipRouteMetric2: MibValue,
    pub ipRouteMetric3: MibValue,
    pub ipRouteMetric4: MibValue,
    pub ipRouteNextHop: MibValue,
    pub ipRouteType: MibValue,
    pub ipRouteProto: MibValue,
    pub ipRouteAge: MibValue,
    pub ipRouteMask: MibValue,
    pub ipRouteMetric5: MibValue,
    pub ipRouteInfo: MibValue,
}

/// The IP-to-media address table.
pub struct IpNetToMediaTable {
    pub oid: Vec<u16>,
    pub ipNetToMediaIfIndex: MibValue,
    pub ipNetToMediaPhysAddress: MibValue,
    pub ipNetToMediaNetAddress: MibValue,
    pub ipNetToMediaType: MibValue,
}

/// The `icmp` group: ICMP message counters.
pub struct Icmp {
    pub oid: Vec<u16>,
    pub icmpInMsgs: MibValue,
    pub icmpInErrors: MibValue,
    pub icmpInDestUnreachs: MibValue,
    pub icmpInTimeExcds: MibValue,
    pub icmpInParmProbs: MibValue,
    pub icmpInSrcQuenchs: MibValue,
    pub icmpInRedirects: MibValue,
    pub icmpInEchos: MibValue,
    pub icmpInEchoReps: MibValue,
    pub icmpInTimestamps: MibValue,
    pub icmpInTimestampReps: MibValue,
    pub icmpInAddrMasks: MibValue,
    pub icmpInAddrMaskReps: MibValue,
    pub icmpOutMsgs: MibValue,
    pub icmpOutErrors: MibValue,
    pub icmpOutDestUnreachs: MibValue,
    pub icmpOutTimeExcds: MibValue,
    pub icmpOutParmProbs: MibValue,
    pub icmpOutSrcQuenchs: MibValue,
    pub icmpOutRedirects: MibValue,
    pub icmpOutEchos: MibValue,
    pub icmpOutEchoReps: MibValue,
    pub icmpOutTimestamps: MibValue,
    pub icmpOutTimestampReps: MibValue,
    pub icmpOutAddrMasks: MibValue,
    pub icmpOutAddrMaskReps: MibValue,
}

/// The `tcp` group: TCP counters and the connection table.
pub struct Tcp {
    pub oid: Vec<u16>,
    pub tcpRtoAlgorithm: MibValue,
    pub tcpRtoMin: MibValue,
    pub tcpRtoMax: MibValue,
    pub tcpMaxConn: MibValue,
    pub tcpActiveOpens: MibValue,
    pub tcpPassiveOpens: MibValue,
    pub tcpAttemptFails: MibValue,
    pub tcpEstabResets: MibValue,
    pub tcpCurrEstab: MibValue,
    pub tcpInSegs: MibValue,
    pub tcpOutSegs: MibValue,
    pub tcpRetransSegs: MibValue,
    pub tcpConnTable: TcpConnTable,
    pub tcpInErrs: MibValue,
    pub tcpOutRsts: MibValue,
}

/// The TCP connection table.
pub struct TcpConnTable {
    pub oid: Vec<u16>,
    pub tcpConnState: MibValue,
    pub tcpConnLocalAddress: MibValue,
    pub tcpConnLocalPort: MibValue,
    pub tcpConnRemAddress: MibValue,
    pub tcpConnRemPort: MibValue,
}

/// The `udp` group: UDP counters and the listener table.
pub struct Udp {
    pub oid: Vec<u16>,
    pub udpInDatagrams: MibValue,
    pub udpNoPorts: MibValue,
    pub udpInErrors: MibValue,
    pub udpOutDatagrams: MibValue,
    pub udpTable: UdpTable,
}

/// The UDP listener table.
pub struct UdpTable {
    pub oid: Vec<u16>,
    pub udpLocalAddress: MibValue,
    pub udpLocalPort: MibValue,
}

/// The `egp` group: EGP counters and the neighbour table.
pub struct Egp {
    pub oid: Vec<u16>,
    pub egpInMsgs: MibValue,
    pub egpInErrors: MibValue,
    pub egpOutMsgs: MibValue,
    pub egpOutErrors: MibValue,
    pub egpNeighTable: EgpNeighTable,
    pub egpAs: MibValue,
}

/// The EGP neighbour table.
pub struct EgpNeighTable {
    pub oid: Vec<u16>,
    pub egpNeighState: MibValue,
    pub egpNeighAddr: MibValue,
    pub egpNeighAs: MibValue,
    pub egpNeighInMsgs: MibValue,
    pub egpNeighInErrs: MibValue,
    pub egpNeighOutMsgs: MibValue,
    pub egpNeighOutErrs: MibValue,
    pub egpNeighInErrMsgs: MibValue,
    pub egpNeighOutErrMsgs: MibValue,
    pub egpNeighStateUps: MibValue,
    pub egpNeighStateDowns: MibValue,
    pub egpNeighIntervalHello: MibValue,
    pub egpNeighIntervalPoll: MibValue,
    pub egpNeighMode: MibValue,
    pub egpNeighEventTrigger: MibValue,
}

/// The `snmp` group: the agent's own SNMP counters.
pub struct Snmp {
    pub oid: Vec<u16>,
    pub snmpInPkts: MibValue,
    pub snmpOutPkts: MibValue,
    pub snmpInBadVersions: MibValue,
    pub snmpInBadCommunityNames: MibValue,
    pub snmpInBadCommunityUses: MibValue,
    pub snmpInASNParseErrs: MibValue,
    pub snmpInTooBigs: MibValue,
    pub snmpInNoSuchNames: MibValue,
    pub snmpInBadValues: MibValue,
    pub snmpInReadOnlys: MibValue,
    pub snmpInGenErrs: MibValue,
    pub snmpInTotalReqVars: MibValue,
    pub snmpInTotalSetVars: MibValue,
    pub snmpInGetRequests: MibValue,
    pub snmpInGetNexts: MibValue,
    pub snmpInSetRequests: MibValue,
    pub snmpInGetResponses: MibValue,
    pub snmpInTraps: MibValue,
    pub snmpOutTooBigs: MibValue,
    pub snmpOutNoSuchNames: MibValue,
    pub snmpOutBadValues: MibValue,
    pub snmpOutGenErrs: MibValue,
    pub snmpOutGetRequests: MibValue,
    pub snmpOutGetNexts: MibValue,
    pub snmpOutSetRequests: MibValue,
    pub snmpOutGetResponses: MibValue,
    pub snmpOutTraps: MibValue,
    pub snmpEnableAuthenTraps: MibValue,
}

impl MibObject {
    /// The leaves that belong to this group directly, in declaration order.
    pub open spec fn own_leaves(self) -> Seq<Leaf> {
        seq![self.transmission@]
    }

    /// Every leaf of this group and of its tables, in declaration order.
    pub open spec fn leaves(self) -> Seq<Leaf> {
        self.system.leaves() + self.interfaces.leaves() + self.at.leaves() + self.ip.leaves() + self.icmp.leaves() + self.tcp.leaves() + self.udp.leaves() + self.egp.leaves() + seq![self.transmission@] + self.snmp.leaves()
    }

    /// Every identifier in the snapshot is the one the schema declares.
    pub open spec fn oids_declared(self) -> bool {
        &&& self.oid@ == mib2_oid()
        &&& self.system.oids_declared(self.oid@)
        &&& self.interfaces.oids_declared(self.oid@)
        &&& self.at.oids_declared(self.oid@)
        &&& self.ip.oids_declared(self.oid@)
        &&& self.icmp.oids_declared(self.oid@)
        &&& self.tcp.oids_declared(self.oid@)
        &&& self.udp.oids_declared(self.oid@)
        &&& self.egp.oids_declared(self.oid@)
        &&& self.transmission@.oid == self.oid@.push(10)
        &&& self.snmp.oids_declared(self.oid@)
    }

    /// The snapshot as the schema declares it: every leaf with its name, identifier,
    /// encoding and mutability, and no values yet.
    pub open spec fn is_template(self) -> bool {
        &&& self.oid@ == mib2_oid()
        &&& self.system.is_template(self.oid@)
        &&& self.interfaces.is_template(self.oid@)
        &&& self.at.is_template(self.oid@)
        &&& self.ip.is_template(self.oid@)
        &&& self.icmp.is_template(self.oid@)
        &&& self.tcp.is_template(self.oid@)
        &&& self.udp.is_template(self.oid@)
        &&& self.egp.is_template(self.oid@)
        &&& self.transmission is oid
        &&& self.transmission@.declared("transmission"@, self.oid@.push(10), false)
        &&& self.snmp.is_template(self.oid@)
    }

    /// A snapshot as the schema declares it, stamped with the current time.
    pub fn new() -> (r: Self)
        ensures
            r.is_template(),
    {
        MibObject::with_timestamp(now_timestamp())
    }

    /// A snapshot as the schema declares it, stamped with `timestamp`.
    pub fn with_timestamp(timestamp: i64) -> (r: Self)
        ensures
            r.is_template(),
            r.oids_declared(),
            r.timestamp == timestamp,
    {
        let oid: Vec<u16> = vec![1, 3, 6, 1, 2, 1];
        let system = System::declare(&oid);
        let interfaces = Interfaces::declare(&oid);
        let at = At::declare(&oid);
        let ip = Ip::declare(&oid);
        let icmp = Icmp::declare(&oid);
        let tcp = Tcp::declare(&oid);
        let udp = Udp::declare(&oid);
        let egp = Egp::declare(&oid);
        let transmission = MibValue::declare_oid("transmission", &oid, 10, false);
        let snmp = Snmp::declare(&oid);
        MibObject { oid, timestamp, system, interfaces, at, ip, icmp, tcp, udp, egp, transmission, snmp }
    }

}

impl System {
    /// The leaves that belong to this group directly, in declaration order.
    pub open spec fn own_leaves(self) -> Seq<Leaf> {
        seq![self.sysDesc@, self.sysObjectID@, self.sysUpTime@, self.sysContact@, self.sysName@, self.sysLocation@, self.sysServices@]
    }

    /// Every leaf of this group and of its tables, in declaration order.
    pub open spec fn leaves(self) -> Seq<Leaf> {
        seq![self.sysDesc@, self.sysObjectID@, self.sysUpTime@, self.sysContact@, self.sysName@, self.sysLocation@, self.sysServices@]
    }

    /// Every identifier in the group is the one the schema declares under `parent`.
    pub open spec fn oids_declared(self, parent: Seq<u16>) -> bool {
        &&& self.oid@ == parent.push(1)
        &&& self.sysDesc@.oid == self.oid@.push(1)
        &&& self.sysObjectID@.oid == self.oid@.push(2)
        &&& self.sysUpTime@.oid == self.oid@.push(3)
        &&& self.sysContact@.oid == self.oid@.push(4)
        &&& self.sysName@.oid == self.oid@.push(5)
        &&& self.sysLocation@.oid == self.oid@.push(6)
        &&& self.sysServices@.oid == self.oid@.push(7)
    }

    /// The group as the schema declares it under `parent`, with no values yet.
    pub open spec fn is_template(self, parent: Seq<u16>) -> bool {
        &&& self.oid@ == parent.push(1)
        &&& self.sysDesc is string
        &&& self.sysDesc@.declared("sysDesc"@, self.oid@.push(1), false)
        &&& self.sysObjectID is oid
        &&& self.sysObjectID@.declared("sysObjectID"@, self.oid@.push(2), false)
        &&& self.sysUpTime is intu32
        &&& self.sysUpTime@.declared("sysUpTime"@, self.oid@.push(3), false)
        &&& self.sysContact is string
        &&& self.sysContact@.declared("sysContact"@, self.oid@.push(4), true)
        &&& self.sysName is string
        &&& self.sysName@.declared("sysName"@, self.oid@.push(5), true)
        &&& self.sysLocation is string
        &&& self.sysLocation@.declared("sysLocation"@, self.oid@.push(6), true)
        &&& self.sysServices is inti32
        &&& self.sysServices@.declared("sysServices"@, self.oid@.push(7), false)
    }

    /// The group as the schema declares it under `parent`.
    pub fn declare(parent: &Vec<u16>) -> (r: Self)
        ensures
            r.is_template(parent@),
    {
        let mut oid = copy_vec(parent);
        oid.push(1);
        let sysDesc = MibValue::declare_string("sysDesc", &oid, 1, false);
        let sysObjectID = MibValue::declare_oid("sysObjectID", &oid, 2, false);
        let sysUpTime = MibValue::declare_intu32("sysUpTime", &oid, 3, false);
        let sysContact = MibValue::declare_string("sysContact", &oid, 4, true);
        let sysName = MibValue::declare_string("sysName", &oid, 5, true);
        let sysLocation = MibValue::declare_string("sysLocation", &oid, 6, true);
        let sysServices = MibValue::declare_inti32("sysServices", &oid, 7, false);
        System { oid, sysDesc, sysObjectID, sysUpTime, sysContact, sysName, sysLocation, sysServices }
    }

}

impl Interfaces {
    /// The leaves that belong to this group directly, in declaration order.
    pub open spec fn own_leaves(self) -> Seq<Leaf> {
        seq![self.ifNumber@]
    }

    /// Every leaf of this group and of its tables, in declaration order.
    pub open spec fn leaves(self) -> Seq<Leaf> {
        seq![self.ifNumber@] + self.ifTable.leaves()
    }

    /// Every identifier in the group is the one the schema declares under `parent`.
    pub open spec fn oids_declared(self, parent: Seq<u16>) -> bool {
        &&& self.oid@ == parent.push(2)
        &&& self.ifNumber@.oid == self.oid@.push(1)
        &&& self.ifTable.oids_declared(self.oid@)
    }

    /// The group as the schema declares it under `parent`, with no values yet.
    pub open spec fn is_template(self, parent: Seq<u16>) -> bool {
        &&& self.oid@ == parent.push(2)
        &&& self.ifNumber is inti32
        &&& self.ifNumber@.declared("ifNumber"@, self.oid@.push(1), false)
        &&& self.ifTable.is_template(self.oid@)
    }

    /// The group as the schema declares it under `parent`.
    pub fn declare(parent: &Vec<u16>) -> (r: Self)
        ensures
            r.is_template(parent@),
    {
        let mut oid = copy_vec(parent);
        oid.push(2);
        let ifNumber = MibValue::declare_inti32("ifNumber", &oid, 1, false);
        let ifTable = IfTable::declare(&oid);
        Interfaces { oid, ifNumber, ifTable }
    }

}

impl IfTable {
    /// The leaves that belong to this group directly, in declaration order.
    pub open spec fn own_leaves(self) -> Seq<Leaf> {
        seq![self.ifIndex@, self.ifDescr@, self.ifType@, self.ifMtu@, self.ifSpeed@, self.ifPhysAddress@, self.ifAdminStatus@, self.ifOperStatus@, self.ifLastChange@, self.ifInOctets@, self.ifInUcastPkts@, self.ifInNUcastPkts@, self.ifInDiscards@, self.ifInErrors@, self.ifInUnknownProtos@, self.ifOutOctets@, self.ifOutUcastPkts@, self.ifOutNUcastPkts@, self.ifOutDiscards@, self.ifOutErrors@, self.ifOutQLen@, self.ifSpecific@]
    }

    /// Every leaf of this group and of its tables, in declaration order.
    pub open spec fn leaves(self) -> Seq<Leaf> {
        seq![self.ifIndex@, self.ifDescr@, self.ifType@, self.ifMtu@, self.ifSpeed@, self.ifPhysAddress@, self.ifAdminStatus@, self.ifOperStatus@, self.ifLastChange@, self.ifInOctets@, self.ifInUcastPkts@, self.ifInNUcastPkts@, self.ifInDiscards@, self.ifInErrors@, self.ifInUnknownProtos@, self.ifOutOctets@, self.ifOutUcastPkts@, self.ifOutNUcastPkts@, self.ifOutDiscards@, self.ifOutErrors@, self.ifOutQLen@, self.ifSpecific@]
    }

    /// Every identifier in the group is the one the schema declares under `parent`.
    pub open spec fn oids_declared(self, parent: Seq<u16>) -> bool {
        &&& self.oid@ == parent.push(2)
        &&& self.ifIndex@.oid == self.oid@.push(1).push(1)
        &&& self.ifDescr@.oid == self.oid@.push(1).push(2)
        &&& self.ifType@.oid == self.oid@.push(1).push(3)
        &&& self.ifMtu@.oid == self.oid@.push(1).push(4)
        &&& self.ifSpeed@.oid == self.oid@.push(1).push(5)
        &&& self.ifPhysAddress@.oid == self.oid@.push(1).push(6)
        &&& self.ifAdminStatus@.oid == self.oid@.push(1).push(7)
        &&& self.ifOperStatus@.oid == self.oid@.push(1).push(8)
        &&& self.ifLastChange@.oid == self.oid@.push(1).push(9)
        &&& self.ifInOctets@.oid == self.oid@.push(1).push(10)
        &&& self.ifInUcastPkts@.oid == self.oid@.push(1).push(11)
        &&& self.ifInNUcastPkts@.oid == self.oid@.push(1).push(12)
        &&& self.ifInDiscards@.oid == self.oid@.push(1).push(13)
        &&& self.ifInErrors@.oid == self.oid@.push(1).push(14)
        &&& self.ifInUnknownProtos@.oid == self.oid@.push(1).push(15)
        &&& self.ifOutOctets@.oid == self.oid@.push(1).push(16)
        &&& self.ifOutUcastPkts@.oid == self.oid@.push(1).push(17)
        &&& self.ifOutNUcastPkts@.oid == self.oid@.push(1).push(18)
        &&& self.ifOutDiscards@.oid == self.oid@.push(1).push(19)
        &&& self.ifOutErrors@.oid == self.oid@.push(1).push(20)
        &&& self.ifOutQLen@.oid == self.oid@.push(1).push(21)
        &&& self.ifSpecific@.oid == self.oid@.push(1).push(22)
    }

    /// The group as the schema declares it under `parent`, with no values yet.
    pub open spec fn is_template(self, parent: Seq<u16>) -> bool {
        &&& self.oid@ == parent.push(2)
        &&& self.ifIndex is inti32
        &&& self.ifIndex@.declared("ifIndex"@, self.oid@.push(1).push(1), false)
        &&& self.ifDescr is string
        &&& self.ifDescr@.declared("ifDescr"@, self.oid@.push(1).push(2), false)
        &&& self.ifType is inti32
        &&& self.ifType@.declared("ifType"@, self.oid@.push(1).push(3), false)
        &&& self.ifMtu is inti32
        &&& self.ifMtu@.declared("ifMtu"@, self.oid@.push(1).push(4), false)
        &&& self.ifSpeed is intu32
        &&& self.ifSpeed@.declared("ifSpeed"@, self.oid@.push(1).push(5), false)
        &&& self.ifPhysAddress is ipv6
        &&& self.ifPhysAddress@.declared("ifPhysAddress"@, self.oid@.push(1).push(6), false)
        &&& self.ifAdminStatus is inti32
        &&& self.ifAdminStatus@.declared("ifAdminStatus"@, self.oid@.push(1).push(7), true)
        &&& self.ifOperStatus is inti32
        &&& self.ifOperStatus@.declared("ifOperStatus"@, self.oid@.push(1).push(8), false)
        &&& self.ifLastChange is intu32
        &&& self.ifLastChange@.declared("ifLastChange"@, self.oid@.push(1).push(9), false)
        &&& self.ifInOctets is intu32
        &&& self.ifInOctets@.declared("ifInOctets"@, self.oid@.push(1).push(10), false)
        &&& self.ifInUcastPkts is intu32
        &&& self.ifInUcastPkts@.declared("ifInUcastPkts"@, self.oid@.push(1).push(11), false)
        &&& self.ifInNUcastPkts is intu32
        &&& self.ifInNUcastPkts@.declared("ifInNUcastPkts"@, self.oid@.push(1).push(12), false)
        &&& self.ifInDiscards is intu32
        &&& self.ifInDiscards@.declared("ifInDiscards"@, self.oid@.push(1).push(13), false)
        &&& self.ifInErrors is intu32
        &&& self.ifInErrors@.declared("ifInErrors"@, self.oid@.push(1).push(14), false)
        &&& self.ifInUnknownProtos is intu32
        &&& self.ifInUnknownProtos@.declared("ifInUnknownProtos"@, self.oid@.push(1).push(15), false)
        &&& self.ifOutOctets is intu32
        &&& self.ifOutOctets@.declared("ifOutOctets"@, self.oid@.push(1).push(16), false)
        &&& self.ifOutUcastPkts is intu32
        &&& self.ifOutUcastPkts@.declared("ifOutUcastPkts"@, self.oid@.push(1).push(17), false)
        &&& self.ifOutNUcastPkts is intu32
        &&& self.ifOutNUcastPkts@.declared("ifOutNUcastPkts"@, self.oid@.push(1).push(18), false)
        &&& self.ifOutDiscards is intu32
        &&& self.ifOutDiscards@.declared("ifOutDiscards"@, self.oid@.push(1).push(19), false)
        &&& self.ifOutErrors is intu32
        &&& self.ifOutErrors@.declared("ifOutErrors"@, self.oid@.push(1).push(20), false)
        &&& self.ifOutQLen is intu32
        &&& self.ifOutQLen@.declared("ifOutQLen"@, self.oid@.push(1).push(21), false)
        &&& self.ifSpecific is oid
        &&& self.ifSpecific@.declared("ifSpecific"@, self.oid@.push(1).push(22), false)
    }

    /// The group as the schema declares it under `parent`.
    pub fn declare(parent: &Vec<u16>) -> (r: Self)
        ensures
            r.is_template(parent@),
    {
        let mut oid = copy_vec(parent);
        oid.push(2);
        let mut entry = copy_vec(&oid);
        entry.push(1);
        let ifIndex = MibValue::declare_inti32("ifIndex", &entry, 1, false);
        let ifDescr = MibValue::declare_string("ifDescr", &entry, 2, false);
        let ifType = MibValue::declare_inti32("ifType", &entry, 3, false);
        let ifMtu = MibValue::declare_inti32("ifMtu", &entry, 4, false);
        let ifSpeed = MibValue::declare_intu32("ifSpeed", &entry, 5, false);
        let ifPhysAddress = MibValue::declare_ipv6("ifPhysAddress", &entry, 6, false);
        let ifAdminStatus = MibValue::declare_inti32("ifAdminStatus", &entry, 7, true);
        let ifOperStatus = MibValue::declare_inti32("ifOperStatus", &entry, 8, false);
        let ifLastChange = MibValue::declare_intu32("ifLastChange", &entry, 9, false);
        let ifInOctets = MibValue::declare_intu32("ifInOctets", &entry, 10, false);
        let ifInUcastPkts = MibValue::declare_intu32("ifInUcastPkts", &entry, 11, false);
        let ifInNUcastPkts = MibValue::declare_intu32("ifInNUcastPkts", &entry, 12, false);
        let ifInDiscards = MibValue::declare_intu32("ifInDiscards", &entry, 13, false);
        let ifInErrors = MibValue::declare_intu32("ifInErrors", &entry, 14, false);
        let ifInUnknownProtos = MibValue::declare_intu32("ifInUnknownProtos", &entry, 15, false);
        let ifOutOctets = MibValue::declare_intu32("ifOutOctets", &entry, 16, false);
        let ifOutUcastPkts = MibValue::declare_intu32("ifOutUcastPkts", &entry, 17, false);
        let ifOutNUcastPkts = MibValue::declare_intu32("ifOutNUcastPkts", &entry, 18, false);
        let ifOutDiscards = MibValue::declare_intu32("ifOutDiscards", &entry, 19, false);
        let ifOutErrors = MibValue::declare_intu32("ifOutErrors", &entry, 20, false);
        let ifOutQLen = MibValue::declare_intu32("ifOutQLen", &entry, 21, false);
        let ifSpecific = MibValue::declare_oid("ifSpecific", &entry, 22, false);
        IfTable { oid, ifIndex, ifDescr, ifType, ifMtu, ifSpeed, ifPhysAddress, ifAdminStatus, ifOperStatus, ifLastChange, ifInOctets, ifInUcastPkts, ifInNUcastPkts, ifInDiscards, ifInErrors, ifInUnknownProtos, ifOutOctets, ifOutUcastPkts, ifOutNUcastPkts, ifOutDiscards, ifOutErrors, ifOutQLen, ifSpecific }
    }

}

impl At {
    /// The leaves that belong to this group directly, in declaration order.
    pub open spec fn own_leaves(self) -> Seq<Leaf> {
        Seq::empty()
    }

    /// Every leaf of this group and of its tables, in declaration order.
    pub open spec fn leaves(self) -> Seq<Leaf> {
        self.atTable.leaves()
    }

    /// Every identifier in the group is the one the schema declares under `parent`.
    pub open spec fn oids_declared(self, parent: Seq<u16>) -> bool {
        &&& self.oid@ == parent.push(3)
        &&& self.atTable.oids_declared(self.oid@)
    }

    /// The group as the schema declares it under `parent`, with no values yet.
    pub open spec fn is_template(self, parent: Seq<u16>) -> bool {
        &&& self.oid@ == parent.push(3)
        &&& self.atTable.is_template(self.oid@)
    }

    /// The group as the schema declares it under `parent`.
    pub fn declare(parent: &Vec<u16>) -> (r: Self)
        ensures
            r.is_template(parent@),
    {
        let mut oid = copy_vec(parent);
        oid.push(3);
        let atTable = AtTable::declare(&oid);
        At { oid, atTable }
    }

}

impl AtTable {
    /// The leaves that belong to this group directly, in declaration order.
    pub open spec fn own_leaves(self) -> Seq<Leaf> {
        seq![self.atIfIndex@, self.atPhysAddress@, self.atNetAddress@]
    }

    /// Every leaf of this group and of its tables, in declaration order.
    pub open spec fn leaves(self) -> Seq<Leaf> {
        seq![self.atIfIndex@, self.atPhysAddress@, self.atNetAddress@]
    }

    /// Every identifier in the group is the one the schema declares under `parent`.
    pub open spec fn oids_declared(self, parent: Seq<u16>) -> bool {
        &&& self.oid@ == parent.push(1)
        &&& self.atIfIndex@.oid == self.oid@.push(1).push(1)
        &&& self.atPhysAddress@.oid == self.oid@.push(1).push(2)
        &&& self.atNetAddress@.oid == self.oid@.push(1).push(3)
    }

    /// The group as the schema declares it under `parent`, with no values yet.
    pub open spec fn is_template(self, parent: Seq<u16>) -> bool {
        &&& self.oid@ == parent.push(1)
        &&& self.atIfIndex is inti32
        &&& self.atIfIndex@.declared("atIfIndex"@, self.oid@.push(1).push(1), true)
        &&& self.atPhysAddress is ipv6
        &&& self.atPhysAddress@.declared("atPhysAddress"@, self.oid@.push(1).push(2), true)
        &&& self.atNetAddress is ipv4
        &&& self.atNetAddress@.declared("atNetAddress"@, self.oid@.push(1).push(3), true)
    }

    /// The group as the schema declares it under `parent`.
    pub fn declare(parent: &Vec<u16>) -> (r: Self)
        ensures
            r.is_template(parent@),
    {
        let mut oid = copy_vec(parent);
        oid.push(1);
        let mut entry = copy_vec(&oid);
        entry.push(1);
        let atIfIndex = MibValue::declare_inti32("atIfIndex", &entry, 1, true);
        let atPhysAddress = MibValue::declare_ipv6("atPhysAddress", &entry, 2, true);
        let atNetAddress = MibValue::declare_ipv4("atNetAddress", &entry, 3, true);
        AtTable { oid, atIfIndex, atPhysAddress, atNetAddress }
    }

}

impl Ip {
    /// The leaves that belong to this group directly, in declaration order.
    pub open spec fn own_leaves(self) -> Seq<Leaf> {
        seq![self.ipForwarding@, self.ipDefaultTTL@, self.ipInReceives@, self.ipInHdrErrors@, self.ipInAddrErrors@, self.ipForwDatagrams@, self.ipInUnknownProtos@, self.ipInDiscards@, self.ipInDelivers@, self.ipOutRequests@, self.ipOutDiscards@, self.ipOutNoRoutes@, self.ipReasmTimeout@, self.ipReasmReqds@, self.ipReasmOKs@, self.ipReasmFails@, self.ipFragOKs@, self.ipFragFails@, self.ipFragCreates@, self.ipRoutingDiscards@]
    }

    /// Every leaf of this group and of its tables, in declaration order.
    pub open spec fn leaves(self) -> Seq<Leaf> {
        seq![self.ipForwarding@, self.ipDefaultTTL@, self.ipInReceives@, self.ipInHdrErrors@, self.ipInAddrErrors@, self.ipForwDatagrams@, self.ipInUnknownProtos@, self.ipInDiscards@, self.ipInDelivers@, self.ipOutRequests@, self.ipOutDiscards@, self.ipOutNoRoutes@, self.ipReasmTimeout@, self.ipReasmReqds@, self.ipReasmOKs@, self.ipReasmFails@, self.ipFragOKs@, self.ipFragFails@, self.ipFragCreates@] + self.ipAddrTable.leaves() + self.ipRouteTable.leaves() + self.ipNetToMediaTable.leaves() + seq![self.ipRoutingDiscards@]
    }

    /// Every identifier in the group is the one the schema declares under `parent`.
    pub open spec fn oids_declared(self, parent: Seq<u16>) -> bool {
        &&& self.oid@ == parent.push(4)
        &&& self.ipForwarding@.oid == self.oid@.push(1)
        &&& self.ipDefaultTTL@.oid == self.oid@.push(2)
        &&& self.ipInReceives@.oid == self.oid@.push(3)
        &&& self.ipInHdrErrors@.oid == self.oid@.push(4)
        &&& self.ipInAddrErrors@.oid == self.oid@.push(5)
        &&& self.ipForwDatagrams@.oid == self.oid@.push(6)
        &&& self.ipInUnknownProtos@.oid == self.oid@.push(7)
        &&& self.ipInDiscards@.oid == self.oid@.push(8)
        &&& self.ipInDelivers@.oid == self.oid@.push(9)
        &&& self.ipOutRequests@.oid == self.oid@.push(10)
        &&& self.ipOutDiscards@.oid == self.oid@.push(11)
        &&& self.ipOutNoRoutes@.oid == self.oid@.push(12)
        &&& self.ipReasmTimeout@.oid == self.oid@.push(13)
        &&& self.ipReasmReqds@.oid == self.oid@.push(14)
        &&& self.ipReasmOKs@.oid == self.oid@.push(15)
        &&& self.ipReasmFails@.oid == self.oid@.push(16)
        &&& self.ipFragOKs@.oid == self.oid@.push(17)
        &&& self.ipFragFails@.oid == self.oid@.push(18)
        &&& self.ipFragCreates@.oid == self.oid@.push(19)
        &&& self.ipAddrTable.oids_declared(self.oid@)
        &&& self.ipRouteTable.oids_declared(self.oid@)
        &&& self.ipNetToMediaTable.oids_declared(self.oid@)
        &&& self.ipRoutingDiscards@.oid == self.oid@.push(23)
    }

    /// The group as the schema declares it under `parent`, with no values yet.
    pub open spec fn is_template(self, parent: Seq<u16>) -> bool {
        &&& self.oid@ == parent.push(4)
        &&& self.ipForwarding is inti32
        &&& self.ipForwarding@.declared("ipForwarding"@, self.oid@.push(1), true)
        &&& self.ipDefaultTTL is inti32
        &&& self.ipDefaultTTL@.declared("ipDefaultTTL"@, self.oid@.push(2), true)
        &&& self.ipInReceives is intu32
        &&& self.ipInReceives@.declared("ipInReceives"@, self.oid@.push(3), false)
        &&& self.ipInHdrErrors is intu32
        &&& self.ipInHdrErrors@.declared("ipInHdrErrors"@, self.oid@.push(4), false)
        &&& self.ipInAddrErrors is intu32
        &&& self.ipInAddrErrors@.declared("ipInAddrErrors"@, self.oid@.push(5), false)
        &&& self.ipForwDatagrams is intu32
        &&& self.ipForwDatagrams@.declared("ipForwDatagrams"@, self.oid@.push(6), false)
        &&& self.ipInUnknownProtos is intu32
        &&& self.ipInUnknownProtos@.declared("ipInUnknownProtos"@, self.oid@.push(7), false)
        &&& self.ipInDiscards is intu32
        &&& self.ipInDiscards@.declared("ipInDiscards"@, self.oid@.push(8), false)
        &&& self.ipInDelivers is intu32
        &&& self.ipInDelivers@.declared("ipInDelivers"@, self.oid@.push(9), false)
        &&& self.ipOutRequests is intu32
        &&& self.ipOutRequests@.declared("ipOutRequests"@, self.oid@.push(10), false)
        &&& self.ipOutDiscards is intu32
        &&& self.ipOutDiscards@.declared("ipOutDiscards"@, self.oid@.push(11), false)
        &&& self.ipOutNoRoutes is intu32
        &&& self.ipOutNoRoutes@.declared("ipOutNoRoutes"@, self.oid@.push(12), false)
        &&& self.ipReasmTimeout is inti32
        &&& self.ipReasmTimeout@.declared("ipReasmTimeout"@, self.oid@.push(13), false)
        &&& self.ipReasmReqds is intu32
        &&& self.ipReasmReqds@.declared("ipReasmReqds"@, self.oid@.push(14), false)
        &&& self.ipReasmOKs is intu32
        &&& self.ipReasmOKs@.declared("ipReasmOKs"@, self.oid@.push(15), false)
        &&& self.ipReasmFails is intu32
        &&& self.ipReasmFails@.declared("ipReasmFails"@, self.oid@.push(16), false)
        &&& self.ipFragOKs is intu32
        &&& self.ipFragOKs@.declared("ipFragOKs"@, self.oid@.push(17), false)
        &&& self.ipFragFails is intu32
        &&& self.ipFragFails@.declared("ipFragFails"@, self.oid@.push(18), false)
        &&& self.ipFragCreates is intu32
        &&& self.ipFragCreates@.declared("ipFragCreates"@, self.oid@.push(19), false)
        &&& self.ipAddrTable.is_template(self.oid@)
        &&& self.ipRouteTable.is_template(self.oid@)
        &&& self.ipNetToMediaTable.is_template(self.oid@)
        &&& self.ipRoutingDiscards is intu32
        &&& self.ipRoutingDiscards@.declared("ipRoutingDiscards"@, self.oid@.push(23), false)
    }

    /// The group as the schema declares it under `parent`.
    pub fn declare(parent: &Vec<u16>) -> (r: Self)
        ensures
            r.is_template(parent@),
    {
        let mut oid = copy_vec(parent);
        oid.push(4);
        let ipForwarding = MibValue::declare_inti32("ipForwarding", &oid, 1, true);
        let ipDefaultTTL = MibValue::declare_inti32("ipDefaultTTL", &oid, 2, true);
        let ipInReceives = MibValue::declare_intu32("ipInReceives", &oid, 3, false);
        let ipInHdrErrors = MibValue::declare_intu32("ipInHdrErrors", &oid, 4, false);
        let ipInAddrErrors = MibValue::declare_intu32("ipInAddrErrors", &oid, 5, false);
        let ipForwDatagrams = MibValue::declare_intu32("ipForwDatagrams", &oid, 6, false);
        let ipInUnknownProtos = MibValue::declare_intu32("ipInUnknownProtos", &oid, 7, false);
        let ipInDiscards = MibValue::declare_intu32("ipInDiscards", &oid, 8, false);
        let ipInDelivers = MibValue::declare_intu32("ipInDelivers", &oid, 9, false);
        let ipOutRequests = MibValue::declare_intu32("ipOutRequests", &oid, 10, false);
        let ipOutDiscards = MibValue::declare_intu32("ipOutDiscards", &oid, 11, false);
        let ipOutNoRoutes = MibValue::declare_intu32("ipOutNoRoutes", &oid, 12, false);
        let ipReasmTimeout = MibValue::declare_inti32("ipReasmTimeout", &oid, 13, false);
        let ipReasmReqds = MibValue::declare_intu32("ipReasmReqds", &oid, 14, false);
        let ipReasmOKs = MibValue::declare_intu32("ipReasmOKs", &oid, 15, false);
        let ipReasmFails = MibValue::declare_intu32("ipReasmFails", &oid, 16, false);
        let ipFragOKs = MibValue::declare_intu32("ipFragOKs", &oid, 17, false);
        let ipFragFails = MibValue::declare_intu32("ipFragFails", &oid, 18, false);
        let ipFragCreates = MibValue::declare_intu32("ipFragCreates", &oid, 19, false);
        let ipAddrTable = IpAddrTable::declare(&oid);
        let ipRouteTable = IpRouteTable::declare(&oid);
        let ipNetToMediaTable = IpNetToMediaTable::declare(&oid);
        let ipRoutingDiscards = MibValue::declare_intu32("ipRoutingDiscards", &oid, 23, false);
        Ip { oid, ipForwarding, ipDefaultTTL, ipInReceives, ipInHdrErrors, ipInAddrErrors, ipForwDatagrams, ipInUnknownProtos, ipInDiscards, ipInDelivers, ipOutRequests, ipOutDiscards, ipOutNoRoutes, ipReasmTimeout, ipReasmReqds, ipReasmOKs, ipReasmFails, ipFragOKs, ipFragFails, ipFragCreates, ipAddrTable, ipRouteTable, ipNetToMediaTable, ipRoutingDiscards }
    }

}

impl IpAddrTable {
    /// The leaves that belong to this group directly, in declaration order.
    pub open spec fn own_leaves(self) -> Seq<Leaf> {
        seq![self.ipAdEntAddr@, self.ipAdEntIfIndex@, self.ipAdEntNetMask@, self.ipAdEntBcastAddr@, self.ipAdEntReasmMaxSize@]
    }

    /// Every leaf of this group and of its tables, in declaration order.
    pub open spec fn leaves(self) -> Seq<Leaf> {
        seq![self.ipAdEntAddr@, self.ipAdEntIfIndex@, self.ipAdEntNetMask@, self.ipAdEntBcastAddr@, self.ipAdEntReasmMaxSize@]
    }

    /// Every identifier in the group is the one the schema declares under `parent`.
    pub open spec fn oids_declared(self, parent: Seq<u16>) -> bool {
        &&& self.oid@ == parent.push(20)
        &&& self.ipAdEntAddr@.oid == self.oid@.push(1).push(1)
        &&& self.ipAdEntIfIndex@.oid == self.oid@.push(1).push(2)
        &&& self.ipAdEntNetMask@.oid == self.oid@.push(1).push(3)
        &&& self.ipAdEntBcastAddr@.oid == self.oid@.push(1).push(4)
        &&& self.ipAdEntReasmMaxSize@.oid == self.oid@.push(1).push(5)
    }

    /// The group as the schema declares it under `parent`, with no values yet.
    pub open spec fn is_template(self, parent: Seq<u16>) -> bool {
        &&& self.oid@ == parent.push(20)
        &&& self.ipAdEntAddr is ipv4
        &&& self.ipAdEntAddr@.declared("ipAdEntAddr"@, self.oid@.push(1).push(1), false)
        &&& self.ipAdEntIfIndex is inti32
        &&& self.ipAdEntIfIndex@.declared("ipAdEntIfIndex"@, self.oid@.push(1).push(2), false)
        &&& self.ipAdEntNetMask is ipv4
        &&& self.ipAdEntNetMask@.declared("ipAdEntNetMask"@, self.oid@.push(1).push(3), false)
        &&& self.ipAdEntBcastAddr is inti32
        &&& self.ipAdEntBcastAddr@.declared("ipAdEntBcastAddr"@, self.oid@.push(1).push(4), false)
        &&& self.ipAdEntReasmMaxSize is inti32
        &&& self.ipAdEntReasmMaxSize@.declared("ipAdEntReasmMaxSize"@, self.oid@.push(1).push(5), false)
    }

    /// The group as the schema declares it under `parent`.
    pub fn declare(parent: &Vec<u16>) -> (r: Self)
        ensures
            r.is_template(parent@),
    {
        let mut oid = copy_vec(parent);
        oid.push(20);
        let mut entry = copy_vec(&oid);
        entry.push(1);
        let ipAdEntAddr = MibValue::declare_ipv4("ipAdEntAddr", &entry, 1, false);
        let ipAdEntIfIndex = MibValue::declare_inti32("ipAdEntIfIndex", &entry, 2, false);
        let ipAdEntNetMask = MibValue::declare_ipv4("ipAdEntNetMask", &entry, 3, false);
        let ipAdEntBcastAddr = MibValue::declare_inti32("ipAdEntBcastAddr", &entry, 4, false);
        let ipAdEntReasmMaxSize = MibValue::declare_inti32("ipAdEntReasmMaxSize", &entry, 5, false);
        IpAddrTable { oid, ipAdEntAddr, ipAdEntIfIndex, ipAdEntNetMask, ipAdEntBcastAddr, ipAdEntReasmMaxSize }
    }

}

impl IpRouteTable {
    /// The leaves that belong to this group directly, in declaration order.
    pub open spec fn own_leaves(self) -> Seq<Leaf> {
        seq![self.ipRouteDest@, self.ipRouteIfIndex@, self.ipRouteMetric1@, self.ipRouteMetric2@, self.ipRouteMetric3@, self.ipRouteMetric4@, self.ipRouteNextHop@, self.ipRouteType@, self.ipRouteProto@, self.ipRouteAge@, self.ipRouteMask@, self.ipRouteMetric5@, self.ipRouteInfo@]
    }

    /// Every leaf of this group and of its tables, in declaration order.
    pub open spec fn leaves(self) -> Seq<Leaf> {
        seq![self.ipRouteDest@, self.ipRouteIfIndex@, self.ipRouteMetric1@, self.ipRouteMetric2@, self.ipRouteMetric3@, self.ipRouteMetric4@, self.ipRouteNextHop@, self.ipRouteType@, self.ipRouteProto@, self.ipRouteAge@, self.ipRouteMask@, self.ipRouteMetric5@, self.ipRouteInfo@]
    }

    /// Every identifier in the group is the one the schema declares under `parent`.
    pub open spec fn oids_declared(self, parent: Seq<u16>) -> bool {
        &&& self.oid@ == parent.push(21)
        &&& self.ipRouteDest@.oid == self.oid@.push(1).push(1)
        &&& self.ipRouteIfIndex@.oid == self.oid@.push(1).push(2)
        &&& self.ipRouteMetric1@.oid == self.oid@.push(1).push(3)
        &&& self.ipRouteMetric2@.oid == self.oid@.push(1).push(4)
        &&& self.ipRouteMetric3@.oid == self.oid@.push(1).push(5)
        &&& self.ipRouteMetric4@.oid == self.oid@.push(1).push(6)
        &&& self.ipRouteNextHop@.oid == self.oid@.push(1).push(7)
        &&& self.ipRouteType@.oid == self.oid@.push(1).push(8)
        &&& self.ipRouteProto@.oid == self.oid@.push(1).push(9)
        &&& self.ipRouteAge@.oid == self.oid@.push(1).push(10)
        &&& self.ipRouteMask@.oid == self.oid@.push(1).push(11)
        &&& self.ipRouteMetric5@.oid == self.oid@.push(1).push(12)
        &&& self.ipRouteInfo@.oid == self.oid@.push(1).push(13)
    }

    /// The group as the schema declares it under `parent`, with no values yet.
    pub open spec fn is_template(self, parent: Seq<u16>) -> bool {
        &&& self.oid@ == parent.push(21)
        &&& self.ipRouteDest is ipv4
        &&& self.ipRouteDest@.declared("ipRouteDest"@, self.oid@.push(1).push(1), true)
        &&& self.ipRouteIfIndex is inti32
        &&& self.ipRouteIfIndex@.declared("ipRouteIfIndex"@, self.oid@.push(1).push(2), true)
        &&& self.ipRouteMetric1 is inti32
        &&& self.ipRouteMetric1@.declared("ipRouteMetric1"@, self.oid@.push(1).push(3), true)
        &&& self.ipRouteMetric2 is inti32
        &&& self.ipRouteMetric2@.declared("ipRouteMetric2"@, self.oid@.push(1).push(4), true)
        &&& self.ipRouteMetric3 is inti32
        &&& self.ipRouteMetric3@.declared("ipRouteMetric3"@, self.oid@.push(1).push(5), true)
        &&& self.ipRouteMetric4 is inti32
        &&& self.ipRouteMetric4@.declared("ipRouteMetric4"@, self.oid@.push(1).push(6), true)
        &&& self.ipRouteNextHop is ipv4
        &&& self.ipRouteNextHop@.declared("ipRouteNextHop"@, self.oid@.push(1).push(7), true)
        &&& self.ipRouteType is inti32
        &&& self.ipRouteType@.declared("ipRouteType"@, self.oid@.push(1).push(8), true)
        &&& self.ipRouteProto is inti32
        &&& self.ipRouteProto@.declared("ipRouteProto"@, self.oid@.push(1).push(9), true)
        &&& self.ipRouteAge is inti32
        &&& self.ipRouteAge@.declared("ipRouteAge"@, self.oid@.push(1).push(10), true)
        &&& self.ipRouteMask is ipv4
        &&& self.ipRouteMask@.declared("ipRouteMask"@, self.oid@.push(1).push(11), true)
        &&& self.ipRouteMetric5 is inti32
        &&& self.ipRouteMetric5@.declared("ipRouteMetric5"@, self.oid@.push(1).push(12), true)
        &&& self.ipRouteInfo is oid
        &&& self.ipRouteInfo@.declared("ipRouteInfo"@, self.oid@.push(1).push(13), true)
    }

    /// The group as the schema declares it under `parent`.
    pub fn declare(parent: &Vec<u16>) -> (r: Self)
        ensures
            r.is_template(parent@),
    {
        let mut oid = copy_vec(parent);
        oid.push(21);
        let mut entry = copy_vec(&oid);
        entry.push(1);
        let ipRouteDest = MibValue::declare_ipv4("ipRouteDest", &entry, 1, true);
        let ipRouteIfIndex = MibValue::declare_inti32("ipRouteIfIndex", &entry, 2, true);
        let ipRouteMetric1 = MibValue::declare_inti32("ipRouteMetric1", &entry, 3, true);
        let ipRouteMetric2 = MibValue::declare_inti32("ipRouteMetric2", &entry, 4, true);
        let ipRouteMetric3 = MibValue::declare_inti32("ipRouteMetric3", &entry, 5, true);
        let ipRouteMetric4 = MibValue::declare_inti32("ipRouteMetric4", &entry, 6, true);
        let ipRouteNextHop = MibValue::declare_ipv4("ipRouteNextHop", &entry, 7, true);
        let ipRouteType = MibValue::declare_inti32("ipRouteType", &entry, 8, true);
        let ipRouteProto = MibValue::declare_inti32("ipRouteProto", &entry, 9, true);
        let ipRouteAge = MibValue::declare_inti32("ipRouteAge", &entry, 10, true);
        let ipRouteMask = MibValue::declare_ipv4("ipRouteMask", &entry, 11, true);
        let ipRouteMetric5 = MibValue::declare_inti32("ipRouteMetric5", &entry, 12, true);
        let ipRouteInfo = MibValue::declare_oid("ipRouteInfo", &entry, 13, true);
        IpRouteTable { oid, ipRouteDest, ipRouteIfIndex, ipRouteMetric1, ipRouteMetric2, ipRouteMetric3, ipRouteMetric4, ipRouteNextHop, ipRouteType, ipRouteProto, ipRouteAge, ipRouteMask, ipRouteMetric5, ipRouteInfo }
    }

}

impl IpNetToMediaTable {
    /// The leaves that belong to this group directly, in declaration order.
    pub open spec fn own_leaves(self) -> Seq<Leaf> {
        seq![self.ipNetToMediaIfIndex@, self.ipNetToMediaPhysAddress@, self.ipNetToMediaNetAddress@, self.ipNetToMediaType@]
    }

    /// Every leaf of this group and of its tables, in declaration order.
    pub open spec fn leaves(self) -> Seq<Leaf> {
        seq![self.ipNetToMediaIfIndex@, self.ipNetToMediaPhysAddress@, self.ipNetToMediaNetAddress@, self.ipNetToMediaType@]
    }

    /// Every identifier in the group is the one the schema declares under `parent`.
    pub open spec fn oids_declared(self, parent: Seq<u16>) -> bool {
        &&& self.oid@ == parent.push(22)
        &&& self.ipNetToMediaIfIndex@.oid == self.oid@.push(1).push(1)
        &&& self.ipNetToMediaPhysAddress@.oid == self.oid@.push(1).push(2)
        &&& self.ipNetToMediaNetAddress@.oid == self.oid@.push(1).push(3)
        &&& self.ipNetToMediaType@.oid == self.oid@.push(1).push(4)
    }

    /// The group as the schema declares it under `parent`, with no values yet.
    pub open spec fn is_template(self, parent: Seq<u16>) -> bool {
        &&& self.oid@ == parent.push(22)
        &&& self.ipNetToMediaIfIndex is inti32
        &&& self.ipNetToMediaIfIndex@.declared("ipNetToMediaIfIndex"@, self.oid@.push(1).push(1), true)
        &&& self.ipNetToMediaPhysAddress is ipv6
        &&& self.ipNetToMediaPhysAddress@.declared("ipNetToMediaPhysAddress"@, self.oid@.push(1).push(2), true)
        &&& self.ipNetToMediaNetAddress is ipv4
        &&& self.ipNetToMediaNetAddress@.declared("ipNetToMediaNetAddress"@, self.oid@.push(1).push(3), true)
        &&& self.ipNetToMediaType is inti32
        &&& self.ipNetToMediaType@.declared("ipNetToMediaType"@, self.oid@.push(1).push(4), true)
    }

    /// The group as the schema declares it under `parent`.
    pub fn declare(parent: &Vec<u16>) -> (r: Self)
        ensures
            r.is_template(parent@),
    {
        let mut oid = copy_vec(parent);
        oid.push(22);
        let mut entry = copy_vec(&oid);
        entry.push(1);
        let ipNetToMediaIfIndex = MibValue::declare_inti32("ipNetToMediaIfIndex", &entry, 1, true);
        let ipNetToMediaPhysAddress = MibValue::declare_ipv6("ipNetToMediaPhysAddress", &entry, 2, true);
        let ipNetToMediaNetAddress = MibValue::declare_ipv4("ipNetToMediaNetAddress", &entry, 3, true);
        let ipNetToMediaType = MibValue::declare_inti32("ipNetToMediaType", &entry, 4, true);
        IpNetToMediaTable { oid, ipNetToMediaIfIndex, ipNetToMediaPhysAddress, ipNetToMediaNetAddress, ipNetToMediaType }
    }

}

impl Icmp {
    /// The leaves that belong to this group directly, in declaration order.
    pub open spec fn own_leaves(self) -> Seq<Leaf> {
        seq![self.icmpInMsgs@, self.icmpInErrors@, self.icmpInDestUnreachs@, self.icmpInTimeExcds@, self.icmpInParmProbs@, self.icmpInSrcQuenchs@, self.icmpInRedirects@, self.icmpInEchos@, self.icmpInEchoReps@, self.icmpInTimestamps@, self.icmpInTimestampReps@, self.icmpInAddrMasks@, self.icmpInAddrMaskReps@, self.icmpOutMsgs@, self.icmpOutErrors@, self.icmpOutDestUnreachs@, self.icmpOutTimeExcds@, self.icmpOutParmProbs@, self.icmpOutSrcQuenchs@, self.icmpOutRedirects@, self.icmpOutEchos@, self.icmpOutEchoReps@, self.icmpOutTimestamps@, self.icmpOutTimestampReps@, self.icmpOutAddrMasks@, self.icmpOutAddrMaskReps@]
    }

    /// Every leaf of this group and of its tables, in declaration order.
    pub open spec fn leaves(self) -> Seq<Leaf> {
        seq![self.icmpInMsgs@, self.icmpInErrors@, self.icmpInDestUnreachs@, self.icmpInTimeExcds@, self.icmpInParmProbs@, self.icmpInSrcQuenchs@, self.icmpInRedirects@, self.icmpInEchos@, self.icmpInEchoReps@, self.icmpInTimestamps@, self.icmpInTimestampReps@, self.icmpInAddrMasks@, self.icmpInAddrMaskReps@, self.icmpOutMsgs@, self.icmpOutErrors@, self.icmpOutDestUnreachs@, self.icmpOutTimeExcds@, self.icmpOutParmProbs@, self.icmpOutSrcQuenchs@, self.icmpOutRedirects@, self.icmpOutEchos@, self.icmpOutEchoReps@, self.icmpOutTimestamps@, self.icmpOutTimestampReps@, self.icmpOutAddrMasks@, self.icmpOutAddrMaskReps@]
    }

    /// Every identifier in the group is the one the schema declares under `parent`.
    pub open spec fn oids_declared(self, parent: Seq<u16>) -> bool {
        &&& self.oid@ == parent.push(5)
        &&& self.icmpInMsgs@.oid == self.oid@.push(1)
        &&& self.icmpInErrors@.oid == self.oid@.push(2)
        &&& self.icmpInDestUnreachs@.oid == self.oid@.push(3)
        &&& self.icmpInTimeExcds@.oid == self.oid@.push(4)
        &&& self.icmpInParmProbs@.oid == self.oid@.push(5)
        &&& self.icmpInSrcQuenchs@.oid == self.oid@.push(6)
        &&& self.icmpInRedirects@.oid == self.oid@.push(7)
        &&& self.icmpInEchos@.oid == self.oid@.push(8)
        &&& self.icmpInEchoReps@.oid == self.oid@.push(9)
        &&& self.icmpInTimestamps@.oid == self.oid@.push(10)
        &&& self.icmpInTimestampReps@.oid == self.oid@.push(11)
        &&& self.icmpInAddrMasks@.oid == self.oid@.push(12)
        &&& self.icmpInAddrMaskReps@.oid == self.oid@.push(13)
        &&& self.icmpOutMsgs@.oid == self.oid@.push(14)
        &&& self.icmpOutErrors@.oid == self.oid@.push(15)
        &&& self.icmpOutDestUnreachs@.oid == self.oid@.push(16)
        &&& self.icmpOutTimeExcds@.oid == self.oid@.push(17)
        &&& self.icmpOutParmProbs@.oid == self.oid@.push(18)
        &&& self.icmpOutSrcQuenchs@.oid == self.oid@.push(19)
        &&& self.icmpOutRedirects@.oid == self.oid@.push(20)
        &&& self.icmpOutEchos@.oid == self.oid@.push(21)
        &&& self.icmpOutEchoReps@.oid == self.oid@.push(22)
        &&& self.icmpOutTimestamps@.oid == self.oid@.push(23)
        &&& self.icmpOutTimestampReps@.oid == self.oid@.push(24)
        &&& self.icmpOutAddrMasks@.oid == self.oid@.push(25)
        &&& self.icmpOutAddrMaskReps@.oid == self.oid@.push(26)
    }

    /// The group as the schema declares it under `parent`, with no values yet.
    pub open spec fn is_template(self, parent: Seq<u16>) -> bool {
        &&& self.oid@ == parent.push(5)
        &&& self.icmpInMsgs is intu32
        &&& self.icmpInMsgs@.declared("icmpInMsgs"@, self.oid@.push(1), false)
        &&& self.icmpInErrors is intu32
        &&& self.icmpInErrors@.declared("icmpInErrors"@, self.oid@.push(2), false)
        &&& self.icmpInDestUnreachs is intu32
        &&& self.icmpInDestUnreachs@.declared("icmpInDestUnreachs"@, self.oid@.push(3), false)
        &&& self.icmpInTimeExcds is intu32
        &&& self.icmpInTimeExcds@.declared("icmpInTimeExcds"@, self.oid@.push(4), false)
        &&& self.icmpInParmProbs is intu32
        &&& self.icmpInParmProbs@.declared("icmpInParmProbs"@, self.oid@.push(5), false)
        &&& self.icmpInSrcQuenchs is intu32
        &&& self.icmpInSrcQuenchs@.declared("icmpInSrcQuenchs"@, self.oid@.push(6), false)
        &&& self.icmpInRedirects is intu32
        &&& self.icmpInRedirects@.declared("icmpInRedirects"@, self.oid@.push(7), false)
        &&& self.icmpInEchos is intu32
        &&& self.icmpInEchos@.declared("icmpInEchos"@, self.oid@.push(8), false)
        &&& self.icmpInEchoReps is intu32
        &&& self.icmpInEchoReps@.declared("icmpInEchoReps"@, self.oid@.push(9), false)
        &&& self.icmpInTimestamps is intu32
        &&& self.icmpInTimestamps@.declared("icmpInTimestamps"@, self.oid@.push(10), false)
        &&& self.icmpInTimestampReps is intu32
        &&& self.icmpInTimestampReps@.declared("icmpInTimestampReps"@, self.oid@.push(11), false)
        &&& self.icmpInAddrMasks is intu32
        &&& self.icmpInAddrMasks@.declared("icmpInAddrMasks"@, self.oid@.push(12), false)
        &&& self.icmpInAddrMaskReps is intu32
        &&& self.icmpInAddrMaskReps@.declared("icmpInAddrMaskReps"@, self.oid@.push(13), false)
        &&& self.icmpOutMsgs is intu32
        &&& self.icmpOutMsgs@.declared("icmpOutMsgs"@, self.oid@.push(14), false)
        &&& self.icmpOutErrors is intu32
        &&& self.icmpOutErrors@.declared("icmpOutErrors"@, self.oid@.push(15), false)
        &&& self.icmpOutDestUnreachs is intu32
        &&& self.icmpOutDestUnreachs@.declared("icmpOutDestUnreachs"@, self.oid@.push(16), false)
        &&& self.icmpOutTimeExcds is intu32
        &&& self.icmpOutTimeExcds@.declared("icmpOutTimeExcds"@, self.oid@.push(17), false)
        &&& self.icmpOutParmProbs is intu32
        &&& self.icmpOutParmProbs@.declared("icmpOutParmProbs"@, self.oid@.push(18), false)
        &&& self.icmpOutSrcQuenchs is intu32
        &&& self.icmpOutSrcQuenchs@.declared("icmpOutSrcQuenchs"@, self.oid@.push(19), false)
        &&& self.icmpOutRedirects is intu32
        &&& self.icmpOutRedirects@.declared("icmpOutRedirects"@, self.oid@.push(20), false)
        &&& self.icmpOutEchos is intu32
        &&& self.icmpOutEchos@.declared("icmpOutEchos"@, self.oid@.push(21), false)
        &&& self.icmpOutEchoReps is intu32
        &&& self.icmpOutEchoReps@.declared("icmpOutEchoReps"@, self.oid@.push(22), false)
        &&& self.icmpOutTimestamps is intu32
        &&& self.icmpOutTimestamps@.declared("icmpOutTimestamps"@, self.oid@.push(23), false)
        &&& self.icmpOutTimestampReps is intu32
        &&& self.icmpOutTimestampReps@.declared("icmpOutTimestampReps"@, self.oid@.push(24), false)
        &&& self.icmpOutAddrMasks is intu32
        &&& self.icmpOutAddrMasks@.declared("icmpOutAddrMasks"@, self.oid@.push(25), false)
        &&& self.icmpOutAddrMaskReps is intu32
        &&& self.icmpOutAddrMaskReps@.declared("icmpOutAddrMaskReps"@, self.oid@.push(26), false)
    }

    /// The group as the schema declares it under `parent`.
    pub fn declare(parent: &Vec<u16>) -> (r: Self)
        ensures
            r.is_template(parent@),
    {
        let mut oid = copy_vec(parent);
        oid.push(5);
        let icmpInMsgs = MibValue::declare_intu32("icmpInMsgs", &oid, 1, false);
        let icmpInErrors = MibValue::declare_intu32("icmpInErrors", &oid, 2, false);
        let icmpInDestUnreachs = MibValue::declare_intu32("icmpInDestUnreachs", &oid, 3, false);
        let icmpInTimeExcds = MibValue::declare_intu32("icmpInTimeExcds", &oid, 4, false);
        let icmpInParmProbs = MibValue::declare_intu32("icmpInParmProbs", &oid, 5, false);
        let icmpInSrcQuenchs = MibValue::declare_intu32("icmpInSrcQuenchs", &oid, 6, false);
        let icmpInRedirects = MibValue::declare_intu32("icmpInRedirects", &oid, 7, false);
        let icmpInEchos = MibValue::declare_intu32("icmpInEchos", &oid, 8, false);
        let icmpInEchoReps = MibValue::declare_intu32("icmpInEchoReps", &oid, 9, false);
        let icmpInTimestamps = MibValue::declare_intu32("icmpInTimestamps", &oid, 10, false);
        let icmpInTimestampReps = MibValue::declare_intu32("icmpInTimestampReps", &oid, 11, false);
        let icmpInAddrMasks = MibValue::declare_intu32("icmpInAddrMasks", &oid, 12, false);
        let icmpInAddrMaskReps = MibValue::declare_intu32("icmpInAddrMaskReps", &oid, 13, false);
        let icmpOutMsgs = MibValue::declare_intu32("icmpOutMsgs", &oid, 14, false);
        let icmpOutErrors = MibValue::declare_intu32("icmpOutErrors", &oid, 15, false);
        let icmpOutDestUnreachs = MibValue::declare_intu32("icmpOutDestUnreachs", &oid, 16, false);
        let icmpOutTimeExcds = MibValue::declare_intu32("icmpOutTimeExcds", &oid, 17, false);
        let icmpOutParmProbs = MibValue::declare_intu32("icmpOutParmProbs", &oid, 18, false);
        let icmpOutSrcQuenchs = MibValue::declare_intu32("icmpOutSrcQuenchs", &oid, 19, false);
        let icmpOutRedirects = MibValue::declare_intu32("icmpOutRedirects", &oid, 20, false);
        let icmpOutEchos = MibValue::declare_intu32("icmpOutEchos", &oid, 21, false);
        let icmpOutEchoReps = MibValue::declare_intu32("icmpOutEchoReps", &oid, 22, false);
        let icmpOutTimestamps = MibValue::declare_intu32("icmpOutTimestamps", &oid, 23, false);
        let icmpOutTimestampReps = MibValue::declare_intu32("icmpOutTimestampReps", &oid, 24, false);
        let icmpOutAddrMasks = MibValue::declare_intu32("icmpOutAddrMasks", &oid, 25, false);
        let icmpOutAddrMaskReps = MibValue::declare_intu32("icmpOutAddrMaskReps", &oid, 26, false);
        Icmp { oid, icmpInMsgs, icmpInErrors, icmpInDestUnreachs, icmpInTimeExcds, icmpInParmProbs, icmpInSrcQuenchs, icmpInRedirects, icmpInEchos, icmpInEchoReps, icmpInTimestamps, icmpInTimestampReps, icmpInAddrMasks, icmpInAddrMaskReps, icmpOutMsgs, icmpOutErrors, icmpOutDestUnreachs, icmpOutTimeExcds, icmpOutParmProbs, icmpOutSrcQuenchs, icmpOutRedirects, icmpOutEchos, icmpOutEchoReps, icmpOutTimestamps, icmpOutTimestampReps, icmpOutAddrMasks, icmpOutAddrMaskReps }
    }

}

impl Tcp {
    /// The leaves that belong to this group directly, in declaration order.
    pub open spec fn own_leaves(self) -> Seq<Leaf> {
        seq![self.tcpRtoAlgorithm@, self.tcpRtoMin@, self.tcpRtoMax@, self.tcpMaxConn@, self.tcpActiveOpens@, self.tcpPassiveOpens@, self.tcpAttemptFails@, self.tcpEstabResets@, self.tcpCurrEstab@, self.tcpInSegs@, self.tcpOutSegs@, self.tcpRetransSegs@, self.tcpInErrs@, self.tcpOutRsts@]
    }

    /// Every leaf of this group and of its tables, in declaration order.
    pub open spec fn leaves(self) -> Seq<Leaf> {
        seq![self.tcpRtoAlgorithm@, self.tcpRtoMin@, self.tcpRtoMax@, self.tcpMaxConn@, self.tcpActiveOpens@, self.tcpPassiveOpens@, self.tcpAttemptFails@, self.tcpEstabResets@, self.tcpCurrEstab@, self.tcpInSegs@, self.tcpOutSegs@, self.tcpRetransSegs@] + self.tcpConnTable.leaves() + seq![self.tcpInErrs@, self.tcpOutRsts@]
    }

    /// Every identifier in the group is the one the schema declares under `parent`.
    pub open spec fn oids_declared(self, parent: Seq<u16>) -> bool {
        &&& self.oid@ == parent.push(6)
        &&& self.tcpRtoAlgorithm@.oid == self.oid@.push(1)
        &&& self.tcpRtoMin@.oid == self.oid@.push(2)
        &&& self.tcpRtoMax@.oid == self.oid@.push(3)
        &&& self.tcpMaxConn@.oid == self.oid@.push(4)
        &&& self.tcpActiveOpens@.oid == self.oid@.push(5)
        &&& self.tcpPassiveOpens@.oid == self.oid@.push(6)
        &&& self.tcpAttemptFails@.oid == self.oid@.push(7)
        &&& self.tcpEstabResets@.oid == self.oid@.push(8)
        &&& self.tcpCurrEstab@.oid == self.oid@.push(9)
        &&& self.tcpInSegs@.oid == self.oid@.push(10)
        &&& self.tcpOutSegs@.oid == self.oid@.push(11)
        &&& self.tcpRetransSegs@.oid == self.oid@.push(12)
        &&& self.tcpConnTable.oids_declared(self.oid@)
        &&& self.tcpInErrs@.oid == self.oid@.push(14)
        &&& self.tcpOutRsts@.oid == self.oid@.push(15)
    }

    /// The group as the schema declares it under `parent`, with no values yet.
    pub open spec fn is_template(self, parent: Seq<u16>) -> bool {
        &&& self.oid@ == parent.push(6)
        &&& self.tcpRtoAlgorithm is inti32
        &&& self.tcpRtoAlgorithm@.declared("tcpRtoAlgorithm"@, self.oid@.push(1), false)
        &&& self.tcpRtoMin is inti32
        &&& self.tcpRtoMin@.declared("tcpRtoMin"@, self.oid@.push(2), false)
        &&& self.tcpRtoMax is inti32
        &&& self.tcpRtoMax@.declared("tcpRtoMax"@, self.oid@.push(3), false)
        &&& self.tcpMaxConn is inti32
        &&& self.tcpMaxConn@.declared("tcpMaxConn"@, self.oid@.push(4), false)
        &&& self.tcpActiveOpens is intu32
        &&& self.tcpActiveOpens@.declared("tcpActiveOpens"@, self.oid@.push(5), false)
        &&& self.tcpPassiveOpens is intu32
        &&& self.tcpPassiveOpens@.declared("tcpPassiveOpens"@, self.oid@.push(6), false)
        &&& self.tcpAttemptFails is intu32
        &&& self.tcpAttemptFails@.declared("tcpAttemptFails"@, self.oid@.push(7), false)
        &&& self.tcpEstabResets is intu32
        &&& self.tcpEstabResets@.declared("tcpEstabResets"@, self.oid@.push(8), false)
        &&& self.tcpCurrEstab is intu32
        &&& self.tcpCurrEstab@.declared("tcpCurrEstab"@, self.oid@.push(9), false)
        &&& self.tcpInSegs is intu32
        &&& self.tcpInSegs@.declared("tcpInSegs"@, self.oid@.push(10), false)
        &&& self.tcpOutSegs is intu32
        &&& self.tcpOutSegs@.declared("tcpOutSegs"@, self.oid@.push(11), false)
        &&& self.tcpRetransSegs is intu32
        &&& self.tcpRetransSegs@.declared("tcpRetransSegs"@, self.oid@.push(12), false)
        &&& self.tcpConnTable.is_template(self.oid@)
        &&& self.tcpInErrs is intu32
        &&& self.tcpInErrs@.declared("tcpInErrs"@, self.oid@.push(14), false)
        &&& self.tcpOutRsts is intu32
        &&& self.tcpOutRsts@.declared("tcpOutRsts"@, self.oid@.push(15), false)
    }

    /// The group as the schema declares it under `parent`.
    pub fn declare(parent: &Vec<u16>) -> (r: Self)
        ensures
            r.is_template(parent@),
    {
        let mut oid = copy_vec(parent);
        oid.push(6);
        let tcpRtoAlgorithm = MibValue::declare_inti32("tcpRtoAlgorithm", &oid, 1, false);
        let tcpRtoMin = MibValue::declare_inti32("tcpRtoMin", &oid, 2, false);
        let tcpRtoMax = MibValue::declare_inti32("tcpRtoMax", &oid, 3, false);
        let tcpMaxConn = MibValue::declare_inti32("tcpMaxConn", &oid, 4, false);
        let tcpActiveOpens = MibValue::declare_intu32("tcpActiveOpens", &oid, 5, false);
        let tcpPassiveOpens = MibValue::declare_intu32("tcpPassiveOpens", &oid, 6, false);
        let tcpAttemptFails = MibValue::declare_intu32("tcpAttemptFails", &oid, 7, false);
        let tcpEstabResets = MibValue::declare_intu32("tcpEstabResets", &oid, 8, false);
        let tcpCurrEstab = MibValue::declare_intu32("tcpCurrEstab", &oid, 9, false);
        let tcpInSegs = MibValue::declare_intu32("tcpInSegs", &oid, 10, false);
        let tcpOutSegs = MibValue::declare_intu32("tcpOutSegs", &oid, 11, false);
        let tcpRetransSegs = MibValue::declare_intu32("tcpRetransSegs", &oid, 12, false);
        let tcpConnTable = TcpConnTable::declare(&oid);
        let tcpInErrs = MibValue::declare_intu32("tcpInErrs", &oid, 14, false);
        let tcpOutRsts = MibValue::declare_intu32("tcpOutRsts", &oid, 15, false);
        Tcp { oid, tcpRtoAlgorithm, tcpRtoMin, tcpRtoMax, tcpMaxConn, tcpActiveOpens, tcpPassiveOpens, tcpAttemptFails, tcpEstabResets, tcpCurrEstab, tcpInSegs, tcpOutSegs, tcpRetransSegs, tcpConnTable, tcpInErrs, tcpOutRsts }
    }

}

impl TcpConnTable {
    /// The leaves that belong to this group directly, in declaration order.
    pub open spec fn own_leaves(self) -> Seq<Leaf> {
        seq![self.tcpConnState@, self.tcpConnLocalAddress@, self.tcpConnLocalPort@, self.tcpConnRemAddress@, self.tcpConnRemPort@]
    }

    /// Every leaf of this group and of its tables, in declaration order.
    pub open spec fn leaves(self) -> Seq<Leaf> {
        seq![self.tcpConnState@, self.tcpConnLocalAddress@, self.tcpConnLocalPort@, self.tcpConnRemAddress@, self.tcpConnRemPort@]
    }

    /// Every identifier in the group is the one the schema declares under `parent`.
    pub open spec fn oids_declared(self, parent: Seq<u16>) -> bool {
        &&& self.oid@ == parent.push(13)
        &&& self.tcpConnState@.oid == self.oid@.push(1).push(1)
        &&& self.tcpConnLocalAddress@.oid == self.oid@.push(1).push(2)
        &&& self.tcpConnLocalPort@.oid == self.oid@.push(1).push(3)
        &&& self.tcpConnRemAddress@.oid == self.oid@.push(1).push(4)
        &&& self.tcpConnRemPort@.oid == self.oid@.push(1).push(5)
    }

    /// The group as the schema declares it under `parent`, with no values yet.
    pub open spec fn is_template(self, parent: Seq<u16>) -> bool {
        &&& self.oid@ == parent.push(13)
        &&& self.tcpConnState is inti32
        &&& self.tcpConnState@.declared("tcpConnState"@, self.oid@.push(1).push(1), true)
        &&& self.tcpConnLocalAddress is ipv4
        &&& self.tcpConnLocalAddress@.declared("tcpConnLocalAddress"@, self.oid@.push(1).push(2), false)
        &&& self.tcpConnLocalPort is inti32
        &&& self.tcpConnLocalPort@.declared("tcpConnLocalPort"@, self.oid@.push(1).push(3), false)
        &&& self.tcpConnRemAddress is ipv4
        &&& self.tcpConnRemAddress@.declared("tcpConnRemAddress"@, self.oid@.push(1).push(4), false)
        &&& self.tcpConnRemPort is inti32
        &&& self.tcpConnRemPort@.declared("tcpConnRemPort"@, self.oid@.push(1).push(5), false)
    }

    /// The group as the schema declares it under `parent`.
    pub fn declare(parent: &Vec<u16>) -> (r: Self)
        ensures
            r.is_template(parent@),
    {
        let mut oid = copy_vec(parent);
        oid.push(13);
        let mut entry = copy_vec(&oid);
        entry.push(1);
        let tcpConnState = MibValue::declare_inti32("tcpConnState", &entry, 1, true);
        let tcpConnLocalAddress = MibValue::declare_ipv4("tcpConnLocalAddress", &entry, 2, false);
        let tcpConnLocalPort = MibValue::declare_inti32("tcpConnLocalPort", &entry, 3, false);
        let tcpConnRemAddress = MibValue::declare_ipv4("tcpConnRemAddress", &entry, 4, false);
        let tcpConnRemPort = MibValue::declare_inti32("tcpConnRemPort", &entry, 5, false);
        TcpConnTable { oid, tcpConnState, tcpConnLocalAddress, tcpConnLocalPort, tcpConnRemAddress, tcpConnRemPort }
    }

}

impl Udp {
    /// The leaves that belong to this group directly, in declaration order.
    pub open spec fn own_leaves(self) -> Seq<Leaf> {
        seq![self.udpInDatagrams@, self.udpNoPorts@, self.udpInErrors@, self.udpOutDatagrams@]
    }

    /// Every leaf of this group and of its tables, in declaration order.
    pub open spec fn leaves(self) -> Seq<Leaf> {
        seq![self.udpInDatagrams@, self.udpNoPorts@, self.udpInErrors@, self.udpOutDatagrams@] + self.udpTable.leaves()
    }

    /// Every identifier in the group is the one the schema declares under `parent`.
    pub open spec fn oids_declared(self, parent: Seq<u16>) -> bool {
        &&& self.oid@ == parent.push(7)
        &&& self.udpInDatagrams@.oid == self.oid@.push(1)
        &&& self.udpNoPorts@.oid == self.oid@.push(2)
        &&& self.udpInErrors@.oid == self.oid@.push(3)
        &&& self.udpOutDatagrams@.oid == self.oid@.push(4)
        &&& self.udpTable.oids_declared(self.oid@)
    }

    /// The group as the schema declares it under `parent`, with no values yet.
    pub open spec fn is_template(self, parent: Seq<u16>) -> bool {
        &&& self.oid@ == parent.push(7)
        &&& self.udpInDatagrams is intu32
        &&& self.udpInDatagrams@.declared("udpInDatagrams"@, self.oid@.push(1), false)
        &&& self.udpNoPorts is intu32
        &&& self.udpNoPorts@.declared("udpNoPorts"@, self.oid@.push(2), false)
        &&& self.udpInErrors is intu32
        &&& self.udpInErrors@.declared("udpInErrors"@, self.oid@.push(3), false)
        &&& self.udpOutDatagrams is intu32
        &&& self.udpOutDatagrams@.declared("udpOutDatagrams"@, self.oid@.push(4), false)
        &&& self.udpTable.is_template(self.oid@)
    }

    /// The group as the schema declares it under `parent`.
    pub fn declare(parent: &Vec<u16>) -> (r: Self)
        ensures
            r.is_template(parent@),
    {
        let mut oid = copy_vec(parent);
        oid.push(7);
        let udpInDatagrams = MibValue::declare_intu32("udpInDatagrams", &oid, 1, false);
        let udpNoPorts = MibValue::declare_intu32("udpNoPorts", &oid, 2, false);
        let udpInErrors = MibValue::declare_intu32("udpInErrors", &oid, 3, false);
        let udpOutDatagrams = MibValue::declare_intu32("udpOutDatagrams", &oid, 4, false);
        let udpTable = UdpTable::declare(&oid);
        Udp { oid, udpInDatagrams, udpNoPorts, udpInErrors, udpOutDatagrams, udpTable }
    }

}

impl UdpTable {
    /// The leaves that belong to this group directly, in declaration order.
    pub open spec fn own_leaves(self) -> Seq<Leaf> {
        seq![self.udpLocalAddress@, self.udpLocalPort@]
    }

    /// Every leaf of this group and of its tables, in declaration order.
    pub open spec fn leaves(self) -> Seq<Leaf> {
        seq![self.udpLocalAddress@, self.udpLocalPort@]
    }

    /// Every identifier in the group is the one the schema declares under `parent`.
    pub open spec fn oids_declared(self, parent: Seq<u16>) -> bool {
        &&& self.oid@ == parent.push(5)
        &&& self.udpLocalAddress@.oid == self.oid@.push(1).push(1)
        &&& self.udpLocalPort@.oid == self.oid@.push(1).push(2)
    }

    /// The group as the schema declares it under `parent`, with no values yet.
    pub open spec fn is_template(self, parent: Seq<u16>) -> bool {
        &&& self.oid@ == parent.push(5)
        &&& self.udpLocalAddress is ipv4
        &&& self.udpLocalAddress@.declared("udpLocalAddress"@, self.oid@.push(1).push(1), false)
        &&& self.udpLocalPort is inti32
        &&& self.udpLocalPort@.declared("udpLocalPort"@, self.oid@.push(1).push(2), false)
    }

    /// The group as the schema declares it under `parent`.
    pub fn declare(parent: &Vec<u16>) -> (r: Self)
        ensures
            r.is_template(parent@),
    {
        let mut oid = copy_vec(parent);
        oid.push(5);
        let mut entry = copy_vec(&oid);
        entry.push(1);
        let udpLocalAddress = MibValue::declare_ipv4("udpLocalAddress", &entry, 1, false);
        let udpLocalPort = MibValue::declare_inti32("udpLocalPort", &entry, 2, false);
        UdpTable { oid, udpLocalAddress, udpLocalPort }
    }

}

impl Egp {
    /// The leaves that belong to this group directly, in declaration order.
    pub open spec fn own_leaves(self) -> Seq<Leaf> {
        seq![self.egpInMsgs@, self.egpInErrors@, self.egpOutMsgs@, self.egpOutErrors@, self.egpAs@]
    }

    /// Every leaf of this group and of its tables, in declaration order.
    pub open spec fn leaves(self) -> Seq<Leaf> {
        seq![self.egpInMsgs@, self.egpInErrors@, self.egpOutMsgs@, self.egpOutErrors@] + self.egpNeighTable.leaves() + seq![self.egpAs@]
    }

    /// Every identifier in the group is the one the schema declares under `parent`.
    pub open spec fn oids_declared(self, parent: Seq<u16>) -> bool {
        &&& self.oid@ == parent.push(8)
        &&& self.egpInMsgs@.oid == self.oid@.push(1)
        &&& self.egpInErrors@.oid == self.oid@.push(2)
        &&& self.egpOutMsgs@.oid == self.oid@.push(3)
        &&& self.egpOutErrors@.oid == self.oid@.push(4)
        &&& self.egpNeighTable.oids_declared(self.oid@)
        &&& self.egpAs@.oid == self.oid@.push(6)
    }

    /// The group as the schema declares it under `parent`, with no values yet.
    pub open spec fn is_template(self, parent: Seq<u16>) -> bool {
        &&& self.oid@ == parent.push(8)
        &&& self.egpInMsgs is intu32
        &&& self.egpInMsgs@.declared("egpInMsgs"@, self.oid@.push(1), false)
        &&& self.egpInErrors is intu32
        &&& self.egpInErrors@.declared("egpInErrors"@, self.oid@.push(2), false)
        &&& self.egpOutMsgs is intu32
        &&& self.egpOutMsgs@.declared("egpOutMsgs"@, self.oid@.push(3), false)
        &&& self.egpOutErrors is intu32
        &&& self.egpOutErrors@.declared("egpOutErrors"@, self.oid@.push(4), false)
        &&& self.egpNeighTable.is_template(self.oid@)
        &&& self.egpAs is inti32
        &&& self.egpAs@.declared("egpAs"@, self.oid@.push(6), false)
    }

    /// The group as the schema declares it under `parent`.
    pub fn declare(parent: &Vec<u16>) -> (r: Self)
        ensures
            r.is_template(parent@),
    {
        let mut oid = copy_vec(parent);
        oid.push(8);
        let egpInMsgs = MibValue::declare_intu32("egpInMsgs", &oid, 1, false);
        let egpInErrors = MibValue::declare_intu32("egpInErrors", &oid, 2, false);
        let egpOutMsgs = MibValue::declare_intu32("egpOutMsgs", &oid, 3, false);
        let egpOutErrors = MibValue::declare_intu32("egpOutErrors", &oid, 4, false);
        let egpNeighTable = EgpNeighTable::declare(&oid);
        let egpAs = MibValue::declare_inti32("egpAs", &oid, 6, false);
        Egp { oid, egpInMsgs, egpInErrors, egpOutMsgs, egpOutErrors, egpNeighTable, egpAs }
    }

}

impl EgpNeighTable {
    /// The leaves that belong to this group directly, in declaration order.
    pub open spec fn own_leaves(self) -> Seq<Leaf> {
        seq![self.egpNeighState@, self.egpNeighAddr@, self.egpNeighAs@, self.egpNeighInMsgs@, self.egpNeighInErrs@, self.egpNeighOutMsgs@, self.egpNeighOutErrs@, self.egpNeighInErrMsgs@, self.egpNeighOutErrMsgs@, self.egpNeighStateUps@, self.egpNeighStateDowns@, self.egpNeighIntervalHello@, self.egpNeighIntervalPoll@, self.egpNeighMode@, self.egpNeighEventTrigger@]
    }

    /// Every leaf of this group and of its tables, in declaration order.
    pub open spec fn leaves(self) -> Seq<Leaf> {
        seq![self.egpNeighState@, self.egpNeighAddr@, self.egpNeighAs@, self.egpNeighInMsgs@, self.egpNeighInErrs@, self.egpNeighOutMsgs@, self.egpNeighOutErrs@, self.egpNeighInErrMsgs@, self.egpNeighOutErrMsgs@, self.egpNeighStateUps@, self.egpNeighStateDowns@, self.egpNeighIntervalHello@, self.egpNeighIntervalPoll@, self.egpNeighMode@, self.egpNeighEventTrigger@]
    }

    /// Every identifier in the group is the one the schema declares under `parent`.
    pub open spec fn oids_declared(self, parent: Seq<u16>) -> bool {
        &&& self.oid@ == parent.push(5)
        &&& self.egpNeighState@.oid == self.oid@.push(1).push(1)
        &&& self.egpNeighAddr@.oid == self.oid@.push(1).push(2)
        &&& self.egpNeighAs@.oid == self.oid@.push(1).push(3)
        &&& self.egpNeighInMsgs@.oid == self.oid@.push(1).push(4)
        &&& self.egpNeighInErrs@.oid == self.oid@.push(1).push(5)
        &&& self.egpNeighOutMsgs@.oid == self.oid@.push(1).push(6)
        &&& self.egpNeighOutErrs@.oid == self.oid@.push(1).push(7)
        &&& self.egpNeighInErrMsgs@.oid == self.oid@.push(1).push(8)
        &&& self.egpNeighOutErrMsgs@.oid == self.oid@.push(1).push(9)
        &&& self.egpNeighStateUps@.oid == self.oid@.push(1).push(10)
        &&& self.egpNeighStateDowns@.oid == self.oid@.push(1).push(11)
        &&& self.egpNeighIntervalHello@.oid == self.oid@.push(1).push(12)
        &&& self.egpNeighIntervalPoll@.oid == self.oid@.push(1).push(13)
        &&& self.egpNeighMode@.oid == self.oid@.push(1).push(14)
        &&& self.egpNeighEventTrigger@.oid == self.oid@.push(1).push(15)
    }

    /// The group as the schema declares it under `parent`, with no values yet.
    pub open spec fn is_template(self, parent: Seq<u16>) -> bool {
        &&& self.oid@ == parent.push(5)
        &&& self.egpNeighState is inti32
        &&& self.egpNeighState@.declared("egpNeighState"@, self.oid@.push(1).push(1), false)
        &&& self.egpNeighAddr is ipv4
        &&& self.egpNeighAddr@.declared("egpNeighAddr"@, self.oid@.push(1).push(2), false)
        &&& self.egpNeighAs is inti32
        &&& self.egpNeighAs@.declared("egpNeighAs"@, self.oid@.push(1).push(3), false)
        &&& self.egpNeighInMsgs is intu32
        &&& self.egpNeighInMsgs@.declared("egpNeighInMsgs"@, self.oid@.push(1).push(4), false)
        &&& self.egpNeighInErrs is intu32
        &&& self.egpNeighInErrs@.declared("egpNeighInErrs"@, self.oid@.push(1).push(5), false)
        &&& self.egpNeighOutMsgs is intu32
        &&& self.egpNeighOutMsgs@.declared("egpNeighOutMsgs"@, self.oid@.push(1).push(6), false)
        &&& self.egpNeighOutErrs is intu32
        &&& self.egpNeighOutErrs@.declared("egpNeighOutErrs"@, self.oid@.push(1).push(7), false)
        &&& self.egpNeighInErrMsgs is intu32
        &&& self.egpNeighInErrMsgs@.declared("egpNeighInErrMsgs"@, self.oid@.push(1).push(8), false)
        &&& self.egpNeighOutErrMsgs is intu32
        &&& self.egpNeighOutErrMsgs@.declared("egpNeighOutErrMsgs"@, self.oid@.push(1).push(9), false)
        &&& self.egpNeighStateUps is intu32
        &&& self.egpNeighStateUps@.declared("egpNeighStateUps"@, self.oid@.push(1).push(10), false)
        &&& self.egpNeighStateDowns is intu32
        &&& self.egpNeighStateDowns@.declared("egpNeighStateDowns"@, self.oid@.push(1).push(11), false)
        &&& self.egpNeighIntervalHello is inti32
        &&& self.egpNeighIntervalHello@.declared("egpNeighIntervalHello"@, self.oid@.push(1).push(12), false)
        &&& self.egpNeighIntervalPoll is inti32
        &&& self.egpNeighIntervalPoll@.declared("egpNeighIntervalPoll"@, self.oid@.push(1).push(13), false)
        &&& self.egpNeighMode is inti32
        &&& self.egpNeighMode@.declared("egpNeighMode"@, self.oid@.push(1).push(14), false)
        &&& self.egpNeighEventTrigger is inti32
        &&& self.egpNeighEventTrigger@.declared("egpNeighEventTrigger"@, self.oid@.push(1).push(15), true)
    }

    /// The group as the schema declares it under `parent`.
    pub fn declare(parent: &Vec<u16>) -> (r: Self)
        ensures
            r.is_template(parent@),
    {
        let mut oid = copy_vec(parent);
        oid.push(5);
        let mut entry = copy_vec(&oid);
        entry.push(1);
        let egpNeighState = MibValue::declare_inti32("egpNeighState", &entry, 1, false);
        let egpNeighAddr = MibValue::declare_ipv4("egpNeighAddr", &entry, 2, false);
        let egpNeighAs = MibValue::declare_inti32("egpNeighAs", &entry, 3, false);
        let egpNeighInMsgs = MibValue::declare_intu32("egpNeighInMsgs", &entry, 4, false);
        let egpNeighInErrs = MibValue::declare_intu32("egpNeighInErrs", &entry, 5, false);
        let egpNeighOutMsgs = MibValue::declare_intu32("egpNeighOutMsgs", &entry, 6, false);
        let egpNeighOutErrs = MibValue::declare_intu32("egpNeighOutErrs", &entry, 7, false);
        let egpNeighInErrMsgs = MibValue::declare_intu32("egpNeighInErrMsgs", &entry, 8, false);
        let egpNeighOutErrMsgs = MibValue::declare_intu32("egpNeighOutErrMsgs", &entry, 9, false);
        let egpNeighStateUps = MibValue::declare_intu32("egpNeighStateUps", &entry, 10, false);
        let egpNeighStateDowns = MibValue::declare_intu32("egpNeighStateDowns", &entry, 11, false);
        let egpNeighIntervalHello = MibValue::declare_inti32("egpNeighIntervalHello", &entry, 12, false);
        let egpNeighIntervalPoll = MibValue::declare_inti32("egpNeighIntervalPoll", &entry, 13, false);
        let egpNeighMode = MibValue::declare_inti32("egpNeighMode", &entry, 14, false);
        let egpNeighEventTrigger = MibValue::declare_inti32("egpNeighEventTrigger", &entry, 15, true);
        EgpNeighTable { oid, egpNeighState, egpNeighAddr, egpNeighAs, egpNeighInMsgs, egpNeighInErrs, egpNeighOutMsgs, egpNeighOutErrs, egpNeighInErrMsgs, egpNeighOutErrMsgs, egpNeighStateUps, egpNeighStateDowns, egpNeighIntervalHello, egpNeighIntervalPoll, egpNeighMode, egpNeighEventTrigger }
    }

}

impl Snmp {
    /// The leaves that belong to this group directly, in declaration order.
    pub open spec fn own_leaves(self) -> Seq<Leaf> {
        seq![self.snmpInPkts@, self.snmpOutPkts@, self.snmpInBadVersions@, self.snmpInBadCommunityNames@, self.snmpInBadCommunityUses@, self.snmpInASNParseErrs@, self.snmpInTooBigs@, self.snmpInNoSuchNames@, self.snmpInBadValues@, self.snmpInReadOnlys@, self.snmpInGenErrs@, self.snmpInTotalReqVars@, self.snmpInTotalSetVars@, self.snmpInGetRequests@, self.snmpInGetNexts@, self.snmpInSetRequests@, self.snmpInGetResponses@, self.snmpInTraps@, self.snmpOutTooBigs@, self.snmpOutNoSuchNames@, self.snmpOutBadValues@, self.snmpOutGenErrs@, self.snmpOutGetRequests@, self.snmpOutGetNexts@, self.snmpOutSetRequests@, self.snmpOutGetResponses@, self.snmpOutTraps@, self.snmpEnableAuthenTraps@]
    }

    /// Every leaf of this group and of its tables, in declaration order.
    pub open spec fn leaves(self) -> Seq<Leaf> {
        seq![self.snmpInPkts@, self.snmpOutPkts@, self.snmpInBadVersions@, self.snmpInBadCommunityNames@, self.snmpInBadCommunityUses@, self.snmpInASNParseErrs@, self.snmpInTooBigs@, self.snmpInNoSuchNames@, self.snmpInBadValues@, self.snmpInReadOnlys@, self.snmpInGenErrs@, self.snmpInTotalReqVars@, self.snmpInTotalSetVars@, self.snmpInGetRequests@, self.snmpInGetNexts@, self.snmpInSetRequests@, self.snmpInGetResponses@, self.snmpInTraps@, self.snmpOutTooBigs@, self.snmpOutNoSuchNames@, self.snmpOutBadValues@, self.snmpOutGenErrs@, self.snmpOutGetRequests@, self.snmpOutGetNexts@, self.snmpOutSetRequests@, self.snmpOutGetResponses@, self.snmpOutTraps@, self.snmpEnableAuthenTraps@]
    }

    /// Every identifier in the group is the one the schema declares under `parent`.
    pub open spec fn oids_declared(self, parent: Seq<u16>) -> bool {
        &&& self.oid@ == parent.push(11)
        &&& self.snmpInPkts@.oid == self.oid@.push(1)
        &&& self.snmpOutPkts@.oid == self.oid@.push(2)
        &&& self.snmpInBadVersions@.oid == self.oid@.push(3)
        &&& self.snmpInBadCommunityNames@.oid == self.oid@.push(4)
        &&& self.snmpInBadCommunityUses@.oid == self.oid@.push(5)
        &&& self.snmpInASNParseErrs@.oid == self.oid@.push(6)
        &&& self.snmpInTooBigs@.oid == self.oid@.push(8)
        &&& self.snmpInNoSuchNames@.oid == self.oid@.push(9)
        &&& self.snmpInBadValues@.oid == self.oid@.push(10)
        &&& self.snmpInReadOnlys@.oid == self.oid@.push(11)
        &&& self.snmpInGenErrs@.oid == self.oid@.push(12)
        &&& self.snmpInTotalReqVars@.oid == self.oid@.push(13)
        &&& self.snmpInTotalSetVars@.oid == self.oid@.push(14)
        &&& self.snmpInGetRequests@.oid == self.oid@.push(15)
        &&& self.snmpInGetNexts@.oid == self.oid@.push(16)
        &&& self.snmpInSetRequests@.oid == self.oid@.push(17)
        &&& self.snmpInGetResponses@.oid == self.oid@.push(18)
        &&& self.snmpInTraps@.oid == self.oid@.push(19)
        &&& self.snmpOutTooBigs@.oid == self.oid@.push(20)
        &&& self.snmpOutNoSuchNames@.oid == self.oid@.push(21)
        &&& self.snmpOutBadValues@.oid == self.oid@.push(22)
        &&& self.snmpOutGenErrs@.oid == self.oid@.push(24)
        &&& self.snmpOutGetRequests@.oid == self.oid@.push(25)
        &&& self.snmpOutGetNexts@.oid == self.oid@.push(26)
        &&& self.snmpOutSetRequests@.oid == self.oid@.push(27)
        &&& self.snmpOutGetResponses@.oid == self.oid@.push(28)
        &&& self.snmpOutTraps@.oid == self.oid@.push(29)
        &&& self.snmpEnableAuthenTraps@.oid == self.oid@.push(30)
    }

    /// The group as the schema declares it under `parent`, with no values yet.
    pub open spec fn is_template(self, parent: Seq<u16>) -> bool {
        &&& self.oid@ == parent.push(11)
        &&& self.snmpInPkts is intu32
        &&& self.snmpInPkts@.declared("snmpInPkts"@, self.oid@.push(1), false)
        &&& self.snmpOutPkts is intu32
        &&& self.snmpOutPkts@.declared("snmpOutPkts"@, self.oid@.push(2), false)
        &&& self.snmpInBadVersions is intu32
        &&& self.snmpInBadVersions@.declared("snmpInBadVersions"@, self.oid@.push(3), false)
        &&& self.snmpInBadCommunityNames is intu32
        &&& self.snmpInBadCommunityNames@.declared("snmpInBadCommunityNames"@, self.oid@.push(4), false)
        &&& self.snmpInBadCommunityUses is intu32
        &&& self.snmpInBadCommunityUses@.declared("snmpInBadCommunityUses"@, self.oid@.push(5), false)
        &&& self.snmpInASNParseErrs is intu32
        &&& self.snmpInASNParseErrs@.declared("snmpInASNParseErrs"@, self.oid@.push(6), false)
        &&& self.snmpInTooBigs is intu32
        &&& self.snmpInTooBigs@.declared("snmpInTooBigs"@, self.oid@.push(8), false)
        &&& self.snmpInNoSuchNames is intu32
        &&& self.snmpInNoSuchNames@.declared("snmpInNoSuchNames"@, self.oid@.push(9), false)
        &&& self.snmpInBadValues is intu32
        &&& self.snmpInBadValues@.declared("snmpInBadValues"@, self.oid@.push(10), false)
        &&& self.snmpInReadOnlys is intu32
        &&& self.snmpInReadOnlys@.declared("snmpInReadOnlys"@, self.oid@.push(11), false)
        &&& self.snmpInGenErrs is intu32
        &&& self.snmpInGenErrs@.declared("snmpInGenErrs"@, self.oid@.push(12), false)
        &&& self.snmpInTotalReqVars is intu32
        &&& self.snmpInTotalReqVars@.declared("snmpInTotalReqVars"@, self.oid@.push(13), false)
        &&& self.snmpInTotalSetVars is intu32
        &&& self.snmpInTotalSetVars@.declared("snmpInTotalSetVars"@, self.oid@.push(14), false)
        &&& self.snmpInGetRequests is intu32
        &&& self.snmpInGetRequests@.declared("snmpInGetRequests"@, self.oid@.push(15), false)
        &&& self.snmpInGetNexts is intu32
        &&& self.snmpInGetNexts@.declared("snmpInGetNexts"@, self.oid@.push(16), false)
        &&& self.snmpInSetRequests is intu32
        &&& self.snmpInSetRequests@.declared("snmpInSetRequests"@, self.oid@.push(17), false)
        &&& self.snmpInGetResponses is intu32
        &&& self.snmpInGetResponses@.declared("snmpInGetResponses"@, self.oid@.push(18), false)
        &&& self.snmpInTraps is intu32
        &&& self.snmpInTraps@.declared("snmpInTraps"@, self.oid@.push(19), false)
        &&& self.snmpOutTooBigs is intu32
        &&& self.snmpOutTooBigs@.declared("snmpOutTooBigs"@, self.oid@.push(20), false)
        &&& self.snmpOutNoSuchNames is intu32
        &&& self.snmpOutNoSuchNames@.declared("snmpOutNoSuchNames"@, self.oid@.push(21), false)
        &&& self.snmpOutBadValues is intu32
        &&& self.snmpOutBadValues@.declared("snmpOutBadValues"@, self.oid@.push(22), false)
        &&& self.snmpOutGenErrs is intu32
        &&& self.snmpOutGenErrs@.declared("snmpOutGenErrs"@, self.oid@.push(24), false)
        &&& self.snmpOutGetRequests is intu32
        &&& self.snmpOutGetRequests@.declared("snmpOutGetRequests"@, self.oid@.push(25), false)
        &&& self.snmpOutGetNexts is intu32
        &&& self.snmpOutGetNexts@.declared("snmpOutGetNexts"@, self.oid@.push(26), false)
        &&& self.snmpOutSetRequests is intu32
        &&& self.snmpOutSetRequests@.declared("snmpOutSetRequests"@, self.oid@.push(27), false)
        &&& self.snmpOutGetResponses is intu32
        &&& self.snmpOutGetResponses@.declared("snmpOutGetResponses"@, self.oid@.push(28), false)
        &&& self.snmpOutTraps is intu32
        &&& self.snmpOutTraps@.declared("snmpOutTraps"@, self.oid@.push(29), false)
        &&& self.snmpEnableAuthenTraps is inti32
        &&& self.snmpEnableAuthenTraps@.declared("snmpEnableAuthenTraps"@, self.oid@.push(30), true)
    }

    /// The group as the schema declares it under `parent`.
    pub fn declare(parent: &Vec<u16>) -> (r: Self)
        ensures
            r.is_template(parent@),
    {
        let mut oid = copy_vec(parent);
        oid.push(11);
        let snmpInPkts = MibValue::declare_intu32("snmpInPkts", &oid, 1, false);
        let snmpOutPkts = MibValue::declare_intu32("snmpOutPkts", &oid, 2, false);
        let snmpInBadVersions = MibValue::declare_intu32("snmpInBadVersions", &oid, 3, false);
        let snmpInBadCommunityNames = MibValue::declare_intu32("snmpInBadCommunityNames", &oid, 4, false);
        let snmpInBadCommunityUses = MibValue::declare_intu32("snmpInBadCommunityUses", &oid, 5, false);
        let snmpInASNParseErrs = MibValue::declare_intu32("snmpInASNParseErrs", &oid, 6, false);
        let snmpInTooBigs = MibValue::declare_intu32("snmpInTooBigs", &oid, 8, false);
        let snmpInNoSuchNames = MibValue::declare_intu32("snmpInNoSuchNames", &oid, 9, false);
        let snmpInBadValues = MibValue::declare_intu32("snmpInBadValues", &oid, 10, false);
        let snmpInReadOnlys = MibValue::declare_intu32("snmpInReadOnlys", &oid, 11, false);
        let snmpInGenErrs = MibValue::declare_intu32("snmpInGenErrs", &oid, 12, false);
        let snmpInTotalReqVars = MibValue::declare_intu32("snmpInTotalReqVars", &oid, 13, false);
        let snmpInTotalSetVars = MibValue::declare_intu32("snmpInTotalSetVars", &oid, 14, false);
        let snmpInGetRequests = MibValue::declare_intu32("snmpInGetRequests", &oid, 15, false);
        let snmpInGetNexts = MibValue::declare_intu32("snmpInGetNexts", &oid, 16, false);
        let snmpInSetRequests = MibValue::declare_intu32("snmpInSetRequests", &oid, 17, false);
        let snmpInGetResponses = MibValue::declare_intu32("snmpInGetResponses", &oid, 18, false);
        let snmpInTraps = MibValue::declare_intu32("snmpInTraps", &oid, 19, false);
        let snmpOutTooBigs = MibValue::declare_intu32("snmpOutTooBigs", &oid, 20, false);
        let snmpOutNoSuchNames = MibValue::declare_intu32("snmpOutNoSuchNames", &oid, 21, false);
        let snmpOutBadValues = MibValue::declare_intu32("snmpOutBadValues", &oid, 22, false);
        let snmpOutGenErrs = MibValue::declare_intu32("snmpOutGenErrs", &oid, 24, false);
        let snmpOutGetRequests = MibValue::declare_intu32("snmpOutGetRequests", &oid, 25, false);
        let snmpOutGetNexts = MibValue::declare_intu32("snmpOutGetNexts", &oid, 26, false);
        let snmpOutSetRequests = MibValue::declare_intu32("snmpOutSetRequests", &oid, 27, false);
        let snmpOutGetResponses = MibValue::declare_intu32("snmpOutGetResponses", &oid, 28, false);
        let snmpOutTraps = MibValue::declare_intu32("snmpOutTraps", &oid, 29, false);
        let snmpEnableAuthenTraps = MibValue::declare_inti32("snmpEnableAuthenTraps", &oid, 30, true);
        Snmp { oid, snmpInPkts, snmpOutPkts, snmpInBadVersions, snmpInBadCommunityNames, snmpInBadCommunityUses, snmpInASNParseErrs, snmpInTooBigs, snmpInNoSuchNames, snmpInBadValues, snmpInReadOnlys, snmpInGenErrs, snmpInTotalReqVars, snmpInTotalSetVars, snmpInGetRequests, snmpInGetNexts, snmpInSetRequests, snmpInGetResponses, snmpInTraps, snmpOutTooBigs, snmpOutNoSuchNames, snmpOutBadValues, snmpOutGenErrs, snmpOutGetRequests, snmpOutGetNexts, snmpOutSetRequests, snmpOutGetResponses, snmpOutTraps, snmpEnableAuthenTraps }
    }

}

impl MibObject {
    /// Both hold the same identifiers and the same leaves.
    pub open spec fn same_as(self, other: Self) -> bool {
        &&& self.oid@ == other.oid@
        &&& self.timestamp == other.timestamp
        &&& self.system.same_as(other.system)
        &&& self.interfaces.same_as(other.interfaces)
        &&& self.at.same_as(other.at)
        &&& self.ip.same_as(other.ip)
        &&& self.icmp.same_as(other.icmp)
        &&& self.tcp.same_as(other.tcp)
        &&& self.udp.same_as(other.udp)
        &&& self.egp.same_as(other.egp)
        &&& self.transmission@ == other.transmission@
        &&& self.snmp.same_as(other.snmp)
    }
}

impl Clone for MibObject {
    fn clone(&self) -> (r: Self)
        ensures
            r.same_as(*self),
    {
        MibObject {
            oid: copy_vec(&self.oid),
            timestamp: self.timestamp,
            system: self.system.clone(),
            interfaces: self.interfaces.clone(),
            at: self.at.clone(),
            ip: self.ip.clone(),
            icmp: self.icmp.clone(),
            tcp: self.tcp.clone(),
            udp: self.udp.clone(),
            egp: self.egp.clone(),
            transmission: self.transmission.clone(),
            snmp: self.snmp.clone(),
        }
    }
}

impl System {
    /// Both hold the same identifiers and the same leaves.
    pub open spec fn same_as(self, other: Self) -> bool {
        &&& self.oid@ == other.oid@
        &&& self.sysDesc@ == other.sysDesc@
        &&& self.sysObjectID@ == other.sysObjectID@
        &&& self.sysUpTime@ == other.sysUpTime@
        &&& self.sysContact@ == other.sysContact@
        &&& self.sysName@ == other.sysName@
        &&& self.sysLocation@ == other.sysLocation@
        &&& self.sysServices@ == other.sysServices@
    }
}

impl Clone for System {
    fn clone(&self) -> (r: Self)
        ensures
            r.same_as(*self),
    {
        System {
            oid: copy_vec(&self.oid),
            sysDesc: self.sysDesc.clone(),
            sysObjectID: self.sysObjectID.clone(),
            sysUpTime: self.sysUpTime.clone(),
            sysContact: self.sysContact.clone(),
            sysName: self.sysName.clone(),
            sysLocation: self.sysLocation.clone(),
            sysServices: self.sysServices.clone(),
        }
    }
}

impl Interfaces {
    /// Both hold the same identifiers and the same leaves.
    pub open spec fn same_as(self, other: Self) -> bool {
        &&& self.oid@ == other.oid@
        &&& self.ifNumber@ == other.ifNumber@
        &&& self.ifTable.same_as(other.ifTable)
    }
}

impl Clone for Interfaces {
    fn clone(&self) -> (r: Self)
        ensures
            r.same_as(*self),
    {
        Interfaces {
            oid: copy_vec(&self.oid),
            ifNumber: self.ifNumber.clone(),
            ifTable: self.ifTable.clone(),
        }
    }
}

impl IfTable {
    /// Both hold the same identifiers and the same leaves.
    pub open spec fn same_as(self, other: Self) -> bool {
        &&& self.oid@ == other.oid@
        &&& self.ifIndex@ == other.ifIndex@
        &&& self.ifDescr@ == other.ifDescr@
        &&& self.ifType@ == other.ifType@
        &&& self.ifMtu@ == other.ifMtu@
        &&& self.ifSpeed@ == other.ifSpeed@
        &&& self.ifPhysAddress@ == other.ifPhysAddress@
        &&& self.ifAdminStatus@ == other.ifAdminStatus@
        &&& self.ifOperStatus@ == other.ifOperStatus@
        &&& self.ifLastChange@ == other.ifLastChange@
        &&& self.ifInOctets@ == other.ifInOctets@
        &&& self.ifInUcastPkts@ == other.ifInUcastPkts@
        &&& self.ifInNUcastPkts@ == other.ifInNUcastPkts@
        &&& self.ifInDiscards@ == other.ifInDiscards@
        &&& self.ifInErrors@ == other.ifInErrors@
        &&& self.ifInUnknownProtos@ == other.ifInUnknownProtos@
        &&& self.ifOutOctets@ == other.ifOutOctets@
        &&& self.ifOutUcastPkts@ == other.ifOutUcastPkts@
        &&& self.ifOutNUcastPkts@ == other.ifOutNUcastPkts@
        &&& self.ifOutDiscards@ == other.ifOutDiscards@
        &&& self.ifOutErrors@ == other.ifOutErrors@
        &&& self.ifOutQLen@ == other.ifOutQLen@
        &&& self.ifSpecific@ == other.ifSpecific@
    }
}

impl Clone for IfTable {
    fn clone(&self) -> (r: Self)
        ensures
            r.same_as(*self),
    {
        IfTable {
            oid: copy_vec(&self.oid),
            ifIndex: self.ifIndex.clone(),
            ifDescr: self.ifDescr.clone(),
            ifType: self.ifType.clone(),
            ifMtu: self.ifMtu.clone(),
            ifSpeed: self.ifSpeed.clone(),
            ifPhysAddress: self.ifPhysAddress.clone(),
            ifAdminStatus: self.ifAdminStatus.clone(),
            ifOperStatus: self.ifOperStatus.clone(),
            ifLastChange: self.ifLastChange.clone(),
            ifInOctets: self.ifInOctets.clone(),
            ifInUcastPkts: self.ifInUcastPkts.clone(),
            ifInNUcastPkts: self.ifInNUcastPkts.clone(),
            ifInDiscards: self.ifInDiscards.clone(),
            ifInErrors: self.ifInErrors.clone(),
            ifInUnknownProtos: self.ifInUnknownProtos.clone(),
            ifOutOctets: self.ifOutOctets.clone(),
            ifOutUcastPkts: self.ifOutUcastPkts.clone(),
            ifOutNUcastPkts: self.ifOutNUcastPkts.clone(),
            ifOutDiscards: self.ifOutDiscards.clone(),
            ifOutErrors: self.ifOutErrors.clone(),
            ifOutQLen: self.ifOutQLen.clone(),
            ifSpecific: self.ifSpecific.clone(),
        }
    }
}

impl At {
    /// Both hold the same identifiers and the same leaves.
    pub open spec fn same_as(self, other: Self) -> bool {
        &&& self.oid@ == other.oid@
        &&& self.atTable.same_as(other.atTable)
    }
}

impl Clone for At {
    fn clone(&self) -> (r: Self)
        ensures
            r.same_as(*self),
    {
        At {
            oid: copy_vec(&self.oid),
            atTable: self.atTable.clone(),
        }
    }
}

impl AtTable {
    /// Both hold the same identifiers and the same leaves.
    pub open spec fn same_as(self, other: Self) -> bool {
        &&& self.oid@ == other.oid@
        &&& self.atIfIndex@ == other.atIfIndex@
        &&& self.atPhysAddress@ == other.atPhysAddress@
        &&& self.atNetAddress@ == other.atNetAddress@
    }
}

impl Clone for AtTable {
    fn clone(&self) -> (r: Self)
        ensures
            r.same_as(*self),
    {
        AtTable {
            oid: copy_vec(&self.oid),
            atIfIndex: self.atIfIndex.clone(),
            atPhysAddress: self.atPhysAddress.clone(),
            atNetAddress: self.atNetAddress.clone(),
        }
    }
}

impl Ip {
    /// Both hold the same identifiers and the same leaves.
    pub open spec fn same_as(self, other: Self) -> bool {
        &&& self.oid@ == other.oid@
        &&& self.ipForwarding@ == other.ipForwarding@
        &&& self.ipDefaultTTL@ == other.ipDefaultTTL@
        &&& self.ipInReceives@ == other.ipInReceives@
        &&& self.ipInHdrErrors@ == other.ipInHdrErrors@
        &&& self.ipInAddrErrors@ == other.ipInAddrErrors@
        &&& self.ipForwDatagrams@ == other.ipForwDatagrams@
        &&& self.ipInUnknownProtos@ == other.ipInUnknownProtos@
        &&& self.ipInDiscards@ == other.ipInDiscards@
        &&& self.ipInDelivers@ == other.ipInDelivers@
        &&& self.ipOutRequests@ == other.ipOutRequests@
        &&& self.ipOutDiscards@ == other.ipOutDiscards@
        &&& self.ipOutNoRoutes@ == other.ipOutNoRoutes@
        &&& self.ipReasmTimeout@ == other.ipReasmTimeout@
        &&& self.ipReasmReqds@ == other.ipReasmReqds@
        &&& self.ipReasmOKs@ == other.ipReasmOKs@
        &&& self.ipReasmFails@ == other.ipReasmFails@
        &&& self.ipFragOKs@ == other.ipFragOKs@
        &&& self.ipFragFails@ == other.ipFragFails@
        &&& self.ipFragCreates@ == other.ipFragCreates@
        &&& self.ipAddrTable.same_as(other.ipAddrTable)
        &&& self.ipRouteTable.same_as(other.ipRouteTable)
        &&& self.ipNetToMediaTable.same_as(other.ipNetToMediaTable)
        &&& self.ipRoutingDiscards@ == other.ipRoutingDiscards@
    }
}

impl Clone for Ip {
    fn clone(&self) -> (r: Self)
        ensures
            r.same_as(*self),
    {
        Ip {
            oid: copy_vec(&self.oid),
            ipForwarding: self.ipForwarding.clone(),
            ipDefaultTTL: self.ipDefaultTTL.clone(),
            ipInReceives: self.ipInReceives.clone(),
            ipInHdrErrors: self.ipInHdrErrors.clone(),
            ipInAddrErrors: self.ipInAddrErrors.clone(),
            ipForwDatagrams: self.ipForwDatagrams.clone(),
            ipInUnknownProtos: self.ipInUnknownProtos.clone(),
            ipInDiscards: self.ipInDiscards.clone(),
            ipInDelivers: self.ipInDelivers.clone(),
            ipOutRequests: self.ipOutRequests.clone(),
            ipOutDiscards: self.ipOutDiscards.clone(),
            ipOutNoRoutes: self.ipOutNoRoutes.clone(),
            ipReasmTimeout: self.ipReasmTimeout.clone(),
            ipReasmReqds: self.ipReasmReqds.clone(),
            ipReasmOKs: self.ipReasmOKs.clone(),
            ipReasmFails: self.ipReasmFails.clone(),
            ipFragOKs: self.ipFragOKs.clone(),
            ipFragFails: self.ipFragFails.clone(),
            ipFragCreates: self.ipFragCreates.clone(),
            ipAddrTable: self.ipAddrTable.clone(),
            ipRouteTable: self.ipRouteTable.clone(),
            ipNetToMediaTable: self.ipNetToMediaTable.clone(),
            ipRoutingDiscards: self.ipRoutingDiscards.clone(),
        }
    }
}

impl IpAddrTable {
    /// Both hold the same identifiers and the same leaves.
    pub open spec fn same_as(self, other: Self) -> bool {
        &&& self.oid@ == other.oid@
        &&& self.ipAdEntAddr@ == other.ipAdEntAddr@
        &&& self.ipAdEntIfIndex@ == other.ipAdEntIfIndex@
        &&& self.ipAdEntNetMask@ == other.ipAdEntNetMask@
        &&& self.ipAdEntBcastAddr@ == other.ipAdEntBcastAddr@
        &&& self.ipAdEntReasmMaxSize@ == other.ipAdEntReasmMaxSize@
    }
}

impl Clone for IpAddrTable {
    fn clone(&self) -> (r: Self)
        ensures
            r.same_as(*self),
    {
        IpAddrTable {
            oid: copy_vec(&self.oid),
            ipAdEntAddr: self.ipAdEntAddr.clone(),
            ipAdEntIfIndex: self.ipAdEntIfIndex.clone(),
            ipAdEntNetMask: self.ipAdEntNetMask.clone(),
            ipAdEntBcastAddr: self.ipAdEntBcastAddr.clone(),
            ipAdEntReasmMaxSize: self.ipAdEntReasmMaxSize.clone(),
        }
    }
}

impl IpRouteTable {
    /// Both hold the same identifiers and the same leaves.
    pub open spec fn same_as(self, other: Self) -> bool {
        &&& self.oid@ == other.oid@
        &&& self.ipRouteDest@ == other.ipRouteDest@
        &&& self.ipRouteIfIndex@ == other.ipRouteIfIndex@
        &&& self.ipRouteMetric1@ == other.ipRouteMetric1@
        &&& self.ipRouteMetric2@ == other.ipRouteMetric2@
        &&& self.ipRouteMetric3@ == other.ipRouteMetric3@
        &&& self.ipRouteMetric4@ == other.ipRouteMetric4@
        &&& self.ipRouteNextHop@ == other.ipRouteNextHop@
        &&& self.ipRouteType@ == other.ipRouteType@
        &&& self.ipRouteProto@ == other.ipRouteProto@
        &&& self.ipRouteAge@ == other.ipRouteAge@
        &&& self.ipRouteMask@ == other.ipRouteMask@
        &&& self.ipRouteMetric5@ == other.ipRouteMetric5@
        &&& self.ipRouteInfo@ == other.ipRouteInfo@
    }
}

impl Clone for IpRouteTable {
    fn clone(&self) -> (r: Self)
        ensures
            r.same_as(*self),
    {
        IpRouteTable {
            oid: copy_vec(&self.oid),
            ipRouteDest: self.ipRouteDest.clone(),
            ipRouteIfIndex: self.ipRouteIfIndex.clone(),
            ipRouteMetric1: self.ipRouteMetric1.clone(),
            ipRouteMetric2: self.ipRouteMetric2.clone(),
            ipRouteMetric3: self.ipRouteMetric3.clone(),
            ipRouteMetric4: self.ipRouteMetric4.clone(),
            ipRouteNextHop: self.ipRouteNextHop.clone(),
            ipRouteType: self.ipRouteType.clone(),
            ipRouteProto: self.ipRouteProto.clone(),
            ipRouteAge: self.ipRouteAge.clone(),
            ipRouteMask: self.ipRouteMask.clone(),
            ipRouteMetric5: self.ipRouteMetric5.clone(),
            ipRouteInfo: self.ipRouteInfo.clone(),
        }
    }
}

impl IpNetToMediaTable {
    /// Both hold the same identifiers and the same leaves.
    pub open spec fn same_as(self, other: Self) -> bool {
        &&& self.oid@ == other.oid@
        &&& self.ipNetToMediaIfIndex@ == other.ipNetToMediaIfIndex@
        &&& self.ipNetToMediaPhysAddress@ == other.ipNetToMediaPhysAddress@
        &&& self.ipNetToMediaNetAddress@ == other.ipNetToMediaNetAddress@
        &&& self.ipNetToMediaType@ == other.ipNetToMediaType@
    }
}

impl Clone for IpNetToMediaTable {
    fn clone(&self) -> (r: Self)
        ensures
            r.same_as(*self),
    {
        IpNetToMediaTable {
            oid: copy_vec(&self.oid),
            ipNetToMediaIfIndex: self.ipNetToMediaIfIndex.clone(),
            ipNetToMediaPhysAddress: self.ipNetToMediaPhysAddress.clone(),
            ipNetToMediaNetAddress: self.ipNetToMediaNetAddress.clone(),
            ipNetToMediaType: self.ipNetToMediaType.clone(),
        }
    }
}

impl Icmp {
    /// Both hold the same identifiers and the same leaves.
    pub open spec fn same_as(self, other: Self) -> bool {
        &&& self.oid@ == other.oid@
        &&& self.icmpInMsgs@ == other.icmpInMsgs@
        &&& self.icmpInErrors@ == other.icmpInErrors@
        &&& self.icmpInDestUnreachs@ == other.icmpInDestUnreachs@
        &&& self.icmpInTimeExcds@ == other.icmpInTimeExcds@
        &&& self.icmpInParmProbs@ == other.icmpInParmProbs@
        &&& self.icmpInSrcQuenchs@ == other.icmpInSrcQuenchs@
        &&& self.icmpInRedirects@ == other.icmpInRedirects@
        &&& self.icmpInEchos@ == other.icmpInEchos@
        &&& self.icmpInEchoReps@ == other.icmpInEchoReps@
        &&& self.icmpInTimestamps@ == other.icmpInTimestamps@
        &&& self.icmpInTimestampReps@ == other.icmpInTimestampReps@
        &&& self.icmpInAddrMasks@ == other.icmpInAddrMasks@
        &&& self.icmpInAddrMaskReps@ == other.icmpInAddrMaskReps@
        &&& self.icmpOutMsgs@ == other.icmpOutMsgs@
        &&& self.icmpOutErrors@ == other.icmpOutErrors@
        &&& self.icmpOutDestUnreachs@ == other.icmpOutDestUnreachs@
        &&& self.icmpOutTimeExcds@ == other.icmpOutTimeExcds@
        &&& self.icmpOutParmProbs@ == other.icmpOutParmProbs@
        &&& self.icmpOutSrcQuenchs@ == other.icmpOutSrcQuenchs@
        &&& self.icmpOutRedirects@ == other.icmpOutRedirects@
        &&& self.icmpOutEchos@ == other.icmpOutEchos@
        &&& self.icmpOutEchoReps@ == other.icmpOutEchoReps@
        &&& self.icmpOutTimestamps@ == other.icmpOutTimestamps@
        &&& self.icmpOutTimestampReps@ == other.icmpOutTimestampReps@
        &&& self.icmpOutAddrMasks@ == other.icmpOutAddrMasks@
        &&& self.icmpOutAddrMaskReps@ == other.icmpOutAddrMaskReps@
    }
}

impl Clone for Icmp {
    fn clone(&self) -> (r: Self)
        ensures
            r.same_as(*self),
    {
        Icmp {
            oid: copy_vec(&self.oid),
            icmpInMsgs: self.icmpInMsgs.clone(),
            icmpInErrors: self.icmpInErrors.clone(),
            icmpInDestUnreachs: self.icmpInDestUnreachs.clone(),
            icmpInTimeExcds: self.icmpInTimeExcds.clone(),
            icmpInParmProbs: self.icmpInParmProbs.clone(),
            icmpInSrcQuenchs: self.icmpInSrcQuenchs.clone(),
            icmpInRedirects: self.icmpInRedirects.clone(),
            icmpInEchos: self.icmpInEchos.clone(),
            icmpInEchoReps: self.icmpInEchoReps.clone(),
            icmpInTimestamps: self.icmpInTimestamps.clone(),
            icmpInTimestampReps: self.icmpInTimestampReps.clone(),
            icmpInAddrMasks: self.icmpInAddrMasks.clone(),
            icmpInAddrMaskReps: self.icmpInAddrMaskReps.clone(),
            icmpOutMsgs: self.icmpOutMsgs.clone(),
            icmpOutErrors: self.icmpOutErrors.clone(),
            icmpOutDestUnreachs: self.icmpOutDestUnreachs.clone(),
            icmpOutTimeExcds: self.icmpOutTimeExcds.clone(),
            icmpOutParmProbs: self.icmpOutParmProbs.clone(),
            icmpOutSrcQuenchs: self.icmpOutSrcQuenchs.clone(),
            icmpOutRedirects: self.icmpOutRedirects.clone(),
            icmpOutEchos: self.icmpOutEchos.clone(),
            icmpOutEchoReps: self.icmpOutEchoReps.clone(),
            icmpOutTimestamps: self.icmpOutTimestamps.clone(),
            icmpOutTimestampReps: self.icmpOutTimestampReps.clone(),
            icmpOutAddrMasks: self.icmpOutAddrMasks.clone(),
            icmpOutAddrMaskReps: self.icmpOutAddrMaskReps.clone(),
        }
    }
}

impl Tcp {
    /// Both hold the same identifiers and the same leaves.
    pub open spec fn same_as(self, other: Self) -> bool {
        &&& self.oid@ == other.oid@
        &&& self.tcpRtoAlgorithm@ == other.tcpRtoAlgorithm@
        &&& self.tcpRtoMin@ == other.tcpRtoMin@
        &&& self.tcpRtoMax@ == other.tcpRtoMax@
        &&& self.tcpMaxConn@ == other.tcpMaxConn@
        &&& self.tcpActiveOpens@ == other.tcpActiveOpens@
        &&& self.tcpPassiveOpens@ == other.tcpPassiveOpens@
        &&& self.tcpAttemptFails@ == other.tcpAttemptFails@
        &&& self.tcpEstabResets@ == other.tcpEstabResets@
        &&& self.tcpCurrEstab@ == other.tcpCurrEstab@
        &&& self.tcpInSegs@ == other.tcpInSegs@
        &&& self.tcpOutSegs@ == other.tcpOutSegs@
        &&& self.tcpRetransSegs@ == other.tcpRetransSegs@
        &&& self.tcpConnTable.same_as(other.tcpConnTable)
        &&& self.tcpInErrs@ == other.tcpInErrs@
        &&& self.tcpOutRsts@ == other.tcpOutRsts@
    }
}

impl Clone for Tcp {
    fn clone(&self) -> (r: Self)
        ensures
            r.same_as(*self),
    {
        Tcp {
            oid: copy_vec(&self.oid),
            tcpRtoAlgorithm: self.tcpRtoAlgorithm.clone(),
            tcpRtoMin: self.tcpRtoMin.clone(),
            tcpRtoMax: self.tcpRtoMax.clone(),
            tcpMaxConn: self.tcpMaxConn.clone(),
            tcpActiveOpens: self.tcpActiveOpens.clone(),
            tcpPassiveOpens: self.tcpPassiveOpens.clone(),
            tcpAttemptFails: self.tcpAttemptFails.clone(),
            tcpEstabResets: self.tcpEstabResets.clone(),
            tcpCurrEstab: self.tcpCurrEstab.clone(),
            tcpInSegs: self.tcpInSegs.clone(),
            tcpOutSegs: self.tcpOutSegs.clone(),
            tcpRetransSegs: self.tcpRetransSegs.clone(),
            tcpConnTable: self.tcpConnTable.clone(),
            tcpInErrs: self.tcpInErrs.clone(),
            tcpOutRsts: self.tcpOutRsts.clone(),
        }
    }
}

impl TcpConnTable {
    /// Both hold the same identifiers and the same leaves.
    pub open spec fn same_as(self, other: Self) -> bool {
        &&& self.oid@ == other.oid@
        &&& self.tcpConnState@ == other.tcpConnState@
        &&& self.tcpConnLocalAddress@ == other.tcpConnLocalAddress@
        &&& self.tcpConnLocalPort@ == other.tcpConnLocalPort@
        &&& self.tcpConnRemAddress@ == other.tcpConnRemAddress@
        &&& self.tcpConnRemPort@ == other.tcpConnRemPort@
    }
}

impl Clone for TcpConnTable {
    fn clone(&self) -> (r: Self)
        ensures
            r.same_as(*self),
    {
        TcpConnTable {
            oid: copy_vec(&self.oid),
            tcpConnState: self.tcpConnState.clone(),
            tcpConnLocalAddress: self.tcpConnLocalAddress.clone(),
            tcpConnLocalPort: self.tcpConnLocalPort.clone(),
            tcpConnRemAddress: self.tcpConnRemAddress.clone(),
            tcpConnRemPort: self.tcpConnRemPort.clone(),
        }
    }
}

impl Udp {
    /// Both hold the same identifiers and the same leaves.
    pub open spec fn same_as(self, other: Self) -> bool {
        &&& self.oid@ == other.oid@
        &&& self.udpInDatagrams@ == other.udpInDatagrams@
        &&& self.udpNoPorts@ == other.udpNoPorts@
        &&& self.udpInErrors@ == other.udpInErrors@
        &&& self.udpOutDatagrams@ == other.udpOutDatagrams@
        &&& self.udpTable.same_as(other.udpTable)
    }
}

impl Clone for Udp {
    fn clone(&self) -> (r: Self)
        ensures
            r.same_as(*self),
    {
        Udp {
            oid: copy_vec(&self.oid),
            udpInDatagrams: self.udpInDatagrams.clone(),
            udpNoPorts: self.udpNoPorts.clone(),
            udpInErrors: self.udpInErrors.clone(),
            udpOutDatagrams: self.udpOutDatagrams.clone(),
            udpTable: self.udpTable.clone(),
        }
    }
}

impl UdpTable {
    /// Both hold the same identifiers and the same leaves.
    pub open spec fn same_as(self, other: Self) -> bool {
        &&& self.oid@ == other.oid@
        &&& self.udpLocalAddress@ == other.udpLocalAddress@
        &&& self.udpLocalPort@ == other.udpLocalPort@
    }
}

impl Clone for UdpTable {
    fn clone(&self) -> (r: Self)
        ensures
            r.same_as(*self),
    {
        UdpTable {
            oid: copy_vec(&self.oid),
            udpLocalAddress: self.udpLocalAddress.clone(),
            udpLocalPort: self.udpLocalPort.clone(),
        }
    }
}

impl Egp {
    /// Both hold the same identifiers and the same leaves.
    pub open spec fn same_as(self, other: Self) -> bool {
        &&& self.oid@ == other.oid@
        &&& self.egpInMsgs@ == other.egpInMsgs@
        &&& self.egpInErrors@ == other.egpInErrors@
        &&& self.egpOutMsgs@ == other.egpOutMsgs@
        &&& self.egpOutErrors@ == other.egpOutErrors@
        &&& self.egpNeighTable.same_as(other.egpNeighTable)
        &&& self.egpAs@ == other.egpAs@
    }
}

impl Clone for Egp {
    fn clone(&self) -> (r: Self)
        ensures
            r.same_as(*self),
    {
        Egp {
            oid: copy_vec(&self.oid),
            egpInMsgs: self.egpInMsgs.clone(),
            egpInErrors: self.egpInErrors.clone(),
            egpOutMsgs: self.egpOutMsgs.clone(),
            egpOutErrors: self.egpOutErrors.clone(),
            egpNeighTable: self.egpNeighTable.clone(),
            egpAs: self.egpAs.clone(),
        }
    }
}

impl EgpNeighTable {
    /// Both hold the same identifiers and the same leaves.
    pub open spec fn same_as(self, other: Self) -> bool {
        &&& self.oid@ == other.oid@
        &&& self.egpNeighState@ == other.egpNeighState@
        &&& self.egpNeighAddr@ == other.egpNeighAddr@
        &&& self.egpNeighAs@ == other.egpNeighAs@
        &&& self.egpNeighInMsgs@ == other.egpNeighInMsgs@
        &&& self.egpNeighInErrs@ == other.egpNeighInErrs@
        &&& self.egpNeighOutMsgs@ == other.egpNeighOutMsgs@
        &&& self.egpNeighOutErrs@ == other.egpNeighOutErrs@
        &&& self.egpNeighInErrMsgs@ == other.egpNeighInErrMsgs@
        &&& self.egpNeighOutErrMsgs@ == other.egpNeighOutErrMsgs@
        &&& self.egpNeighStateUps@ == other.egpNeighStateUps@
        &&& self.egpNeighStateDowns@ == other.egpNeighStateDowns@
        &&& self.egpNeighIntervalHello@ == other.egpNeighIntervalHello@
        &&& self.egpNeighIntervalPoll@ == other.egpNeighIntervalPoll@
        &&& self.egpNeighMode@ == other.egpNeighMode@
        &&& self.egpNeighEventTrigger@ == other.egpNeighEventTrigger@
    }
}

impl Clone for EgpNeighTable {
    fn clone(&self) -> (r: Self)
        ensures
            r.same_as(*self),
    {
        EgpNeighTable {
            oid: copy_vec(&self.oid),
            egpNeighState: self.egpNeighState.clone(),
            egpNeighAddr: self.egpNeighAddr.clone(),
            egpNeighAs: self.egpNeighAs.clone(),
            egpNeighInMsgs: self.egpNeighInMsgs.clone(),
            egpNeighInErrs: self.egpNeighInErrs.clone(),
            egpNeighOutMsgs: self.egpNeighOutMsgs.clone(),
            egpNeighOutErrs: self.egpNeighOutErrs.clone(),
            egpNeighInErrMsgs: self.egpNeighInErrMsgs.clone(),
            egpNeighOutErrMsgs: self.egpNeighOutErrMsgs.clone(),
            egpNeighStateUps: self.egpNeighStateUps.clone(),
            egpNeighStateDowns: self.egpNeighStateDowns.clone(),
            egpNeighIntervalHello: self.egpNeighIntervalHello.clone(),
            egpNeighIntervalPoll: self.egpNeighIntervalPoll.clone(),
            egpNeighMode: self.egpNeighMode.clone(),
            egpNeighEventTrigger: self.egpNeighEventTrigger.clone(),
        }
    }
}

impl Snmp {
    /// Both hold the same identifiers and the same leaves.
    pub open spec fn same_as(self, other: Self) -> bool {
        &&& self.oid@ == other.oid@
        &&& self.snmpInPkts@ == other.snmpInPkts@
        &&& self.snmpOutPkts@ == other.snmpOutPkts@
        &&& self.snmpInBadVersions@ == other.snmpInBadVersions@
        &&& self.snmpInBadCommunityNames@ == other.snmpInBadCommunityNames@
        &&& self.snmpInBadCommunityUses@ == other.snmpInBadCommunityUses@
        &&& self.snmpInASNParseErrs@ == other.snmpInASNParseErrs@
        &&& self.snmpInTooBigs@ == other.snmpInTooBigs@
        &&& self.snmpInNoSuchNames@ == other.snmpInNoSuchNames@
        &&& self.snmpInBadValues@ == other.snmpInBadValues@
        &&& self.snmpInReadOnlys@ == other.snmpInReadOnlys@
        &&& self.snmpInGenErrs@ == other.snmpInGenErrs@
        &&& self.snmpInTotalReqVars@ == other.snmpInTotalReqVars@
        &&& self.snmpInTotalSetVars@ == other.snmpInTotalSetVars@
        &&& self.snmpInGetRequests@ == other.snmpInGetRequests@
        &&& self.snmpInGetNexts@ == other.snmpInGetNexts@
        &&& self.snmpInSetRequests@ == other.snmpInSetRequests@
        &&& self.snmpInGetResponses@ == other.snmpInGetResponses@
        &&& self.snmpInTraps@ == other.snmpInTraps@
        &&& self.snmpOutTooBigs@ == other.snmpOutTooBigs@
        &&& self.snmpOutNoSuchNames@ == other.snmpOutNoSuchNames@
        &&& self.snmpOutBadValues@ == other.snmpOutBadValues@
        &&& self.snmpOutGenErrs@ == other.snmpOutGenErrs@
        &&& self.snmpOutGetRequests@ == other.snmpOutGetRequests@
        &&& self.snmpOutGetNexts@ == other.snmpOutGetNexts@
        &&& self.snmpOutSetRequests@ == other.snmpOutSetRequests@
        &&& self.snmpOutGetResponses@ == other.snmpOutGetResponses@
        &&& self.snmpOutTraps@ == other.snmpOutTraps@
        &&& self.snmpEnableAuthenTraps@ == other.snmpEnableAuthenTraps@
    }
}

impl Clone for Snmp {
    fn clone(&self) -> (r: Self)
        ensures
            r.same_as(*self),
    {
        Snmp {
            oid: copy_vec(&self.oid),
            snmpInPkts: self.snmpInPkts.clone(),
            snmpOutPkts: self.snmpOutPkts.clone(),
            snmpInBadVersions: self.snmpInBadVersions.clone(),
            snmpInBadCommunityNames: self.snmpInBadCommunityNames.clone(),
            snmpInBadCommunityUses: self.snmpInBadCommunityUses.clone(),
            snmpInASNParseErrs: self.snmpInASNParseErrs.clone(),
            snmpInTooBigs: self.snmpInTooBigs.clone(),
            snmpInNoSuchNames: self.snmpInNoSuchNames.clone(),
            snmpInBadValues: self.snmpInBadValues.clone(),
            snmpInReadOnlys: self.snmpInReadOnlys.clone(),
            snmpInGenErrs: self.snmpInGenErrs.clone(),
            snmpInTotalReqVars: self.snmpInTotalReqVars.clone(),
            snmpInTotalSetVars: self.snmpInTotalSetVars.clone(),
            snmpInGetRequests: self.snmpInGetRequests.clone(),
            snmpInGetNexts: self.snmpInGetNexts.clone(),
            snmpInSetRequests: self.snmpInSetRequests.clone(),
            snmpInGetResponses: self.snmpInGetResponses.clone(),
            snmpInTraps: self.snmpInTraps.clone(),
            snmpOutTooBigs: self.snmpOutTooBigs.clone(),
            snmpOutNoSuchNames: self.snmpOutNoSuchNames.clone(),
            snmpOutBadValues: self.snmpOutBadValues.clone(),
            snmpOutGenErrs: self.snmpOutGenErrs.clone(),
            snmpOutGetRequests: self.snmpOutGetRequests.clone(),
            snmpOutGetNexts: self.snmpOutGetNexts.clone(),
            snmpOutSetRequests: self.snmpOutSetRequests.clone(),
            snmpOutGetResponses: self.snmpOutGetResponses.clone(),
            snmpOutTraps: self.snmpOutTraps.clone(),
            snmpEnableAuthenTraps: self.snmpEnableAuthenTraps.clone(),
        }
    }
}

} // verus!
