//! The walk: every leaf takes in the outcome of its own subtree request, independently of the
//! others, and the identifiers that those requests are rooted at.

use vstd::prelude::*;
use crate::decode::WalkError;
use crate::oid::same_oid;
use crate::schema::{
    At, AtTable, Egp, EgpNeighTable, Icmp, IfTable, Interfaces, Ip, IpAddrTable, IpNetToMediaTable,
    IpRouteTable, MibObject, Snmp, System, Tcp, TcpConnTable, Udp, UdpTable,
};
use crate::value::{Leaf, MibValue, WireValue};

verus! {

/// The outcome of the subtree request rooted at `oid`.
pub struct WalkResponse {
    pub oid: Vec<u16>,
    pub outcome: Result<Vec<WireValue>, WalkError>,
}

/// The outcome of a request as values: the wire values returned, in order, or the error.
pub open spec fn outcome_view(o: Result<Vec<WireValue>, WalkError>) -> Result<Seq<WireValue>, WalkError> {
    match o {
        Ok(raw) => Ok(raw@),
        Err(e) => Err(e),
    }
}

/// The outcome recorded for `oid`: that of the first response rooted there, if any.
pub open spec fn outcome_for(rs: Seq<WalkResponse>, oid: Seq<u16>) -> Option<Result<Seq<WireValue>, WalkError>>
    decreases rs.len(),
{
    if rs.len() == 0 {
        None
    } else if rs[0].oid@ == oid {
        Some(outcome_view(rs[0].outcome))
    } else {
        outcome_for(rs.drop_first(), oid)
    }
}

impl Leaf {
    /// The leaf after its walk: its values decoded from the outcome recorded for its identifier
    /// when that walk succeeded, unchanged when it failed or was not made.
    pub open spec fn after_walk(self, rs: Seq<WalkResponse>) -> Leaf {
        match outcome_for(rs, self.oid) {
            Some(Ok(raw)) => Leaf { values: self.values.decoded(raw), ..self },
            _ => self,
        }
    }
}

/// The index of the response that `outcome_for` picks.
fn find_response(rs: &Vec<WalkResponse>, oid: &Vec<u16>) -> (r: Option<usize>)
    ensures
        r is None ==> outcome_for(rs@, oid@) is None,
        r matches Some(i) ==> i < rs@.len() && outcome_for(rs@, oid@) == Some(outcome_view(rs@[i as int].outcome)),
{
    let mut i: usize = 0;
    assert(rs@.subrange(0, rs@.len() as int) =~= rs@);
    while i < rs.len()
        invariant
            i <= rs.len(),
            outcome_for(rs@, oid@) == outcome_for(rs@.subrange(i as int, rs@.len() as int), oid@),
        decreases rs.len() - i,
    {
        let ghost rest = rs@.subrange(i as int, rs@.len() as int);
        assert(rest.drop_first() =~= rs@.subrange(i + 1, rs@.len() as int));
        assert(rest[0] == rs@[i as int]);
        if same_oid(rs[i].oid.as_slice(), oid.as_slice()) {
            return Some(i);
        }
        i += 1;
    }
    None
}

impl MibValue {
    /// Takes in the outcome recorded for this leaf's identifier. `Err` when the walk failed or no
    /// outcome is recorded; the values are then left as they were.
    pub fn walk(&mut self, responses: &Vec<WalkResponse>) -> (r: Result<(), WalkError>)
        ensures
            final(self)@ == old(self)@.after_walk(responses@),
            r is Ok <==> outcome_for(responses@, old(self)@.oid) matches Some(Ok(_)),
            outcome_for(responses@, old(self)@.oid) is None ==> r == Err::<(), WalkError>(WalkError::Missing),
            outcome_for(responses@, old(self)@.oid) matches Some(Err(e)) ==> r == Err::<(), WalkError>(e),
    {
        let oid = self.get_oid();
        match find_response(responses, &oid) {
            Some(i) => self.apply_walk(&responses[i].outcome),
            None => Err(WalkError::Missing),
        }
    }
}

impl MibObject {
    /// This is `before` after the walk: every leaf as `after_walk` makes it, the identifiers
    /// unchanged.
    pub open spec fn walked_from(self, before: Self, rs: Seq<WalkResponse>) -> bool {
        &&& self.oid@ == before.oid@
        &&& self.timestamp == before.timestamp
        &&& self.system.walked_from(before.system, rs)
        &&& self.interfaces.walked_from(before.interfaces, rs)
        &&& self.at.walked_from(before.at, rs)
        &&& self.ip.walked_from(before.ip, rs)
        &&& self.icmp.walked_from(before.icmp, rs)
        &&& self.tcp.walked_from(before.tcp, rs)
        &&& self.udp.walked_from(before.udp, rs)
        &&& self.egp.walked_from(before.egp, rs)
        &&& self.transmission@ == before.transmission@.after_walk(rs)
        &&& self.snmp.walked_from(before.snmp, rs)
    }

    /// Takes in the outcomes of the subtree requests, leaf by leaf in declaration order; a failed
    /// or missing outcome leaves that leaf as it was and does not stop the others.
    pub fn walk(&mut self, responses: &Vec<WalkResponse>)
        ensures
            final(self).walked_from(*old(self), responses@),
    {
        self.system.walk(responses);
        self.interfaces.walk(responses);
        self.at.walk(responses);
        self.ip.walk(responses);
        self.icmp.walk(responses);
        self.tcp.walk(responses);
        self.udp.walk(responses);
        self.egp.walk(responses);
        let _ = self.transmission.walk(responses);
        self.snmp.walk(responses);
    }

    /// The identifiers of all leaves, in declaration order: where the subtree requests are rooted.
    pub fn leaf_oids(&self) -> (r: Vec<Vec<u16>>)
        ensures
            r@.len() == self.leaves().len(),
            forall|i: int| 0 <= i < r@.len() ==> (#[trigger] r@[i])@ == self.leaves()[i].oid,
    {
        let mut r: Vec<Vec<u16>> = Vec::new();
        let ghost mut acc: Seq<Leaf> = seq![];
        let mut sub = self.system.leaf_oids();
        r.append(&mut sub);
        proof {
            acc = acc + self.system.leaves();
        }
        assert(r@.len() == acc.len());
        assert(forall|k: int| 0 <= k < r@.len() ==> (#[trigger] r@[k])@ == acc[k].oid);
        let mut sub = self.interfaces.leaf_oids();
        r.append(&mut sub);
        proof {
            acc = acc + self.interfaces.leaves();
        }
        assert(r@.len() == acc.len());
        assert(forall|k: int| 0 <= k < r@.len() ==> (#[trigger] r@[k])@ == acc[k].oid);
        let mut sub = self.at.leaf_oids();
        r.append(&mut sub);
        proof {
            acc = acc + self.at.leaves();
        }
        assert(r@.len() == acc.len());
        assert(forall|k: int| 0 <= k < r@.len() ==> (#[trigger] r@[k])@ == acc[k].oid);
        let mut sub = self.ip.leaf_oids();
        r.append(&mut sub);
        proof {
            acc = acc + self.ip.leaves();
        }
        assert(r@.len() == acc.len());
        assert(forall|k: int| 0 <= k < r@.len() ==> (#[trigger] r@[k])@ == acc[k].oid);
        let mut sub = self.icmp.leaf_oids();
        r.append(&mut sub);
        proof {
            acc = acc + self.icmp.leaves();
        }
        assert(r@.len() == acc.len());
        assert(forall|k: int| 0 <= k < r@.len() ==> (#[trigger] r@[k])@ == acc[k].oid);
        let mut sub = self.tcp.leaf_oids();
        r.append(&mut sub);
        proof {
            acc = acc + self.tcp.leaves();
        }
        assert(r@.len() == acc.len());
        assert(forall|k: int| 0 <= k < r@.len() ==> (#[trigger] r@[k])@ == acc[k].oid);
        let mut sub = self.udp.leaf_oids();
        r.append(&mut sub);
        proof {
            acc = acc + self.udp.leaves();
        }
        assert(r@.len() == acc.len());
        assert(forall|k: int| 0 <= k < r@.len() ==> (#[trigger] r@[k])@ == acc[k].oid);
        let mut sub = self.egp.leaf_oids();
        r.append(&mut sub);
        proof {
            acc = acc + self.egp.leaves();
        }
        assert(r@.len() == acc.len());
        assert(forall|k: int| 0 <= k < r@.len() ==> (#[trigger] r@[k])@ == acc[k].oid);
        r.push(self.transmission.get_oid());
        proof {
            acc = acc.push(self.transmission@);
        }
        assert(r@.len() == acc.len());
        assert(forall|k: int| 0 <= k < r@.len() ==> (#[trigger] r@[k])@ == acc[k].oid);
        let mut sub = self.snmp.leaf_oids();
        r.append(&mut sub);
        proof {
            acc = acc + self.snmp.leaves();
        }
        assert(r@.len() == acc.len());
        assert(forall|k: int| 0 <= k < r@.len() ==> (#[trigger] r@[k])@ == acc[k].oid);
        assert(acc =~= self.leaves());
        r
    }
}

impl System {
    /// This is `before` after the walk: every leaf as `after_walk` makes it, the identifiers
    /// unchanged.
    pub open spec fn walked_from(self, before: Self, rs: Seq<WalkResponse>) -> bool {
        &&& self.oid@ == before.oid@
        &&& self.sysDesc@ == before.sysDesc@.after_walk(rs)
        &&& self.sysObjectID@ == before.sysObjectID@.after_walk(rs)
        &&& self.sysUpTime@ == before.sysUpTime@.after_walk(rs)
        &&& self.sysContact@ == before.sysContact@.after_walk(rs)
        &&& self.sysName@ == before.sysName@.after_walk(rs)
        &&& self.sysLocation@ == before.sysLocation@.after_walk(rs)
        &&& self.sysServices@ == before.sysServices@.after_walk(rs)
    }

    /// Takes in the outcomes of the subtree requests, leaf by leaf in declaration order; a failed
    /// or missing outcome leaves that leaf as it was and does not stop the others.
    pub fn walk(&mut self, responses: &Vec<WalkResponse>)
        ensures
            final(self).walked_from(*old(self), responses@),
    {
        let _ = self.sysDesc.walk(responses);
        let _ = self.sysObjectID.walk(responses);
        let _ = self.sysUpTime.walk(responses);
        let _ = self.sysContact.walk(responses);
        let _ = self.sysName.walk(responses);
        let _ = self.sysLocation.walk(responses);
        let _ = self.sysServices.walk(responses);
    }

    /// The identifiers of all leaves, in declaration order: where the subtree requests are rooted.
    pub fn leaf_oids(&self) -> (r: Vec<Vec<u16>>)
        ensures
            r@.len() == self.leaves().len(),
            forall|i: int| 0 <= i < r@.len() ==> (#[trigger] r@[i])@ == self.leaves()[i].oid,
    {
        let mut r: Vec<Vec<u16>> = Vec::new();
        let ghost mut acc: Seq<Leaf> = seq![];
        r.push(self.sysDesc.get_oid());
        proof {
            acc = acc.push(self.sysDesc@);
        }
        assert(r@.len() == acc.len());
        assert(forall|k: int| 0 <= k < r@.len() ==> (#[trigger] r@[k])@ == acc[k].oid);
        r.push(self.sysObjectID.get_oid());
        proof {
            acc = acc.push(self.sysObjectID@);
        }
        assert(r@.len() == acc.len());
        assert(forall|k: int| 0 <= k < r@.len() ==> (#[trigger] r@[k])@ == acc[k].oid);
        r.push(self.sysUpTime.get_oid());
        proof {
            acc = acc.push(self.sysUpTime@);
        }
        assert(r@.len() == acc.len());
        assert(forall|k: int| 0 <= k < r@.len() ==> (#[trigger] r@[k])@ == acc[k].oid);
        r.push(self.sysContact.get_oid());
        proof {
            acc = acc.push(self.sysContact@);
        }
        assert(r@.len() == acc.len());
        assert(forall|k: int| 0 <= k < r@.len() ==> (#[trigger] r@[k])@ == acc[k].oid);
        r.push(self.sysName.get_oid());
        proof {
            acc = acc.push(self.sysName@);
        }
        assert(r@.len() == acc.len());
        assert(forall|k: int| 0 <= k < r@.len() ==> (#[trigger] r@[k])@ == acc[k].oid);
        r.push(self.sysLocation.get_oid());
        proof {
            acc = acc.push(self.sysLocation@);
        }
        assert(r@.len() == acc.len());
        assert(forall|k: int| 0 <= k < r@.len() ==> (#[trigger] r@[k])@ == acc[k].oid);
        r.push(self.sysServices.get_oid());
        proof {
            acc = acc.push(self.sysServices@);
        }
        assert(r@.len() == acc.len());
        assert(forall|k: int| 0 <= k < r@.len() ==> (#[trigger] r@[k])@ == acc[k].oid);
        assert(acc =~= self.leaves());
        r
    }
}

impl Interfaces {
    /// This is `before` after the walk: every leaf as `after_walk` makes it, the identifiers
    /// unchanged.
    pub open spec fn walked_from(self, before: Self, rs: Seq<WalkResponse>) -> bool {
        &&& self.oid@ == before.oid@
        &&& self.ifNumber@ == before.ifNumber@.after_walk(rs)
        &&& self.ifTable.walked_from(before.ifTable, rs)
    }

    /// Takes in the outcomes of the subtree requests, leaf by leaf in declaration order; a failed
    /// or missing outcome leaves that leaf as it was and does not stop the others.
    pub fn walk(&mut self, responses: &Vec<WalkResponse>)
        ensures
            final(self).walked_from(*old(self), responses@),
    {
        let _ = self.ifNumber.walk(responses);
        self.ifTable.walk(responses);
    }

    /// The identifiers of all leaves, in declaration order: where the subtree requests are rooted.
    pub fn leaf_oids(&self) -> (r: Vec<Vec<u16>>)
        ensures
            r@.len() == self.leaves().len(),
            forall|i: int| 0 <= i < r@.len() ==> (#[trigger] r@[i])@ == self.leaves()[i].oid,
    {
        let mut r: Vec<Vec<u16>> = Vec::new();
        let ghost mut acc: Seq<Leaf> = seq![];
        r.push(self.ifNumber.get_oid());
        proof {
            acc = acc.push(self.ifNumber@);
        }
        assert(r@.len() == acc.len());
        assert(forall|k: int| 0 <= k < r@.len() ==> (#[trigger] r@[k])@ == acc[k].oid);
        let mut sub = self.ifTable.leaf_oids();
        r.append(&mut sub);
        proof {
            acc = acc + self.ifTable.leaves();
        }
        assert(r@.len() == acc.len());
        assert(forall|k: int| 0 <= k < r@.len() ==> (#[trigger] r@[k])@ == acc[k].oid);
        assert(acc =~= self.leaves());
        r
    }
}

impl IfTable {
    /// This is `before` after the walk: every leaf as `after_walk` makes it, the identifiers
    /// unchanged.
    pub open spec fn walked_from(self, before: Self, rs: Seq<WalkResponse>) -> bool {
        &&& self.oid@ == before.oid@
        &&& self.ifIndex@ == before.ifIndex@.after_walk(rs)
        &&& self.ifDescr@ == before.ifDescr@.after_walk(rs)
        &&& self.ifType@ == before.ifType@.after_walk(rs)
        &&& self.ifMtu@ == before.ifMtu@.after_walk(rs)
        &&& self.ifSpeed@ == before.ifSpeed@.after_walk(rs)
        &&& self.ifPhysAddress@ == before.ifPhysAddress@.after_walk(rs)
        &&& self.ifAdminStatus@ == before.ifAdminStatus@.after_walk(rs)
        &&& self.ifOperStatus@ == before.ifOperStatus@.after_walk(rs)
        &&& self.ifLastChange@ == before.ifLastChange@.after_walk(rs)
        &&& self.ifInOctets@ == before.ifInOctets@.after_walk(rs)
        &&& self.ifInUcastPkts@ == before.ifInUcastPkts@.after_walk(rs)
        &&& self.ifInNUcastPkts@ == before.ifInNUcastPkts@.after_walk(rs)
        &&& self.ifInDiscards@ == before.ifInDiscards@.after_walk(rs)
        &&& self.ifInErrors@ == before.ifInErrors@.after_walk(rs)
        &&& self.ifInUnknownProtos@ == before.ifInUnknownProtos@.after_walk(rs)
        &&& self.ifOutOctets@ == before.ifOutOctets@.after_walk(rs)
        &&& self.ifOutUcastPkts@ == before.ifOutUcastPkts@.after_walk(rs)
        &&& self.ifOutNUcastPkts@ == before.ifOutNUcastPkts@.after_walk(rs)
        &&& self.ifOutDiscards@ == before.ifOutDiscards@.after_walk(rs)
        &&& self.ifOutErrors@ == before.ifOutErrors@.after_walk(rs)
        &&& self.ifOutQLen@ == before.ifOutQLen@.after_walk(rs)
        &&& self.ifSpecific@ == before.ifSpecific@.after_walk(rs)
    }

    /// Takes in the outcomes of the subtree requests, leaf by leaf in declaration order; a failed
    /// or missing outcome leaves that leaf as it was and does not stop the others.
    pub fn walk(&mut self, responses: &Vec<WalkResponse>)
        ensures
            final(self).walked_from(*old(self), responses@),
    {
        let _ = self.ifIndex.walk(responses);
        let _ = self.ifDescr.walk(responses);
        let _ = self.ifType.walk(responses);
        let _ = self.ifMtu.walk(responses);
        let _ = self.ifSpeed.walk(responses);
        let _ = self.ifPhysAddress.walk(responses);
        let _ = self.ifAdminStatus.walk(responses);
        let _ = self.ifOperStatus.walk(responses);
        let _ = self.ifLastChange.walk(responses);
        let _ = self.ifInOctets.walk(responses);
        let _ = self.ifInUcastPkts.walk(responses);
        let _ = self.ifInNUcastPkts.walk(responses);
        let _ = self.ifInDiscards.walk(responses);
        let _ = self.ifInErrors.walk(responses);
        let _ = self.ifInUnknownProtos.walk(responses);
        let _ = self.ifOutOctets.walk(responses);
        let _ = self.ifOutUcastPkts.walk(responses);
        let _ = self.ifOutNUcastPkts.walk(responses);
        let _ = self.ifOutDiscards.walk(responses);
        let _ = self.ifOutErrors.walk(responses);
        let _ = self.ifOutQLen.walk(responses);
        let _ = self.ifSpecific.walk(responses);
    }

    /// The identifiers of all leaves, in declaration order: where the subtree requests are rooted.
    pub fn leaf_oids(&self) -> (r: Vec<Vec<u16>>)
        ensures
            r@.len() == self.leaves().len(),
            forall|i: int| 0 <= i < r@.len() ==> (#[trigger] r@[i])@ == self.leaves()[i].oid,
    {
        let mut r: Vec<Vec<u16>> = Vec::new();
        let ghost mut acc: Seq<Leaf> = seq![];
        r.push(self.ifIndex.get_oid());
        proof {
            acc = acc.push(self.ifIndex@);
        }
        assert(r@.len() == acc.len());
        assert(forall|k: int| 0 <= k < r@.len() ==> (#[trigger] r@[k])@ == acc[k].oid);
        r.push(self.ifDescr.get_oid());
        proof {
            acc = acc.push(self.ifDescr@);
        }
        assert(r@.len() == acc.len());
        assert(forall|k: int| 0 <= k < r@.len() ==> (#[trigger] r@[k])@ == acc[k].oid);
        r.push(self.ifType.get_oid());
        proof {
            acc = acc.push(self.ifType@);
        }
        assert(r@.len() == acc.len());
        assert(forall|k: int| 0 <= k < r@.len() ==> (#[trigger] r@[k])@ == acc[k].oid);
        r.push(self.ifMtu.get_oid());
        proof {
            acc = acc.push(self.ifMtu@);
        }
        assert(r@.len() == acc.len());
        assert(forall|k: int| 0 <= k < r@.len() ==> (#[trigger] r@[k])@ == acc[k].oid);
        r.push(self.ifSpeed.get_oid());
        proof {
            acc = acc.push(self.ifSpeed@);
        }
        assert(r@.len() == acc.len());
        assert(forall|k: int| 0 <= k < r@.len() ==> (#[trigger] r@[k])@ == acc[k].oid);
        r.push(self.ifPhysAddress.get_oid());
        proof {
            acc = acc.push(self.ifPhysAddress@);
        }
        assert(r@.len() == acc.len());
        assert(forall|k: int| 0 <= k < r@.len() ==> (#[trigger] r@[k])@ == acc[k].oid);
        r.push(self.ifAdminStatus.get_oid());
        proof {
            acc = acc.push(self.ifAdminStatus@);
        }
        assert(r@.len() == acc.len());
        assert(forall|k: int| 0 <= k < r@.len() ==> (#[trigger] r@[k])@ == acc[k].oid);
        r.push(self.ifOperStatus.get_oid());
        proof {
            acc = acc.push(self.ifOperStatus@);
        }
        assert(r@.len() == acc.len());
        assert(forall|k: int| 0 <= k < r@.len() ==> (#[trigger] r@[k])@ == acc[k].oid);
        r.push(self.ifLastChange.get_oid());
        proof {
            acc = acc.push(self.ifLastChange@);
        }
        assert(r@.len() == acc.len());
        assert(forall|k: int| 0 <= k < r@.len() ==> (#[trigger] r@[k])@ == acc[k].oid);
        r.push(self.ifInOctets.get_oid());
        proof {
            acc = acc.push(self.ifInOctets@);
        }
        assert(r@.len() == acc.len());
        assert(forall|k: int| 0 <= k < r@.len() ==> (#[trigger] r@[k])@ == acc[k].oid);
        r.push(self.ifInUcastPkts.get_oid());
        proof {
            acc = acc.push(self.ifInUcastPkts@);
        }
        assert(r@.len() == acc.len());
        assert(forall|k: int| 0 <= k < r@.len() ==> (#[trigger] r@[k])@ == acc[k].oid);
        r.push(self.ifInNUcastPkts.get_oid());
        proof {
            acc = acc.push(self.ifInNUcastPkts@);
        }
        assert(r@.len() == acc.len());
        assert(forall|k: int| 0 <= k < r@.len() ==> (#[trigger] r@[k])@ == acc[k].oid);
        r.push(self.ifInDiscards.get_oid());
        proof {
            acc = acc.push(self.ifInDiscards@);
        }
        assert(r@.len() == acc.len());
        assert(forall|k: int| 0 <= k < r@.len() ==> (#[trigger] r@[k])@ == acc[k].oid);
        r.push(self.ifInErrors.get_oid());
        proof {
            acc = acc.push(self.ifInErrors@);
        }
        assert(r@.len() == acc.len());
        assert(forall|k: int| 0 <= k < r@.len() ==> (#[trigger] r@[k])@ == acc[k].oid);
        r.push(self.ifInUnknownProtos.get_oid());
        proof {
            acc = acc.push(self.ifInUnknownProtos@);
        }
        assert(r@.len() == acc.len());
        assert(forall|k: int| 0 <= k < r@.len() ==> (#[trigger] r@[k])@ == acc[k].oid);
        r.push(self.ifOutOctets.get_oid());
        proof {
            acc = acc.push(self.ifOutOctets@);
        }
        assert(r@.len() == acc.len());
        assert(forall|k: int| 0 <= k < r@.len() ==> (#[trigger] r@[k])@ == acc[k].oid);
        r.push(self.ifOutUcastPkts.get_oid());
        proof {
            acc = acc.push(self.ifOutUcastPkts@);
        }
        assert(r@.len() == acc.len());
        assert(forall|k: int| 0 <= k < r@.len() ==> (#[trigger] r@[k])@ == acc[k].oid);
        r.push(self.ifOutNUcastPkts.get_oid());
        proof {
            acc = acc.push(self.ifOutNUcastPkts@);
        }
        assert(r@.len() == acc.len());
        assert(forall|k: int| 0 <= k < r@.len() ==> (#[trigger] r@[k])@ == acc[k].oid);
        r.push(self.ifOutDiscards.get_oid());
        proof {
            acc = acc.push(self.ifOutDiscards@);
        }
        assert(r@.len() == acc.len());
        assert(forall|k: int| 0 <= k < r@.len() ==> (#[trigger] r@[k])@ == acc[k].oid);
        r.push(self.ifOutErrors.get_oid());
        proof {
            acc = acc.push(self.ifOutErrors@);
        }
        assert(r@.len() == acc.len());
        assert(forall|k: int| 0 <= k < r@.len() ==> (#[trigger] r@[k])@ == acc[k].oid);
        r.push(self.ifOutQLen.get_oid());
        proof {
            acc = acc.push(self.ifOutQLen@);
        }
        assert(r@.len() == acc.len());
        assert(forall|k: int| 0 <= k < r@.len() ==> (#[trigger] r@[k])@ == acc[k].oid);
        r.push(self.ifSpecific.get_oid());
        proof {
            acc = acc.push(self.ifSpecific@);
        }
        assert(r@.len() == acc.len());
        assert(forall|k: int| 0 <= k < r@.len() ==> (#[trigger] r@[k])@ == acc[k].oid);
        assert(acc =~= self.leaves());
        r
    }
}

impl At {
    /// This is `before` after the walk: every leaf as `after_walk` makes it, the identifiers
    /// unchanged.
    pub open spec fn walked_from(self, before: Self, rs: Seq<WalkResponse>) -> bool {
        &&& self.oid@ == before.oid@
        &&& self.atTable.walked_from(before.atTable, rs)
    }

    /// Takes in the outcomes of the subtree requests, leaf by leaf in declaration order; a failed
    /// or missing outcome leaves that leaf as it was and does not stop the others.
    pub fn walk(&mut self, responses: &Vec<WalkResponse>)
        ensures
            final(self).walked_from(*old(self), responses@),
    {
        self.atTable.walk(responses);
    }

    /// The identifiers of all leaves, in declaration order: where the subtree requests are rooted.
    pub fn leaf_oids(&self) -> (r: Vec<Vec<u16>>)
        ensures
            r@.len() == self.leaves().len(),
            forall|i: int| 0 <= i < r@.len() ==> (#[trigger] r@[i])@ == self.leaves()[i].oid,
    {
        let mut r: Vec<Vec<u16>> = Vec::new();
        let ghost mut acc: Seq<Leaf> = seq![];
        let mut sub = self.atTable.leaf_oids();
        r.append(&mut sub);
        proof {
            acc = acc + self.atTable.leaves();
        }
        assert(r@.len() == acc.len());
        assert(forall|k: int| 0 <= k < r@.len() ==> (#[trigger] r@[k])@ == acc[k].oid);
        assert(acc =~= self.leaves());
        r
    }
}

impl AtTable {
    /// This is `before` after the walk: every leaf as `after_walk` makes it, the identifiers
    /// unchanged.
    pub open spec fn walked_from(self, before: Self, rs: Seq<WalkResponse>) -> bool {
        &&& self.oid@ == before.oid@
        &&& self.atIfIndex@ == before.atIfIndex@.after_walk(rs)
        &&& self.atPhysAddress@ == before.atPhysAddress@.after_walk(rs)
        &&& self.atNetAddress@ == before.atNetAddress@.after_walk(rs)
    }

    /// Takes in the outcomes of the subtree requests, leaf by leaf in declaration order; a failed
    /// or missing outcome leaves that leaf as it was and does not stop the others.
    pub fn walk(&mut self, responses: &Vec<WalkResponse>)
        ensures
            final(self).walked_from(*old(self), responses@),
    {
        let _ = self.atIfIndex.walk(responses);
        let _ = self.atPhysAddress.walk(responses);
        let _ = self.atNetAddress.walk(responses);
    }

    /// The identifiers of all leaves, in declaration order: where the subtree requests are rooted.
    pub fn leaf_oids(&self) -> (r: Vec<Vec<u16>>)
        ensures
            r@.len() == self.leaves().len(),
            forall|i: int| 0 <= i < r@.len() ==> (#[trigger] r@[i])@ == self.leaves()[i].oid,
    {
        let mut r: Vec<Vec<u16>> = Vec::new();
        let ghost mut acc: Seq<Leaf> = seq![];
        r.push(self.atIfIndex.get_oid());
        proof {
            acc = acc.push(self.atIfIndex@);
        }
        assert(r@.len() == acc.len());
        assert(forall|k: int| 0 <= k < r@.len() ==> (#[trigger] r@[k])@ == acc[k].oid);
        r.push(self.atPhysAddress.get_oid());
        proof {
            acc = acc.push(self.atPhysAddress@);
        }
        assert(r@.len() == acc.len());
        assert(forall|k: int| 0 <= k < r@.len() ==> (#[trigger] r@[k])@ == acc[k].oid);
        r.push(self.atNetAddress.get_oid());
        proof {
            acc = acc.push(self.atNetAddress@);
        }
        assert(r@.len() == acc.len());
        assert(forall|k: int| 0 <= k < r@.len() ==> (#[trigger] r@[k])@ == acc[k].oid);
        assert(acc =~= self.leaves());
        r
    }
}

impl Ip {
    /// This is `before` after the walk: every leaf as `after_walk` makes it, the identifiers
    /// unchanged.
    pub open spec fn walked_from(self, before: Self, rs: Seq<WalkResponse>) -> bool {
        &&& self.oid@ == before.oid@
        &&& self.ipForwarding@ == before.ipForwarding@.after_walk(rs)
        &&& self.ipDefaultTTL@ == before.ipDefaultTTL@.after_walk(rs)
        &&& self.ipInReceives@ == before.ipInReceives@.after_walk(rs)
        &&& self.ipInHdrErrors@ == before.ipInHdrErrors@.after_walk(rs)
        &&& self.ipInAddrErrors@ == before.ipInAddrErrors@.after_walk(rs)
        &&& self.ipForwDatagrams@ == before.ipForwDatagrams@.after_walk(rs)
        &&& self.ipInUnknownProtos@ == before.ipInUnknownProtos@.after_walk(rs)
        &&& self.ipInDiscards@ == before.ipInDiscards@.after_walk(rs)
        &&& self.ipInDelivers@ == before.ipInDelivers@.after_walk(rs)
        &&& self.ipOutRequests@ == before.ipOutRequests@.after_walk(rs)
        &&& self.ipOutDiscards@ == before.ipOutDiscards@.after_walk(rs)
        &&& self.ipOutNoRoutes@ == before.ipOutNoRoutes@.after_walk(rs)
        &&& self.ipReasmTimeout@ == before.ipReasmTimeout@.after_walk(rs)
        &&& self.ipReasmReqds@ == before.ipReasmReqds@.after_walk(rs)
        &&& self.ipReasmOKs@ == before.ipReasmOKs@.after_walk(rs)
        &&& self.ipReasmFails@ == before.ipReasmFails@.after_walk(rs)
        &&& self.ipFragOKs@ == before.ipFragOKs@.after_walk(rs)
        &&& self.ipFragFails@ == before.ipFragFails@.after_walk(rs)
        &&& self.ipFragCreates@ == before.ipFragCreates@.after_walk(rs)
        &&& self.ipAddrTable.walked_from(before.ipAddrTable, rs)
        &&& self.ipRouteTable.walked_from(before.ipRouteTable, rs)
        &&& self.ipNetToMediaTable.walked_from(before.ipNetToMediaTable, rs)
        &&& self.ipRoutingDiscards@ == before.ipRoutingDiscards@.after_walk(rs)
    }

    /// Takes in the outcomes of the subtree requests, leaf by leaf in declaration order; a failed
    /// or missing outcome leaves that leaf as it was and does not stop the others.
    pub fn walk(&mut self, responses: &Vec<WalkResponse>)
        ensures
            final(self).walked_from(*old(self), responses@),
    {
        let _ = self.ipForwarding.walk(responses);
        let _ = self.ipDefaultTTL.walk(responses);
        let _ = self.ipInReceives.walk(responses);
        let _ = self.ipInHdrErrors.walk(responses);
        let _ = self.ipInAddrErrors.walk(responses);
        let _ = self.ipForwDatagrams.walk(responses);
        let _ = self.ipInUnknownProtos.walk(responses);
        let _ = self.ipInDiscards.walk(responses);
        let _ = self.ipInDelivers.walk(responses);
        let _ = self.ipOutRequests.walk(responses);
        let _ = self.ipOutDiscards.walk(responses);
        let _ = self.ipOutNoRoutes.walk(responses);
        let _ = self.ipReasmTimeout.walk(responses);
        let _ = self.ipReasmReqds.walk(responses);
        let _ = self.ipReasmOKs.walk(responses);
        let _ = self.ipReasmFails.walk(responses);
        let _ = self.ipFragOKs.walk(responses);
        let _ = self.ipFragFails.walk(responses);
        let _ = self.ipFragCreates.walk(responses);
        self.ipAddrTable.walk(responses);
        self.ipRouteTable.walk(responses);
        self.ipNetToMediaTable.walk(responses);
        let _ = self.ipRoutingDiscards.walk(responses);
    }

    /// The identifiers of all leaves, in declaration order: where the subtree requests are rooted.
    pub fn leaf_oids(&self) -> (r: Vec<Vec<u16>>)
        ensures
            r@.len() == self.leaves().len(),
            forall|i: int| 0 <= i < r@.len() ==> (#[trigger] r@[i])@ == self.leaves()[i].oid,
    {
        let mut r: Vec<Vec<u16>> = Vec::new();
        let ghost mut acc: Seq<Leaf> = seq![];
        r.push(self.ipForwarding.get_oid());
        proof {
            acc = acc.push(self.ipForwarding@);
        }
        assert(r@.len() == acc.len());
        assert(forall|k: int| 0 <= k < r@.len() ==> (#[trigger] r@[k])@ == acc[k].oid);
        r.push(self.ipDefaultTTL.get_oid());
        proof {
            acc = acc.push(self.ipDefaultTTL@);
        }
        assert(r@.len() == acc.len());
        assert(forall|k: int| 0 <= k < r@.len() ==> (#[trigger] r@[k])@ == acc[k].oid);
        r.push(self.ipInReceives.get_oid());
        proof {
            acc = acc.push(self.ipInReceives@);
        }
        assert(r@.len() == acc.len());
        assert(forall|k: int| 0 <= k < r@.len() ==> (#[trigger] r@[k])@ == acc[k].oid);
        r.push(self.ipInHdrErrors.get_oid());
        proof {
            acc = acc.push(self.ipInHdrErrors@);
        }
        assert(r@.len() == acc.len());
        assert(forall|k: int| 0 <= k < r@.len() ==> (#[trigger] r@[k])@ == acc[k].oid);
        r.push(self.ipInAddrErrors.get_oid());
        proof {
            acc = acc.push(self.ipInAddrErrors@);
        }
        assert(r@.len() == acc.len());
        assert(forall|k: int| 0 <= k < r@.len() ==> (#[trigger] r@[k])@ == acc[k].oid);
        r.push(self.ipForwDatagrams.get_oid());
        proof {
            acc = acc.push(self.ipForwDatagrams@);
        }
        assert(r@.len() == acc.len());
        assert(forall|k: int| 0 <= k < r@.len() ==> (#[trigger] r@[k])@ == acc[k].oid);
        r.push(self.ipInUnknownProtos.get_oid());
        proof {
            acc = acc.push(self.ipInUnknownProtos@);
        }
        assert(r@.len() == acc.len());
        assert(forall|k: int| 0 <= k < r@.len() ==> (#[trigger] r@[k])@ == acc[k].oid);
        r.push(self.ipInDiscards.get_oid());
        proof {
            acc = acc.push(self.ipInDiscards@);
        }
        assert(r@.len() == acc.len());
        assert(forall|k: int| 0 <= k < r@.len() ==> (#[trigger] r@[k])@ == acc[k].oid);
        r.push(self.ipInDelivers.get_oid());
        proof {
            acc = acc.push(self.ipInDelivers@);
        }
        assert(r@.len() == acc.len());
        assert(forall|k: int| 0 <= k < r@.len() ==> (#[trigger] r@[k])@ == acc[k].oid);
        r.push(self.ipOutRequests.get_oid());
        proof {
            acc = acc.push(self.ipOutRequests@);
        }
        assert(r@.len() == acc.len());
        assert(forall|k: int| 0 <= k < r@.len() ==> (#[trigger] r@[k])@ == acc[k].oid);
        r.push(self.ipOutDiscards.get_oid());
        proof {
            acc = acc.push(self.ipOutDiscards@);
        }
        assert(r@.len() == acc.len());
        assert(forall|k: int| 0 <= k < r@.len() ==> (#[trigger] r@[k])@ == acc[k].oid);
        r.push(self.ipOutNoRoutes.get_oid());
        proof {
            acc = acc.push(self.ipOutNoRoutes@);
        }
        assert(r@.len() == acc.len());
        assert(forall|k: int| 0 <= k < r@.len() ==> (#[trigger] r@[k])@ == acc[k].oid);
        r.push(self.ipReasmTimeout.get_oid());
        proof {
            acc = acc.push(self.ipReasmTimeout@);
        }
        assert(r@.len() == acc.len());
        assert(forall|k: int| 0 <= k < r@.len() ==> (#[trigger] r@[k])@ == acc[k].oid);
        r.push(self.ipReasmReqds.get_oid());
        proof {
            acc = acc.push(self.ipReasmReqds@);
        }
        assert(r@.len() == acc.len());
        assert(forall|k: int| 0 <= k < r@.len() ==> (#[trigger] r@[k])@ == acc[k].oid);
        r.push(self.ipReasmOKs.get_oid());
        proof {
            acc = acc.push(self.ipReasmOKs@);
        }
        assert(r@.len() == acc.len());
        assert(forall|k: int| 0 <= k < r@.len() ==> (#[trigger] r@[k])@ == acc[k].oid);
        r.push(self.ipReasmFails.get_oid());
        proof {
            acc = acc.push(self.ipReasmFails@);
        }
        assert(r@.len() == acc.len());
        assert(forall|k: int| 0 <= k < r@.len() ==> (#[trigger] r@[k])@ == acc[k].oid);
        r.push(self.ipFragOKs.get_oid());
        proof {
            acc = acc.push(self.ipFragOKs@);
        }
        assert(r@.len() == acc.len());
        assert(forall|k: int| 0 <= k < r@.len() ==> (#[trigger] r@[k])@ == acc[k].oid);
        r.push(self.ipFragFails.get_oid());
        proof {
            acc = acc.push(self.ipFragFails@);
        }
        assert(r@.len() == acc.len());
        assert(forall|k: int| 0 <= k < r@.len() ==> (#[trigger] r@[k])@ == acc[k].oid);
        r.push(self.ipFragCreates.get_oid());
        proof {
            acc = acc.push(self.ipFragCreates@);
        }
        assert(r@.len() == acc.len());
        assert(forall|k: int| 0 <= k < r@.len() ==> (#[trigger] r@[k])@ == acc[k].oid);
        let mut sub = self.ipAddrTable.leaf_oids();
        r.append(&mut sub);
        proof {
            acc = acc + self.ipAddrTable.leaves();
        }
        assert(r@.len() == acc.len());
        assert(forall|k: int| 0 <= k < r@.len() ==> (#[trigger] r@[k])@ == acc[k].oid);
        let mut sub = self.ipRouteTable.leaf_oids();
        r.append(&mut sub);
        proof {
            acc = acc + self.ipRouteTable.leaves();
        }
        assert(r@.len() == acc.len());
        assert(forall|k: int| 0 <= k < r@.len() ==> (#[trigger] r@[k])@ == acc[k].oid);
        let mut sub = self.ipNetToMediaTable.leaf_oids();
        r.append(&mut sub);
        proof {
            acc = acc + self.ipNetToMediaTable.leaves();
        }
        assert(r@.len() == acc.len());
        assert(forall|k: int| 0 <= k < r@.len() ==> (#[trigger] r@[k])@ == acc[k].oid);
        r.push(self.ipRoutingDiscards.get_oid());
        proof {
            acc = acc.push(self.ipRoutingDiscards@);
        }
        assert(r@.len() == acc.len());
        assert(forall|k: int| 0 <= k < r@.len() ==> (#[trigger] r@[k])@ == acc[k].oid);
        assert(acc =~= self.leaves());
        r
    }
}

impl IpAddrTable {
    /// This is `before` after the walk: every leaf as `after_walk` makes it, the identifiers
    /// unchanged.
    pub open spec fn walked_from(self, before: Self, rs: Seq<WalkResponse>) -> bool {
        &&& self.oid@ == before.oid@
        &&& self.ipAdEntAddr@ == before.ipAdEntAddr@.after_walk(rs)
        &&& self.ipAdEntIfIndex@ == before.ipAdEntIfIndex@.after_walk(rs)
        &&& self.ipAdEntNetMask@ == before.ipAdEntNetMask@.after_walk(rs)
        &&& self.ipAdEntBcastAddr@ == before.ipAdEntBcastAddr@.after_walk(rs)
        &&& self.ipAdEntReasmMaxSize@ == before.ipAdEntReasmMaxSize@.after_walk(rs)
    }

    /// Takes in the outcomes of the subtree requests, leaf by leaf in declaration order; a failed
    /// or missing outcome leaves that leaf as it was and does not stop the others.
    pub fn walk(&mut self, responses: &Vec<WalkResponse>)
        ensures
            final(self).walked_from(*old(self), responses@),
    {
        let _ = self.ipAdEntAddr.walk(responses);
        let _ = self.ipAdEntIfIndex.walk(responses);
        let _ = self.ipAdEntNetMask.walk(responses);
        let _ = self.ipAdEntBcastAddr.walk(responses);
        let _ = self.ipAdEntReasmMaxSize.walk(responses);
    }

    /// The identifiers of all leaves, in declaration order: where the subtree requests are rooted.
    pub fn leaf_oids(&self) -> (r: Vec<Vec<u16>>)
        ensures
            r@.len() == self.leaves().len(),
            forall|i: int| 0 <= i < r@.len() ==> (#[trigger] r@[i])@ == self.leaves()[i].oid,
    {
        let mut r: Vec<Vec<u16>> = Vec::new();
        let ghost mut acc: Seq<Leaf> = seq![];
        r.push(self.ipAdEntAddr.get_oid());
        proof {
            acc = acc.push(self.ipAdEntAddr@);
        }
        assert(r@.len() == acc.len());
        assert(forall|k: int| 0 <= k < r@.len() ==> (#[trigger] r@[k])@ == acc[k].oid);
        r.push(self.ipAdEntIfIndex.get_oid());
        proof {
            acc = acc.push(self.ipAdEntIfIndex@);
        }
        assert(r@.len() == acc.len());
        assert(forall|k: int| 0 <= k < r@.len() ==> (#[trigger] r@[k])@ == acc[k].oid);
        r.push(self.ipAdEntNetMask.get_oid());
        proof {
            acc = acc.push(self.ipAdEntNetMask@);
        }
        assert(r@.len() == acc.len());
        assert(forall|k: int| 0 <= k < r@.len() ==> (#[trigger] r@[k])@ == acc[k].oid);
        r.push(self.ipAdEntBcastAddr.get_oid());
        proof {
            acc = acc.push(self.ipAdEntBcastAddr@);
        }
        assert(r@.len() == acc.len());
        assert(forall|k: int| 0 <= k < r@.len() ==> (#[trigger] r@[k])@ == acc[k].oid);
        r.push(self.ipAdEntReasmMaxSize.get_oid());
        proof {
            acc = acc.push(self.ipAdEntReasmMaxSize@);
        }
        assert(r@.len() == acc.len());
        assert(forall|k: int| 0 <= k < r@.len() ==> (#[trigger] r@[k])@ == acc[k].oid);
        assert(acc =~= self.leaves());
        r
    }
}

impl IpRouteTable {
    /// This is `before` after the walk: every leaf as `after_walk` makes it, the identifiers
    /// unchanged.
    pub open spec fn walked_from(self, before: Self, rs: Seq<WalkResponse>) -> bool {
        &&& self.oid@ == before.oid@
        &&& self.ipRouteDest@ == before.ipRouteDest@.after_walk(rs)
        &&& self.ipRouteIfIndex@ == before.ipRouteIfIndex@.after_walk(rs)
        &&& self.ipRouteMetric1@ == before.ipRouteMetric1@.after_walk(rs)
        &&& self.ipRouteMetric2@ == before.ipRouteMetric2@.after_walk(rs)
        &&& self.ipRouteMetric3@ == before.ipRouteMetric3@.after_walk(rs)
        &&& self.ipRouteMetric4@ == before.ipRouteMetric4@.after_walk(rs)
        &&& self.ipRouteNextHop@ == before.ipRouteNextHop@.after_walk(rs)
        &&& self.ipRouteType@ == before.ipRouteType@.after_walk(rs)
        &&& self.ipRouteProto@ == before.ipRouteProto@.after_walk(rs)
        &&& self.ipRouteAge@ == before.ipRouteAge@.after_walk(rs)
        &&& self.ipRouteMask@ == before.ipRouteMask@.after_walk(rs)
        &&& self.ipRouteMetric5@ == before.ipRouteMetric5@.after_walk(rs)
        &&& self.ipRouteInfo@ == before.ipRouteInfo@.after_walk(rs)
    }

    /// Takes in the outcomes of the subtree requests, leaf by leaf in declaration order; a failed
    /// or missing outcome leaves that leaf as it was and does not stop the others.
    pub fn walk(&mut self, responses: &Vec<WalkResponse>)
        ensures
            final(self).walked_from(*old(self), responses@),
    {
        let _ = self.ipRouteDest.walk(responses);
        let _ = self.ipRouteIfIndex.walk(responses);
        let _ = self.ipRouteMetric1.walk(responses);
        let _ = self.ipRouteMetric2.walk(responses);
        let _ = self.ipRouteMetric3.walk(responses);
        let _ = self.ipRouteMetric4.walk(responses);
        let _ = self.ipRouteNextHop.walk(responses);
        let _ = self.ipRouteType.walk(responses);
        let _ = self.ipRouteProto.walk(responses);
        let _ = self.ipRouteAge.walk(responses);
        let _ = self.ipRouteMask.walk(responses);
        let _ = self.ipRouteMetric5.walk(responses);
        let _ = self.ipRouteInfo.walk(responses);
    }

    /// The identifiers of all leaves, in declaration order: where the subtree requests are rooted.
    pub fn leaf_oids(&self) -> (r: Vec<Vec<u16>>)
        ensures
            r@.len() == self.leaves().len(),
            forall|i: int| 0 <= i < r@.len() ==> (#[trigger] r@[i])@ == self.leaves()[i].oid,
    {
        let mut r: Vec<Vec<u16>> = Vec::new();
        let ghost mut acc: Seq<Leaf> = seq![];
        r.push(self.ipRouteDest.get_oid());
        proof {
            acc = acc.push(self.ipRouteDest@);
        }
        assert(r@.len() == acc.len());
        assert(forall|k: int| 0 <= k < r@.len() ==> (#[trigger] r@[k])@ == acc[k].oid);
        r.push(self.ipRouteIfIndex.get_oid());
        proof {
            acc = acc.push(self.ipRouteIfIndex@);
        }
        assert(r@.len() == acc.len());
        assert(forall|k: int| 0 <= k < r@.len() ==> (#[trigger] r@[k])@ == acc[k].oid);
        r.push(self.ipRouteMetric1.get_oid());
        proof {
            acc = acc.push(self.ipRouteMetric1@);
        }
        assert(r@.len() == acc.len());
        assert(forall|k: int| 0 <= k < r@.len() ==> (#[trigger] r@[k])@ == acc[k].oid);
        r.push(self.ipRouteMetric2.get_oid());
        proof {
            acc = acc.push(self.ipRouteMetric2@);
        }
        assert(r@.len() == acc.len());
        assert(forall|k: int| 0 <= k < r@.len() ==> (#[trigger] r@[k])@ == acc[k].oid);
        r.push(self.ipRouteMetric3.get_oid());
        proof {
            acc = acc.push(self.ipRouteMetric3@);
        }
        assert(r@.len() == acc.len());
        assert(forall|k: int| 0 <= k < r@.len() ==> (#[trigger] r@[k])@ == acc[k].oid);
        r.push(self.ipRouteMetric4.get_oid());
        proof {
            acc = acc.push(self.ipRouteMetric4@);
        }
        assert(r@.len() == acc.len());
        assert(forall|k: int| 0 <= k < r@.len() ==> (#[trigger] r@[k])@ == acc[k].oid);
        r.push(self.ipRouteNextHop.get_oid());
        proof {
            acc = acc.push(self.ipRouteNextHop@);
        }
        assert(r@.len() == acc.len());
        assert(forall|k: int| 0 <= k < r@.len() ==> (#[trigger] r@[k])@ == acc[k].oid);
        r.push(self.ipRouteType.get_oid());
        proof {
            acc = acc.push(self.ipRouteType@);
        }
        assert(r@.len() == acc.len());
        assert(forall|k: int| 0 <= k < r@.len() ==> (#[trigger] r@[k])@ == acc[k].oid);
        r.push(self.ipRouteProto.get_oid());
        proof {
            acc = acc.push(self.ipRouteProto@);
        }
        assert(r@.len() == acc.len());
        assert(forall|k: int| 0 <= k < r@.len() ==> (#[trigger] r@[k])@ == acc[k].oid);
        r.push(self.ipRouteAge.get_oid());
        proof {
            acc = acc.push(self.ipRouteAge@);
        }
        assert(r@.len() == acc.len());
        assert(forall|k: int| 0 <= k < r@.len() ==> (#[trigger] r@[k])@ == acc[k].oid);
        r.push(self.ipRouteMask.get_oid());
        proof {
            acc = acc.push(self.ipRouteMask@);
        }
        assert(r@.len() == acc.len());
        assert(forall|k: int| 0 <= k < r@.len() ==> (#[trigger] r@[k])@ == acc[k].oid);
        r.push(self.ipRouteMetric5.get_oid());
        proof {
            acc = acc.push(self.ipRouteMetric5@);
        }
        assert(r@.len() == acc.len());
        assert(forall|k: int| 0 <= k < r@.len() ==> (#[trigger] r@[k])@ == acc[k].oid);
        r.push(self.ipRouteInfo.get_oid());
        proof {
            acc = acc.push(self.ipRouteInfo@);
        }
        assert(r@.len() == acc.len());
        assert(forall|k: int| 0 <= k < r@.len() ==> (#[trigger] r@[k])@ == acc[k].oid);
        assert(acc =~= self.leaves());
        r
    }
}

impl IpNetToMediaTable {
    /// This is `before` after the walk: every leaf as `after_walk` makes it, the identifiers
    /// unchanged.
    pub open spec fn walked_from(self, before: Self, rs: Seq<WalkResponse>) -> bool {
        &&& self.oid@ == before.oid@
        &&& self.ipNetToMediaIfIndex@ == before.ipNetToMediaIfIndex@.after_walk(rs)
        &&& self.ipNetToMediaPhysAddress@ == before.ipNetToMediaPhysAddress@.after_walk(rs)
        &&& self.ipNetToMediaNetAddress@ == before.ipNetToMediaNetAddress@.after_walk(rs)
        &&& self.ipNetToMediaType@ == before.ipNetToMediaType@.after_walk(rs)
    }

    /// Takes in the outcomes of the subtree requests, leaf by leaf in declaration order; a failed
    /// or missing outcome leaves that leaf as it was and does not stop the others.
    pub fn walk(&mut self, responses: &Vec<WalkResponse>)
        ensures
            final(self).walked_from(*old(self), responses@),
    {
        let _ = self.ipNetToMediaIfIndex.walk(responses);
        let _ = self.ipNetToMediaPhysAddress.walk(responses);
        let _ = self.ipNetToMediaNetAddress.walk(responses);
        let _ = self.ipNetToMediaType.walk(responses);
    }

    /// The identifiers of all leaves, in declaration order: where the subtree requests are rooted.
    pub fn leaf_oids(&self) -> (r: Vec<Vec<u16>>)
        ensures
            r@.len() == self.leaves().len(),
            forall|i: int| 0 <= i < r@.len() ==> (#[trigger] r@[i])@ == self.leaves()[i].oid,
    {
        let mut r: Vec<Vec<u16>> = Vec::new();
        let ghost mut acc: Seq<Leaf> = seq![];
        r.push(self.ipNetToMediaIfIndex.get_oid());
        proof {
            acc = acc.push(self.ipNetToMediaIfIndex@);
        }
        assert(r@.len() == acc.len());
        assert(forall|k: int| 0 <= k < r@.len() ==> (#[trigger] r@[k])@ == acc[k].oid);
        r.push(self.ipNetToMediaPhysAddress.get_oid());
        proof {
            acc = acc.push(self.ipNetToMediaPhysAddress@);
        }
        assert(r@.len() == acc.len());
        assert(forall|k: int| 0 <= k < r@.len() ==> (#[trigger] r@[k])@ == acc[k].oid);
        r.push(self.ipNetToMediaNetAddress.get_oid());
        proof {
            acc = acc.push(self.ipNetToMediaNetAddress@);
        }
        assert(r@.len() == acc.len());
        assert(forall|k: int| 0 <= k < r@.len() ==> (#[trigger] r@[k])@ == acc[k].oid);
        r.push(self.ipNetToMediaType.get_oid());
        proof {
            acc = acc.push(self.ipNetToMediaType@);
        }
        assert(r@.len() == acc.len());
        assert(forall|k: int| 0 <= k < r@.len() ==> (#[trigger] r@[k])@ == acc[k].oid);
        assert(acc =~= self.leaves());
        r
    }
}

impl Icmp {
    /// This is `before` after the walk: every leaf as `after_walk` makes it, the identifiers
    /// unchanged.
    pub open spec fn walked_from(self, before: Self, rs: Seq<WalkResponse>) -> bool {
        &&& self.oid@ == before.oid@
        &&& self.icmpInMsgs@ == before.icmpInMsgs@.after_walk(rs)
        &&& self.icmpInErrors@ == before.icmpInErrors@.after_walk(rs)
        &&& self.icmpInDestUnreachs@ == before.icmpInDestUnreachs@.after_walk(rs)
        &&& self.icmpInTimeExcds@ == before.icmpInTimeExcds@.after_walk(rs)
        &&& self.icmpInParmProbs@ == before.icmpInParmProbs@.after_walk(rs)
        &&& self.icmpInSrcQuenchs@ == before.icmpInSrcQuenchs@.after_walk(rs)
        &&& self.icmpInRedirects@ == before.icmpInRedirects@.after_walk(rs)
        &&& self.icmpInEchos@ == before.icmpInEchos@.after_walk(rs)
        &&& self.icmpInEchoReps@ == before.icmpInEchoReps@.after_walk(rs)
        &&& self.icmpInTimestamps@ == before.icmpInTimestamps@.after_walk(rs)
        &&& self.icmpInTimestampReps@ == before.icmpInTimestampReps@.after_walk(rs)
        &&& self.icmpInAddrMasks@ == before.icmpInAddrMasks@.after_walk(rs)
        &&& self.icmpInAddrMaskReps@ == before.icmpInAddrMaskReps@.after_walk(rs)
        &&& self.icmpOutMsgs@ == before.icmpOutMsgs@.after_walk(rs)
        &&& self.icmpOutErrors@ == before.icmpOutErrors@.after_walk(rs)
        &&& self.icmpOutDestUnreachs@ == before.icmpOutDestUnreachs@.after_walk(rs)
        &&& self.icmpOutTimeExcds@ == before.icmpOutTimeExcds@.after_walk(rs)
        &&& self.icmpOutParmProbs@ == before.icmpOutParmProbs@.after_walk(rs)
        &&& self.icmpOutSrcQuenchs@ == before.icmpOutSrcQuenchs@.after_walk(rs)
        &&& self.icmpOutRedirects@ == before.icmpOutRedirects@.after_walk(rs)
        &&& self.icmpOutEchos@ == before.icmpOutEchos@.after_walk(rs)
        &&& self.icmpOutEchoReps@ == before.icmpOutEchoReps@.after_walk(rs)
        &&& self.icmpOutTimestamps@ == before.icmpOutTimestamps@.after_walk(rs)
        &&& self.icmpOutTimestampReps@ == before.icmpOutTimestampReps@.after_walk(rs)
        &&& self.icmpOutAddrMasks@ == before.icmpOutAddrMasks@.after_walk(rs)
        &&& self.icmpOutAddrMaskReps@ == before.icmpOutAddrMaskReps@.after_walk(rs)
    }

    /// Takes in the outcomes of the subtree requests, leaf by leaf in declaration order; a failed
    /// or missing outcome leaves that leaf as it was and does not stop the others.
    pub fn walk(&mut self, responses: &Vec<WalkResponse>)
        ensures
            final(self).walked_from(*old(self), responses@),
    {
        let _ = self.icmpInMsgs.walk(responses);
        let _ = self.icmpInErrors.walk(responses);
        let _ = self.icmpInDestUnreachs.walk(responses);
        let _ = self.icmpInTimeExcds.walk(responses);
        let _ = self.icmpInParmProbs.walk(responses);
        let _ = self.icmpInSrcQuenchs.walk(responses);
        let _ = self.icmpInRedirects.walk(responses);
        let _ = self.icmpInEchos.walk(responses);
        let _ = self.icmpInEchoReps.walk(responses);
        let _ = self.icmpInTimestamps.walk(responses);
        let _ = self.icmpInTimestampReps.walk(responses);
        let _ = self.icmpInAddrMasks.walk(responses);
        let _ = self.icmpInAddrMaskReps.walk(responses);
        let _ = self.icmpOutMsgs.walk(responses);
        let _ = self.icmpOutErrors.walk(responses);
        let _ = self.icmpOutDestUnreachs.walk(responses);
        let _ = self.icmpOutTimeExcds.walk(responses);
        let _ = self.icmpOutParmProbs.walk(responses);
        let _ = self.icmpOutSrcQuenchs.walk(responses);
        let _ = self.icmpOutRedirects.walk(responses);
        let _ = self.icmpOutEchos.walk(responses);
        let _ = self.icmpOutEchoReps.walk(responses);
        let _ = self.icmpOutTimestamps.walk(responses);
        let _ = self.icmpOutTimestampReps.walk(responses);
        let _ = self.icmpOutAddrMasks.walk(responses);
        let _ = self.icmpOutAddrMaskReps.walk(responses);
    }

    /// The identifiers of all leaves, in declaration order: where the subtree requests are rooted.
    pub fn leaf_oids(&self) -> (r: Vec<Vec<u16>>)
        ensures
            r@.len() == self.leaves().len(),
            forall|i: int| 0 <= i < r@.len() ==> (#[trigger] r@[i])@ == self.leaves()[i].oid,
    {
        let mut r: Vec<Vec<u16>> = Vec::new();
        let ghost mut acc: Seq<Leaf> = seq![];
        r.push(self.icmpInMsgs.get_oid());
        proof {
            acc = acc.push(self.icmpInMsgs@);
        }
        assert(r@.len() == acc.len());
        assert(forall|k: int| 0 <= k < r@.len() ==> (#[trigger] r@[k])@ == acc[k].oid);
        r.push(self.icmpInErrors.get_oid());
        proof {
            acc = acc.push(self.icmpInErrors@);
        }
        assert(r@.len() == acc.len());
        assert(forall|k: int| 0 <= k < r@.len() ==> (#[trigger] r@[k])@ == acc[k].oid);
        r.push(self.icmpInDestUnreachs.get_oid());
        proof {
            acc = acc.push(self.icmpInDestUnreachs@);
        }
        assert(r@.len() == acc.len());
        assert(forall|k: int| 0 <= k < r@.len() ==> (#[trigger] r@[k])@ == acc[k].oid);
        r.push(self.icmpInTimeExcds.get_oid());
        proof {
            acc = acc.push(self.icmpInTimeExcds@);
        }
        assert(r@.len() == acc.len());
        assert(forall|k: int| 0 <= k < r@.len() ==> (#[trigger] r@[k])@ == acc[k].oid);
        r.push(self.icmpInParmProbs.get_oid());
        proof {
            acc = acc.push(self.icmpInParmProbs@);
        }
        assert(r@.len() == acc.len());
        assert(forall|k: int| 0 <= k < r@.len() ==> (#[trigger] r@[k])@ == acc[k].oid);
        r.push(self.icmpInSrcQuenchs.get_oid());
        proof {
            acc = acc.push(self.icmpInSrcQuenchs@);
        }
        assert(r@.len() == acc.len());
        assert(forall|k: int| 0 <= k < r@.len() ==> (#[trigger] r@[k])@ == acc[k].oid);
        r.push(self.icmpInRedirects.get_oid());
        proof {
            acc = acc.push(self.icmpInRedirects@);
        }
        assert(r@.len() == acc.len());
        assert(forall|k: int| 0 <= k < r@.len() ==> (#[trigger] r@[k])@ == acc[k].oid);
        r.push(self.icmpInEchos.get_oid());
        proof {
            acc = acc.push(self.icmpInEchos@);
        }
        assert(r@.len() == acc.len());
        assert(forall|k: int| 0 <= k < r@.len() ==> (#[trigger] r@[k])@ == acc[k].oid);
        r.push(self.icmpInEchoReps.get_oid());
        proof {
            acc = acc.push(self.icmpInEchoReps@);
        }
        assert(r@.len() == acc.len());
        assert(forall|k: int| 0 <= k < r@.len() ==> (#[trigger] r@[k])@ == acc[k].oid);
        r.push(self.icmpInTimestamps.get_oid());
        proof {
            acc = acc.push(self.icmpInTimestamps@);
        }
        assert(r@.len() == acc.len());
        assert(forall|k: int| 0 <= k < r@.len() ==> (#[trigger] r@[k])@ == acc[k].oid);
        r.push(self.icmpInTimestampReps.get_oid());
        proof {
            acc = acc.push(self.icmpInTimestampReps@);
        }
        assert(r@.len() == acc.len());
        assert(forall|k: int| 0 <= k < r@.len() ==> (#[trigger] r@[k])@ == acc[k].oid);
        r.push(self.icmpInAddrMasks.get_oid());
        proof {
            acc = acc.push(self.icmpInAddrMasks@);
        }
        assert(r@.len() == acc.len());
        assert(forall|k: int| 0 <= k < r@.len() ==> (#[trigger] r@[k])@ == acc[k].oid);
        r.push(self.icmpInAddrMaskReps.get_oid());
        proof {
            acc = acc.push(self.icmpInAddrMaskReps@);
        }
        assert(r@.len() == acc.len());
        assert(forall|k: int| 0 <= k < r@.len() ==> (#[trigger] r@[k])@ == acc[k].oid);
        r.push(self.icmpOutMsgs.get_oid());
        proof {
            acc = acc.push(self.icmpOutMsgs@);
        }
        assert(r@.len() == acc.len());
        assert(forall|k: int| 0 <= k < r@.len() ==> (#[trigger] r@[k])@ == acc[k].oid);
        r.push(self.icmpOutErrors.get_oid());
        proof {
            acc = acc.push(self.icmpOutErrors@);
        }
        assert(r@.len() == acc.len());
        assert(forall|k: int| 0 <= k < r@.len() ==> (#[trigger] r@[k])@ == acc[k].oid);
        r.push(self.icmpOutDestUnreachs.get_oid());
        proof {
            acc = acc.push(self.icmpOutDestUnreachs@);
        }
        assert(r@.len() == acc.len());
        assert(forall|k: int| 0 <= k < r@.len() ==> (#[trigger] r@[k])@ == acc[k].oid);
        r.push(self.icmpOutTimeExcds.get_oid());
        proof {
            acc = acc.push(self.icmpOutTimeExcds@);
        }
        assert(r@.len() == acc.len());
        assert(forall|k: int| 0 <= k < r@.len() ==> (#[trigger] r@[k])@ == acc[k].oid);
        r.push(self.icmpOutParmProbs.get_oid());
        proof {
            acc = acc.push(self.icmpOutParmProbs@);
        }
        assert(r@.len() == acc.len());
        assert(forall|k: int| 0 <= k < r@.len() ==> (#[trigger] r@[k])@ == acc[k].oid);
        r.push(self.icmpOutSrcQuenchs.get_oid());
        proof {
            acc = acc.push(self.icmpOutSrcQuenchs@);
        }
        assert(r@.len() == acc.len());
        assert(forall|k: int| 0 <= k < r@.len() ==> (#[trigger] r@[k])@ == acc[k].oid);
        r.push(self.icmpOutRedirects.get_oid());
        proof {
            acc = acc.push(self.icmpOutRedirects@);
        }
        assert(r@.len() == acc.len());
        assert(forall|k: int| 0 <= k < r@.len() ==> (#[trigger] r@[k])@ == acc[k].oid);
        r.push(self.icmpOutEchos.get_oid());
        proof {
            acc = acc.push(self.icmpOutEchos@);
        }
        assert(r@.len() == acc.len());
        assert(forall|k: int| 0 <= k < r@.len() ==> (#[trigger] r@[k])@ == acc[k].oid);
        r.push(self.icmpOutEchoReps.get_oid());
        proof {
            acc = acc.push(self.icmpOutEchoReps@);
        }
        assert(r@.len() == acc.len());
        assert(forall|k: int| 0 <= k < r@.len() ==> (#[trigger] r@[k])@ == acc[k].oid);
        r.push(self.icmpOutTimestamps.get_oid());
        proof {
            acc = acc.push(self.icmpOutTimestamps@);
        }
        assert(r@.len() == acc.len());
        assert(forall|k: int| 0 <= k < r@.len() ==> (#[trigger] r@[k])@ == acc[k].oid);
        r.push(self.icmpOutTimestampReps.get_oid());
        proof {
            acc = acc.push(self.icmpOutTimestampReps@);
        }
        assert(r@.len() == acc.len());
        assert(forall|k: int| 0 <= k < r@.len() ==> (#[trigger] r@[k])@ == acc[k].oid);
        r.push(self.icmpOutAddrMasks.get_oid());
        proof {
            acc = acc.push(self.icmpOutAddrMasks@);
        }
        assert(r@.len() == acc.len());
        assert(forall|k: int| 0 <= k < r@.len() ==> (#[trigger] r@[k])@ == acc[k].oid);
        r.push(self.icmpOutAddrMaskReps.get_oid());
        proof {
            acc = acc.push(self.icmpOutAddrMaskReps@);
        }
        assert(r@.len() == acc.len());
        assert(forall|k: int| 0 <= k < r@.len() ==> (#[trigger] r@[k])@ == acc[k].oid);
        assert(acc =~= self.leaves());
        r
    }
}

impl Tcp {
    /// This is `before` after the walk: every leaf as `after_walk` makes it, the identifiers
    /// unchanged.
    pub open spec fn walked_from(self, before: Self, rs: Seq<WalkResponse>) -> bool {
        &&& self.oid@ == before.oid@
        &&& self.tcpRtoAlgorithm@ == before.tcpRtoAlgorithm@.after_walk(rs)
        &&& self.tcpRtoMin@ == before.tcpRtoMin@.after_walk(rs)
        &&& self.tcpRtoMax@ == before.tcpRtoMax@.after_walk(rs)
        &&& self.tcpMaxConn@ == before.tcpMaxConn@.after_walk(rs)
        &&& self.tcpActiveOpens@ == before.tcpActiveOpens@.after_walk(rs)
        &&& self.tcpPassiveOpens@ == before.tcpPassiveOpens@.after_walk(rs)
        &&& self.tcpAttemptFails@ == before.tcpAttemptFails@.after_walk(rs)
        &&& self.tcpEstabResets@ == before.tcpEstabResets@.after_walk(rs)
        &&& self.tcpCurrEstab@ == before.tcpCurrEstab@.after_walk(rs)
        &&& self.tcpInSegs@ == before.tcpInSegs@.after_walk(rs)
        &&& self.tcpOutSegs@ == before.tcpOutSegs@.after_walk(rs)
        &&& self.tcpRetransSegs@ == before.tcpRetransSegs@.after_walk(rs)
        &&& self.tcpConnTable.walked_from(before.tcpConnTable, rs)
        &&& self.tcpInErrs@ == before.tcpInErrs@.after_walk(rs)
        &&& self.tcpOutRsts@ == before.tcpOutRsts@.after_walk(rs)
    }

    /// Takes in the outcomes of the subtree requests, leaf by leaf in declaration order; a failed
    /// or missing outcome leaves that leaf as it was and does not stop the others.
    pub fn walk(&mut self, responses: &Vec<WalkResponse>)
        ensures
            final(self).walked_from(*old(self), responses@),
    {
        let _ = self.tcpRtoAlgorithm.walk(responses);
        let _ = self.tcpRtoMin.walk(responses);
        let _ = self.tcpRtoMax.walk(responses);
        let _ = self.tcpMaxConn.walk(responses);
        let _ = self.tcpActiveOpens.walk(responses);
        let _ = self.tcpPassiveOpens.walk(responses);
        let _ = self.tcpAttemptFails.walk(responses);
        let _ = self.tcpEstabResets.walk(responses);
        let _ = self.tcpCurrEstab.walk(responses);
        let _ = self.tcpInSegs.walk(responses);
        let _ = self.tcpOutSegs.walk(responses);
        let _ = self.tcpRetransSegs.walk(responses);
        self.tcpConnTable.walk(responses);
        let _ = self.tcpInErrs.walk(responses);
        let _ = self.tcpOutRsts.walk(responses);
    }

    /// The identifiers of all leaves, in declaration order: where the subtree requests are rooted.
    pub fn leaf_oids(&self) -> (r: Vec<Vec<u16>>)
        ensures
            r@.len() == self.leaves().len(),
            forall|i: int| 0 <= i < r@.len() ==> (#[trigger] r@[i])@ == self.leaves()[i].oid,
    {
        let mut r: Vec<Vec<u16>> = Vec::new();
        let ghost mut acc: Seq<Leaf> = seq![];
        r.push(self.tcpRtoAlgorithm.get_oid());
        proof {
            acc = acc.push(self.tcpRtoAlgorithm@);
        }
        assert(r@.len() == acc.len());
        assert(forall|k: int| 0 <= k < r@.len() ==> (#[trigger] r@[k])@ == acc[k].oid);
        r.push(self.tcpRtoMin.get_oid());
        proof {
            acc = acc.push(self.tcpRtoMin@);
        }
        assert(r@.len() == acc.len());
        assert(forall|k: int| 0 <= k < r@.len() ==> (#[trigger] r@[k])@ == acc[k].oid);
        r.push(self.tcpRtoMax.get_oid());
        proof {
            acc = acc.push(self.tcpRtoMax@);
        }
        assert(r@.len() == acc.len());
        assert(forall|k: int| 0 <= k < r@.len() ==> (#[trigger] r@[k])@ == acc[k].oid);
        r.push(self.tcpMaxConn.get_oid());
        proof {
            acc = acc.push(self.tcpMaxConn@);
        }
        assert(r@.len() == acc.len());
        assert(forall|k: int| 0 <= k < r@.len() ==> (#[trigger] r@[k])@ == acc[k].oid);
        r.push(self.tcpActiveOpens.get_oid());
        proof {
            acc = acc.push(self.tcpActiveOpens@);
        }
        assert(r@.len() == acc.len());
        assert(forall|k: int| 0 <= k < r@.len() ==> (#[trigger] r@[k])@ == acc[k].oid);
        r.push(self.tcpPassiveOpens.get_oid());
        proof {
            acc = acc.push(self.tcpPassiveOpens@);
        }
        assert(r@.len() == acc.len());
        assert(forall|k: int| 0 <= k < r@.len() ==> (#[trigger] r@[k])@ == acc[k].oid);
        r.push(self.tcpAttemptFails.get_oid());
        proof {
            acc = acc.push(self.tcpAttemptFails@);
        }
        assert(r@.len() == acc.len());
        assert(forall|k: int| 0 <= k < r@.len() ==> (#[trigger] r@[k])@ == acc[k].oid);
        r.push(self.tcpEstabResets.get_oid());
        proof {
            acc = acc.push(self.tcpEstabResets@);
        }
        assert(r@.len() == acc.len());
        assert(forall|k: int| 0 <= k < r@.len() ==> (#[trigger] r@[k])@ == acc[k].oid);
        r.push(self.tcpCurrEstab.get_oid());
        proof {
            acc = acc.push(self.tcpCurrEstab@);
        }
        assert(r@.len() == acc.len());
        assert(forall|k: int| 0 <= k < r@.len() ==> (#[trigger] r@[k])@ == acc[k].oid);
        r.push(self.tcpInSegs.get_oid());
        proof {
            acc = acc.push(self.tcpInSegs@);
        }
        assert(r@.len() == acc.len());
        assert(forall|k: int| 0 <= k < r@.len() ==> (#[trigger] r@[k])@ == acc[k].oid);
        r.push(self.tcpOutSegs.get_oid());
        proof {
            acc = acc.push(self.tcpOutSegs@);
        }
        assert(r@.len() == acc.len());
        assert(forall|k: int| 0 <= k < r@.len() ==> (#[trigger] r@[k])@ == acc[k].oid);
        r.push(self.tcpRetransSegs.get_oid());
        proof {
            acc = acc.push(self.tcpRetransSegs@);
        }
        assert(r@.len() == acc.len());
        assert(forall|k: int| 0 <= k < r@.len() ==> (#[trigger] r@[k])@ == acc[k].oid);
        let mut sub = self.tcpConnTable.leaf_oids();
        r.append(&mut sub);
        proof {
            acc = acc + self.tcpConnTable.leaves();
        }
        assert(r@.len() == acc.len());
        assert(forall|k: int| 0 <= k < r@.len() ==> (#[trigger] r@[k])@ == acc[k].oid);
        r.push(self.tcpInErrs.get_oid());
        proof {
            acc = acc.push(self.tcpInErrs@);
        }
        assert(r@.len() == acc.len());
        assert(forall|k: int| 0 <= k < r@.len() ==> (#[trigger] r@[k])@ == acc[k].oid);
        r.push(self.tcpOutRsts.get_oid());
        proof {
            acc = acc.push(self.tcpOutRsts@);
        }
        assert(r@.len() == acc.len());
        assert(forall|k: int| 0 <= k < r@.len() ==> (#[trigger] r@[k])@ == acc[k].oid);
        assert(acc =~= self.leaves());
        r
    }
}

impl TcpConnTable {
    /// This is `before` after the walk: every leaf as `after_walk` makes it, the identifiers
    /// unchanged.
    pub open spec fn walked_from(self, before: Self, rs: Seq<WalkResponse>) -> bool {
        &&& self.oid@ == before.oid@
        &&& self.tcpConnState@ == before.tcpConnState@.after_walk(rs)
        &&& self.tcpConnLocalAddress@ == before.tcpConnLocalAddress@.after_walk(rs)
        &&& self.tcpConnLocalPort@ == before.tcpConnLocalPort@.after_walk(rs)
        &&& self.tcpConnRemAddress@ == before.tcpConnRemAddress@.after_walk(rs)
        &&& self.tcpConnRemPort@ == before.tcpConnRemPort@.after_walk(rs)
    }

    /// Takes in the outcomes of the subtree requests, leaf by leaf in declaration order; a failed
    /// or missing outcome leaves that leaf as it was and does not stop the others.
    pub fn walk(&mut self, responses: &Vec<WalkResponse>)
        ensures
            final(self).walked_from(*old(self), responses@),
    {
        let _ = self.tcpConnState.walk(responses);
        let _ = self.tcpConnLocalAddress.walk(responses);
        let _ = self.tcpConnLocalPort.walk(responses);
        let _ = self.tcpConnRemAddress.walk(responses);
        let _ = self.tcpConnRemPort.walk(responses);
    }

    /// The identifiers of all leaves, in declaration order: where the subtree requests are rooted.
    pub fn leaf_oids(&self) -> (r: Vec<Vec<u16>>)
        ensures
            r@.len() == self.leaves().len(),
            forall|i: int| 0 <= i < r@.len() ==> (#[trigger] r@[i])@ == self.leaves()[i].oid,
    {
        let mut r: Vec<Vec<u16>> = Vec::new();
        let ghost mut acc: Seq<Leaf> = seq![];
        r.push(self.tcpConnState.get_oid());
        proof {
            acc = acc.push(self.tcpConnState@);
        }
        assert(r@.len() == acc.len());
        assert(forall|k: int| 0 <= k < r@.len() ==> (#[trigger] r@[k])@ == acc[k].oid);
        r.push(self.tcpConnLocalAddress.get_oid());
        proof {
            acc = acc.push(self.tcpConnLocalAddress@);
        }
        assert(r@.len() == acc.len());
        assert(forall|k: int| 0 <= k < r@.len() ==> (#[trigger] r@[k])@ == acc[k].oid);
        r.push(self.tcpConnLocalPort.get_oid());
        proof {
            acc = acc.push(self.tcpConnLocalPort@);
        }
        assert(r@.len() == acc.len());
        assert(forall|k: int| 0 <= k < r@.len() ==> (#[trigger] r@[k])@ == acc[k].oid);
        r.push(self.tcpConnRemAddress.get_oid());
        proof {
            acc = acc.push(self.tcpConnRemAddress@);
        }
        assert(r@.len() == acc.len());
        assert(forall|k: int| 0 <= k < r@.len() ==> (#[trigger] r@[k])@ == acc[k].oid);
        r.push(self.tcpConnRemPort.get_oid());
        proof {
            acc = acc.push(self.tcpConnRemPort@);
        }
        assert(r@.len() == acc.len());
        assert(forall|k: int| 0 <= k < r@.len() ==> (#[trigger] r@[k])@ == acc[k].oid);
        assert(acc =~= self.leaves());
        r
    }
}

impl Udp {
    /// This is `before` after the walk: every leaf as `after_walk` makes it, the identifiers
    /// unchanged.
    pub open spec fn walked_from(self, before: Self, rs: Seq<WalkResponse>) -> bool {
        &&& self.oid@ == before.oid@
        &&& self.udpInDatagrams@ == before.udpInDatagrams@.after_walk(rs)
        &&& self.udpNoPorts@ == before.udpNoPorts@.after_walk(rs)
        &&& self.udpInErrors@ == before.udpInErrors@.after_walk(rs)
        &&& self.udpOutDatagrams@ == before.udpOutDatagrams@.after_walk(rs)
        &&& self.udpTable.walked_from(before.udpTable, rs)
    }

    /// Takes in the outcomes of the subtree requests, leaf by leaf in declaration order; a failed
    /// or missing outcome leaves that leaf as it was and does not stop the others.
    pub fn walk(&mut self, responses: &Vec<WalkResponse>)
        ensures
            final(self).walked_from(*old(self), responses@),
    {
        let _ = self.udpInDatagrams.walk(responses);
        let _ = self.udpNoPorts.walk(responses);
        let _ = self.udpInErrors.walk(responses);
        let _ = self.udpOutDatagrams.walk(responses);
        self.udpTable.walk(responses);
    }

    /// The identifiers of all leaves, in declaration order: where the subtree requests are rooted.
    pub fn leaf_oids(&self) -> (r: Vec<Vec<u16>>)
        ensures
            r@.len() == self.leaves().len(),
            forall|i: int| 0 <= i < r@.len() ==> (#[trigger] r@[i])@ == self.leaves()[i].oid,
    {
        let mut r: Vec<Vec<u16>> = Vec::new();
        let ghost mut acc: Seq<Leaf> = seq![];
        r.push(self.udpInDatagrams.get_oid());
        proof {
            acc = acc.push(self.udpInDatagrams@);
        }
        assert(r@.len() == acc.len());
        assert(forall|k: int| 0 <= k < r@.len() ==> (#[trigger] r@[k])@ == acc[k].oid);
        r.push(self.udpNoPorts.get_oid());
        proof {
            acc = acc.push(self.udpNoPorts@);
        }
        assert(r@.len() == acc.len());
        assert(forall|k: int| 0 <= k < r@.len() ==> (#[trigger] r@[k])@ == acc[k].oid);
        r.push(self.udpInErrors.get_oid());
        proof {
            acc = acc.push(self.udpInErrors@);
        }
        assert(r@.len() == acc.len());
        assert(forall|k: int| 0 <= k < r@.len() ==> (#[trigger] r@[k])@ == acc[k].oid);
        r.push(self.udpOutDatagrams.get_oid());
        proof {
            acc = acc.push(self.udpOutDatagrams@);
        }
        assert(r@.len() == acc.len());
        assert(forall|k: int| 0 <= k < r@.len() ==> (#[trigger] r@[k])@ == acc[k].oid);
        let mut sub = self.udpTable.leaf_oids();
        r.append(&mut sub);
        proof {
            acc = acc + self.udpTable.leaves();
        }
        assert(r@.len() == acc.len());
        assert(forall|k: int| 0 <= k < r@.len() ==> (#[trigger] r@[k])@ == acc[k].oid);
        assert(acc =~= self.leaves());
        r
    }
}

impl UdpTable {
    /// This is `before` after the walk: every leaf as `after_walk` makes it, the identifiers
    /// unchanged.
    pub open spec fn walked_from(self, before: Self, rs: Seq<WalkResponse>) -> bool {
        &&& self.oid@ == before.oid@
        &&& self.udpLocalAddress@ == before.udpLocalAddress@.after_walk(rs)
        &&& self.udpLocalPort@ == before.udpLocalPort@.after_walk(rs)
    }

    /// Takes in the outcomes of the subtree requests, leaf by leaf in declaration order; a failed
    /// or missing outcome leaves that leaf as it was and does not stop the others.
    pub fn walk(&mut self, responses: &Vec<WalkResponse>)
        ensures
            final(self).walked_from(*old(self), responses@),
    {
        let _ = self.udpLocalAddress.walk(responses);
        let _ = self.udpLocalPort.walk(responses);
    }

    /// The identifiers of all leaves, in declaration order: where the subtree requests are rooted.
    pub fn leaf_oids(&self) -> (r: Vec<Vec<u16>>)
        ensures
            r@.len() == self.leaves().len(),
            forall|i: int| 0 <= i < r@.len() ==> (#[trigger] r@[i])@ == self.leaves()[i].oid,
    {
        let mut r: Vec<Vec<u16>> = Vec::new();
        let ghost mut acc: Seq<Leaf> = seq![];
        r.push(self.udpLocalAddress.get_oid());
        proof {
            acc = acc.push(self.udpLocalAddress@);
        }
        assert(r@.len() == acc.len());
        assert(forall|k: int| 0 <= k < r@.len() ==> (#[trigger] r@[k])@ == acc[k].oid);
        r.push(self.udpLocalPort.get_oid());
        proof {
            acc = acc.push(self.udpLocalPort@);
        }
        assert(r@.len() == acc.len());
        assert(forall|k: int| 0 <= k < r@.len() ==> (#[trigger] r@[k])@ == acc[k].oid);
        assert(acc =~= self.leaves());
        r
    }
}

impl Egp {
    /// This is `before` after the walk: every leaf as `after_walk` makes it, the identifiers
    /// unchanged.
    pub open spec fn walked_from(self, before: Self, rs: Seq<WalkResponse>) -> bool {
        &&& self.oid@ == before.oid@
        &&& self.egpInMsgs@ == before.egpInMsgs@.after_walk(rs)
        &&& self.egpInErrors@ == before.egpInErrors@.after_walk(rs)
        &&& self.egpOutMsgs@ == before.egpOutMsgs@.after_walk(rs)
        &&& self.egpOutErrors@ == before.egpOutErrors@.after_walk(rs)
        &&& self.egpNeighTable.walked_from(before.egpNeighTable, rs)
        &&& self.egpAs@ == before.egpAs@.after_walk(rs)
    }

    /// Takes in the outcomes of the subtree requests, leaf by leaf in declaration order; a failed
    /// or missing outcome leaves that leaf as it was and does not stop the others.
    pub fn walk(&mut self, responses: &Vec<WalkResponse>)
        ensures
            final(self).walked_from(*old(self), responses@),
    {
        let _ = self.egpInMsgs.walk(responses);
        let _ = self.egpInErrors.walk(responses);
        let _ = self.egpOutMsgs.walk(responses);
        let _ = self.egpOutErrors.walk(responses);
        self.egpNeighTable.walk(responses);
        let _ = self.egpAs.walk(responses);
    }

    /// The identifiers of all leaves, in declaration order: where the subtree requests are rooted.
    pub fn leaf_oids(&self) -> (r: Vec<Vec<u16>>)
        ensures
            r@.len() == self.leaves().len(),
            forall|i: int| 0 <= i < r@.len() ==> (#[trigger] r@[i])@ == self.leaves()[i].oid,
    {
        let mut r: Vec<Vec<u16>> = Vec::new();
        let ghost mut acc: Seq<Leaf> = seq![];
        r.push(self.egpInMsgs.get_oid());
        proof {
            acc = acc.push(self.egpInMsgs@);
        }
        assert(r@.len() == acc.len());
        assert(forall|k: int| 0 <= k < r@.len() ==> (#[trigger] r@[k])@ == acc[k].oid);
        r.push(self.egpInErrors.get_oid());
        proof {
            acc = acc.push(self.egpInErrors@);
        }
        assert(r@.len() == acc.len());
        assert(forall|k: int| 0 <= k < r@.len() ==> (#[trigger] r@[k])@ == acc[k].oid);
        r.push(self.egpOutMsgs.get_oid());
        proof {
            acc = acc.push(self.egpOutMsgs@);
        }
        assert(r@.len() == acc.len());
        assert(forall|k: int| 0 <= k < r@.len() ==> (#[trigger] r@[k])@ == acc[k].oid);
        r.push(self.egpOutErrors.get_oid());
        proof {
            acc = acc.push(self.egpOutErrors@);
        }
        assert(r@.len() == acc.len());
        assert(forall|k: int| 0 <= k < r@.len() ==> (#[trigger] r@[k])@ == acc[k].oid);
        let mut sub = self.egpNeighTable.leaf_oids();
        r.append(&mut sub);
        proof {
            acc = acc + self.egpNeighTable.leaves();
        }
        assert(r@.len() == acc.len());
        assert(forall|k: int| 0 <= k < r@.len() ==> (#[trigger] r@[k])@ == acc[k].oid);
        r.push(self.egpAs.get_oid());
        proof {
            acc = acc.push(self.egpAs@);
        }
        assert(r@.len() == acc.len());
        assert(forall|k: int| 0 <= k < r@.len() ==> (#[trigger] r@[k])@ == acc[k].oid);
        assert(acc =~= self.leaves());
        r
    }
}

impl EgpNeighTable {
    /// This is `before` after the walk: every leaf as `after_walk` makes it, the identifiers
    /// unchanged.
    pub open spec fn walked_from(self, before: Self, rs: Seq<WalkResponse>) -> bool {
        &&& self.oid@ == before.oid@
        &&& self.egpNeighState@ == before.egpNeighState@.after_walk(rs)
        &&& self.egpNeighAddr@ == before.egpNeighAddr@.after_walk(rs)
        &&& self.egpNeighAs@ == before.egpNeighAs@.after_walk(rs)
        &&& self.egpNeighInMsgs@ == before.egpNeighInMsgs@.after_walk(rs)
        &&& self.egpNeighInErrs@ == before.egpNeighInErrs@.after_walk(rs)
        &&& self.egpNeighOutMsgs@ == before.egpNeighOutMsgs@.after_walk(rs)
        &&& self.egpNeighOutErrs@ == before.egpNeighOutErrs@.after_walk(rs)
        &&& self.egpNeighInErrMsgs@ == before.egpNeighInErrMsgs@.after_walk(rs)
        &&& self.egpNeighOutErrMsgs@ == before.egpNeighOutErrMsgs@.after_walk(rs)
        &&& self.egpNeighStateUps@ == before.egpNeighStateUps@.after_walk(rs)
        &&& self.egpNeighStateDowns@ == before.egpNeighStateDowns@.after_walk(rs)
        &&& self.egpNeighIntervalHello@ == before.egpNeighIntervalHello@.after_walk(rs)
        &&& self.egpNeighIntervalPoll@ == before.egpNeighIntervalPoll@.after_walk(rs)
        &&& self.egpNeighMode@ == before.egpNeighMode@.after_walk(rs)
        &&& self.egpNeighEventTrigger@ == before.egpNeighEventTrigger@.after_walk(rs)
    }

    /// Takes in the outcomes of the subtree requests, leaf by leaf in declaration order; a failed
    /// or missing outcome leaves that leaf as it was and does not stop the others.
    pub fn walk(&mut self, responses: &Vec<WalkResponse>)
        ensures
            final(self).walked_from(*old(self), responses@),
    {
        let _ = self.egpNeighState.walk(responses);
        let _ = self.egpNeighAddr.walk(responses);
        let _ = self.egpNeighAs.walk(responses);
        let _ = self.egpNeighInMsgs.walk(responses);
        let _ = self.egpNeighInErrs.walk(responses);
        let _ = self.egpNeighOutMsgs.walk(responses);
        let _ = self.egpNeighOutErrs.walk(responses);
        let _ = self.egpNeighInErrMsgs.walk(responses);
        let _ = self.egpNeighOutErrMsgs.walk(responses);
        let _ = self.egpNeighStateUps.walk(responses);
        let _ = self.egpNeighStateDowns.walk(responses);
        let _ = self.egpNeighIntervalHello.walk(responses);
        let _ = self.egpNeighIntervalPoll.walk(responses);
        let _ = self.egpNeighMode.walk(responses);
        let _ = self.egpNeighEventTrigger.walk(responses);
    }

    /// The identifiers of all leaves, in declaration order: where the subtree requests are rooted.
    pub fn leaf_oids(&self) -> (r: Vec<Vec<u16>>)
        ensures
            r@.len() == self.leaves().len(),
            forall|i: int| 0 <= i < r@.len() ==> (#[trigger] r@[i])@ == self.leaves()[i].oid,
    {
        let mut r: Vec<Vec<u16>> = Vec::new();
        let ghost mut acc: Seq<Leaf> = seq![];
        r.push(self.egpNeighState.get_oid());
        proof {
            acc = acc.push(self.egpNeighState@);
        }
        assert(r@.len() == acc.len());
        assert(forall|k: int| 0 <= k < r@.len() ==> (#[trigger] r@[k])@ == acc[k].oid);
        r.push(self.egpNeighAddr.get_oid());
        proof {
            acc = acc.push(self.egpNeighAddr@);
        }
        assert(r@.len() == acc.len());
        assert(forall|k: int| 0 <= k < r@.len() ==> (#[trigger] r@[k])@ == acc[k].oid);
        r.push(self.egpNeighAs.get_oid());
        proof {
            acc = acc.push(self.egpNeighAs@);
        }
        assert(r@.len() == acc.len());
        assert(forall|k: int| 0 <= k < r@.len() ==> (#[trigger] r@[k])@ == acc[k].oid);
        r.push(self.egpNeighInMsgs.get_oid());
        proof {
            acc = acc.push(self.egpNeighInMsgs@);
        }
        assert(r@.len() == acc.len());
        assert(forall|k: int| 0 <= k < r@.len() ==> (#[trigger] r@[k])@ == acc[k].oid);
        r.push(self.egpNeighInErrs.get_oid());
        proof {
            acc = acc.push(self.egpNeighInErrs@);
        }
        assert(r@.len() == acc.len());
        assert(forall|k: int| 0 <= k < r@.len() ==> (#[trigger] r@[k])@ == acc[k].oid);
        r.push(self.egpNeighOutMsgs.get_oid());
        proof {
            acc = acc.push(self.egpNeighOutMsgs@);
        }
        assert(r@.len() == acc.len());
        assert(forall|k: int| 0 <= k < r@.len() ==> (#[trigger] r@[k])@ == acc[k].oid);
        r.push(self.egpNeighOutErrs.get_oid());
        proof {
            acc = acc.push(self.egpNeighOutErrs@);
        }
        assert(r@.len() == acc.len());
        assert(forall|k: int| 0 <= k < r@.len() ==> (#[trigger] r@[k])@ == acc[k].oid);
        r.push(self.egpNeighInErrMsgs.get_oid());
        proof {
            acc = acc.push(self.egpNeighInErrMsgs@);
        }
        assert(r@.len() == acc.len());
        assert(forall|k: int| 0 <= k < r@.len() ==> (#[trigger] r@[k])@ == acc[k].oid);
        r.push(self.egpNeighOutErrMsgs.get_oid());
        proof {
            acc = acc.push(self.egpNeighOutErrMsgs@);
        }
        assert(r@.len() == acc.len());
        assert(forall|k: int| 0 <= k < r@.len() ==> (#[trigger] r@[k])@ == acc[k].oid);
        r.push(self.egpNeighStateUps.get_oid());
        proof {
            acc = acc.push(self.egpNeighStateUps@);
        }
        assert(r@.len() == acc.len());
        assert(forall|k: int| 0 <= k < r@.len() ==> (#[trigger] r@[k])@ == acc[k].oid);
        r.push(self.egpNeighStateDowns.get_oid());
        proof {
            acc = acc.push(self.egpNeighStateDowns@);
        }
        assert(r@.len() == acc.len());
        assert(forall|k: int| 0 <= k < r@.len() ==> (#[trigger] r@[k])@ == acc[k].oid);
        r.push(self.egpNeighIntervalHello.get_oid());
        proof {
            acc = acc.push(self.egpNeighIntervalHello@);
        }
        assert(r@.len() == acc.len());
        assert(forall|k: int| 0 <= k < r@.len() ==> (#[trigger] r@[k])@ == acc[k].oid);
        r.push(self.egpNeighIntervalPoll.get_oid());
        proof {
            acc = acc.push(self.egpNeighIntervalPoll@);
        }
        assert(r@.len() == acc.len());
        assert(forall|k: int| 0 <= k < r@.len() ==> (#[trigger] r@[k])@ == acc[k].oid);
        r.push(self.egpNeighMode.get_oid());
        proof {
            acc = acc.push(self.egpNeighMode@);
        }
        assert(r@.len() == acc.len());
        assert(forall|k: int| 0 <= k < r@.len() ==> (#[trigger] r@[k])@ == acc[k].oid);
        r.push(self.egpNeighEventTrigger.get_oid());
        proof {
            acc = acc.push(self.egpNeighEventTrigger@);
        }
        assert(r@.len() == acc.len());
        assert(forall|k: int| 0 <= k < r@.len() ==> (#[trigger] r@[k])@ == acc[k].oid);
        assert(acc =~= self.leaves());
        r
    }
}

impl Snmp {
    /// This is `before` after the walk: every leaf as `after_walk` makes it, the identifiers
    /// unchanged.
    pub open spec fn walked_from(self, before: Self, rs: Seq<WalkResponse>) -> bool {
        &&& self.oid@ == before.oid@
        &&& self.snmpInPkts@ == before.snmpInPkts@.after_walk(rs)
        &&& self.snmpOutPkts@ == before.snmpOutPkts@.after_walk(rs)
        &&& self.snmpInBadVersions@ == before.snmpInBadVersions@.after_walk(rs)
        &&& self.snmpInBadCommunityNames@ == before.snmpInBadCommunityNames@.after_walk(rs)
        &&& self.snmpInBadCommunityUses@ == before.snmpInBadCommunityUses@.after_walk(rs)
        &&& self.snmpInASNParseErrs@ == before.snmpInASNParseErrs@.after_walk(rs)
        &&& self.snmpInTooBigs@ == before.snmpInTooBigs@.after_walk(rs)
        &&& self.snmpInNoSuchNames@ == before.snmpInNoSuchNames@.after_walk(rs)
        &&& self.snmpInBadValues@ == before.snmpInBadValues@.after_walk(rs)
        &&& self.snmpInReadOnlys@ == before.snmpInReadOnlys@.after_walk(rs)
        &&& self.snmpInGenErrs@ == before.snmpInGenErrs@.after_walk(rs)
        &&& self.snmpInTotalReqVars@ == before.snmpInTotalReqVars@.after_walk(rs)
        &&& self.snmpInTotalSetVars@ == before.snmpInTotalSetVars@.after_walk(rs)
        &&& self.snmpInGetRequests@ == before.snmpInGetRequests@.after_walk(rs)
        &&& self.snmpInGetNexts@ == before.snmpInGetNexts@.after_walk(rs)
        &&& self.snmpInSetRequests@ == before.snmpInSetRequests@.after_walk(rs)
        &&& self.snmpInGetResponses@ == before.snmpInGetResponses@.after_walk(rs)
        &&& self.snmpInTraps@ == before.snmpInTraps@.after_walk(rs)
        &&& self.snmpOutTooBigs@ == before.snmpOutTooBigs@.after_walk(rs)
        &&& self.snmpOutNoSuchNames@ == before.snmpOutNoSuchNames@.after_walk(rs)
        &&& self.snmpOutBadValues@ == before.snmpOutBadValues@.after_walk(rs)
        &&& self.snmpOutGenErrs@ == before.snmpOutGenErrs@.after_walk(rs)
        &&& self.snmpOutGetRequests@ == before.snmpOutGetRequests@.after_walk(rs)
        &&& self.snmpOutGetNexts@ == before.snmpOutGetNexts@.after_walk(rs)
        &&& self.snmpOutSetRequests@ == before.snmpOutSetRequests@.after_walk(rs)
        &&& self.snmpOutGetResponses@ == before.snmpOutGetResponses@.after_walk(rs)
        &&& self.snmpOutTraps@ == before.snmpOutTraps@.after_walk(rs)
        &&& self.snmpEnableAuthenTraps@ == before.snmpEnableAuthenTraps@.after_walk(rs)
    }

    /// Takes in the outcomes of the subtree requests, leaf by leaf in declaration order; a failed
    /// or missing outcome leaves that leaf as it was and does not stop the others.
    pub fn walk(&mut self, responses: &Vec<WalkResponse>)
        ensures
            final(self).walked_from(*old(self), responses@),
    {
        let _ = self.snmpInPkts.walk(responses);
        let _ = self.snmpOutPkts.walk(responses);
        let _ = self.snmpInBadVersions.walk(responses);
        let _ = self.snmpInBadCommunityNames.walk(responses);
        let _ = self.snmpInBadCommunityUses.walk(responses);
        let _ = self.snmpInASNParseErrs.walk(responses);
        let _ = self.snmpInTooBigs.walk(responses);
        let _ = self.snmpInNoSuchNames.walk(responses);
        let _ = self.snmpInBadValues.walk(responses);
        let _ = self.snmpInReadOnlys.walk(responses);
        let _ = self.snmpInGenErrs.walk(responses);
        let _ = self.snmpInTotalReqVars.walk(responses);
        let _ = self.snmpInTotalSetVars.walk(responses);
        let _ = self.snmpInGetRequests.walk(responses);
        let _ = self.snmpInGetNexts.walk(responses);
        let _ = self.snmpInSetRequests.walk(responses);
        let _ = self.snmpInGetResponses.walk(responses);
        let _ = self.snmpInTraps.walk(responses);
        let _ = self.snmpOutTooBigs.walk(responses);
        let _ = self.snmpOutNoSuchNames.walk(responses);
        let _ = self.snmpOutBadValues.walk(responses);
        let _ = self.snmpOutGenErrs.walk(responses);
        let _ = self.snmpOutGetRequests.walk(responses);
        let _ = self.snmpOutGetNexts.walk(responses);
        let _ = self.snmpOutSetRequests.walk(responses);
        let _ = self.snmpOutGetResponses.walk(responses);
        let _ = self.snmpOutTraps.walk(responses);
        let _ = self.snmpEnableAuthenTraps.walk(responses);
    }

    /// The identifiers of all leaves, in declaration order: where the subtree requests are rooted.
    pub fn leaf_oids(&self) -> (r: Vec<Vec<u16>>)
        ensures
            r@.len() == self.leaves().len(),
            forall|i: int| 0 <= i < r@.len() ==> (#[trigger] r@[i])@ == self.leaves()[i].oid,
    {
        let mut r: Vec<Vec<u16>> = Vec::new();
        let ghost mut acc: Seq<Leaf> = seq![];
        r.push(self.snmpInPkts.get_oid());
        proof {
            acc = acc.push(self.snmpInPkts@);
        }
        assert(r@.len() == acc.len());
        assert(forall|k: int| 0 <= k < r@.len() ==> (#[trigger] r@[k])@ == acc[k].oid);
        r.push(self.snmpOutPkts.get_oid());
        proof {
            acc = acc.push(self.snmpOutPkts@);
        }
        assert(r@.len() == acc.len());
        assert(forall|k: int| 0 <= k < r@.len() ==> (#[trigger] r@[k])@ == acc[k].oid);
        r.push(self.snmpInBadVersions.get_oid());
        proof {
            acc = acc.push(self.snmpInBadVersions@);
        }
        assert(r@.len() == acc.len());
        assert(forall|k: int| 0 <= k < r@.len() ==> (#[trigger] r@[k])@ == acc[k].oid);
        r.push(self.snmpInBadCommunityNames.get_oid());
        proof {
            acc = acc.push(self.snmpInBadCommunityNames@);
        }
        assert(r@.len() == acc.len());
        assert(forall|k: int| 0 <= k < r@.len() ==> (#[trigger] r@[k])@ == acc[k].oid);
        r.push(self.snmpInBadCommunityUses.get_oid());
        proof {
            acc = acc.push(self.snmpInBadCommunityUses@);
        }
        assert(r@.len() == acc.len());
        assert(forall|k: int| 0 <= k < r@.len() ==> (#[trigger] r@[k])@ == acc[k].oid);
        r.push(self.snmpInASNParseErrs.get_oid());
        proof {
            acc = acc.push(self.snmpInASNParseErrs@);
        }
        assert(r@.len() == acc.len());
        assert(forall|k: int| 0 <= k < r@.len() ==> (#[trigger] r@[k])@ == acc[k].oid);
        r.push(self.snmpInTooBigs.get_oid());
        proof {
            acc = acc.push(self.snmpInTooBigs@);
        }
        assert(r@.len() == acc.len());
        assert(forall|k: int| 0 <= k < r@.len() ==> (#[trigger] r@[k])@ == acc[k].oid);
        r.push(self.snmpInNoSuchNames.get_oid());
        proof {
            acc = acc.push(self.snmpInNoSuchNames@);
        }
        assert(r@.len() == acc.len());
        assert(forall|k: int| 0 <= k < r@.len() ==> (#[trigger] r@[k])@ == acc[k].oid);
        r.push(self.snmpInBadValues.get_oid());
        proof {
            acc = acc.push(self.snmpInBadValues@);
        }
        assert(r@.len() == acc.len());
        assert(forall|k: int| 0 <= k < r@.len() ==> (#[trigger] r@[k])@ == acc[k].oid);
        r.push(self.snmpInReadOnlys.get_oid());
        proof {
            acc = acc.push(self.snmpInReadOnlys@);
        }
        assert(r@.len() == acc.len());
        assert(forall|k: int| 0 <= k < r@.len() ==> (#[trigger] r@[k])@ == acc[k].oid);
        r.push(self.snmpInGenErrs.get_oid());
        proof {
            acc = acc.push(self.snmpInGenErrs@);
        }
        assert(r@.len() == acc.len());
        assert(forall|k: int| 0 <= k < r@.len() ==> (#[trigger] r@[k])@ == acc[k].oid);
        r.push(self.snmpInTotalReqVars.get_oid());
        proof {
            acc = acc.push(self.snmpInTotalReqVars@);
        }
        assert(r@.len() == acc.len());
        assert(forall|k: int| 0 <= k < r@.len() ==> (#[trigger] r@[k])@ == acc[k].oid);
        r.push(self.snmpInTotalSetVars.get_oid());
        proof {
            acc = acc.push(self.snmpInTotalSetVars@);
        }
        assert(r@.len() == acc.len());
        assert(forall|k: int| 0 <= k < r@.len() ==> (#[trigger] r@[k])@ == acc[k].oid);
        r.push(self.snmpInGetRequests.get_oid());
        proof {
            acc = acc.push(self.snmpInGetRequests@);
        }
        assert(r@.len() == acc.len());
        assert(forall|k: int| 0 <= k < r@.len() ==> (#[trigger] r@[k])@ == acc[k].oid);
        r.push(self.snmpInGetNexts.get_oid());
        proof {
            acc = acc.push(self.snmpInGetNexts@);
        }
        assert(r@.len() == acc.len());
        assert(forall|k: int| 0 <= k < r@.len() ==> (#[trigger] r@[k])@ == acc[k].oid);
        r.push(self.snmpInSetRequests.get_oid());
        proof {
            acc = acc.push(self.snmpInSetRequests@);
        }
        assert(r@.len() == acc.len());
        assert(forall|k: int| 0 <= k < r@.len() ==> (#[trigger] r@[k])@ == acc[k].oid);
        r.push(self.snmpInGetResponses.get_oid());
        proof {
            acc = acc.push(self.snmpInGetResponses@);
        }
        assert(r@.len() == acc.len());
        assert(forall|k: int| 0 <= k < r@.len() ==> (#[trigger] r@[k])@ == acc[k].oid);
        r.push(self.snmpInTraps.get_oid());
        proof {
            acc = acc.push(self.snmpInTraps@);
        }
        assert(r@.len() == acc.len());
        assert(forall|k: int| 0 <= k < r@.len() ==> (#[trigger] r@[k])@ == acc[k].oid);
        r.push(self.snmpOutTooBigs.get_oid());
        proof {
            acc = acc.push(self.snmpOutTooBigs@);
        }
        assert(r@.len() == acc.len());
        assert(forall|k: int| 0 <= k < r@.len() ==> (#[trigger] r@[k])@ == acc[k].oid);
        r.push(self.snmpOutNoSuchNames.get_oid());
        proof {
            acc = acc.push(self.snmpOutNoSuchNames@);
        }
        assert(r@.len() == acc.len());
        assert(forall|k: int| 0 <= k < r@.len() ==> (#[trigger] r@[k])@ == acc[k].oid);
        r.push(self.snmpOutBadValues.get_oid());
        proof {
            acc = acc.push(self.snmpOutBadValues@);
        }
        assert(r@.len() == acc.len());
        assert(forall|k: int| 0 <= k < r@.len() ==> (#[trigger] r@[k])@ == acc[k].oid);
        r.push(self.snmpOutGenErrs.get_oid());
        proof {
            acc = acc.push(self.snmpOutGenErrs@);
        }
        assert(r@.len() == acc.len());
        assert(forall|k: int| 0 <= k < r@.len() ==> (#[trigger] r@[k])@ == acc[k].oid);
        r.push(self.snmpOutGetRequests.get_oid());
        proof {
            acc = acc.push(self.snmpOutGetRequests@);
        }
        assert(r@.len() == acc.len());
        assert(forall|k: int| 0 <= k < r@.len() ==> (#[trigger] r@[k])@ == acc[k].oid);
        r.push(self.snmpOutGetNexts.get_oid());
        proof {
            acc = acc.push(self.snmpOutGetNexts@);
        }
        assert(r@.len() == acc.len());
        assert(forall|k: int| 0 <= k < r@.len() ==> (#[trigger] r@[k])@ == acc[k].oid);
        r.push(self.snmpOutSetRequests.get_oid());
        proof {
            acc = acc.push(self.snmpOutSetRequests@);
        }
        assert(r@.len() == acc.len());
        assert(forall|k: int| 0 <= k < r@.len() ==> (#[trigger] r@[k])@ == acc[k].oid);
        r.push(self.snmpOutGetResponses.get_oid());
        proof {
            acc = acc.push(self.snmpOutGetResponses@);
        }
        assert(r@.len() == acc.len());
        assert(forall|k: int| 0 <= k < r@.len() ==> (#[trigger] r@[k])@ == acc[k].oid);
        r.push(self.snmpOutTraps.get_oid());
        proof {
            acc = acc.push(self.snmpOutTraps@);
        }
        assert(r@.len() == acc.len());
        assert(forall|k: int| 0 <= k < r@.len() ==> (#[trigger] r@[k])@ == acc[k].oid);
        r.push(self.snmpEnableAuthenTraps.get_oid());
        proof {
            acc = acc.push(self.snmpEnableAuthenTraps@);
        }
        assert(r@.len() == acc.len());
        assert(forall|k: int| 0 <= k < r@.len() ==> (#[trigger] r@[k])@ == acc[k].oid);
        assert(acc =~= self.leaves());
        r
    }
}

} // verus!
