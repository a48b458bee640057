//! Plotted series: a numeric leaf's history as points, and a plot that shows several.

use vstd::prelude::*;
use crate::schema::MibObject;
use crate::store::point_of;
use crate::value::{copy_vec, MibValue};

verus! {

/// The larger of two values.
pub open spec fn larger(a: i64, b: i64) -> i64 {
    if a < b { b } else { a }
}

/// One plotted series: the leaf it follows and its (timestamp, value) points.
pub struct Plottable {
    pub name: String,
    pub oid: Vec<u16>,
    pub points: Vec<(i64, i64)>,
    /// The largest timestamp and the largest value seen so far, each starting at 0.
    pub points_max: (i64, i64),
}

impl Plottable {
    /// An empty series following `val`; `None` when `val` is not numeric.
    pub fn new(val: MibValue) -> (r: Option<Self>)
        ensures
            r is Some <==> val@.values.as_i64s() is Some,
            r matches Some(p) ==> {
                &&& p.name@ == val@.name
                &&& p.oid@ == val@.oid
                &&& p.points@ == Seq::<(i64, i64)>::empty()
                &&& p.points_max == (0i64, 0i64)
            },
    {
        match val {
            MibValue::inti32(m) => Some(Plottable { name: m.name, oid: m.oid, points: Vec::new(), points_max: (0, 0) }),
            MibValue::intu32(m) => Some(Plottable { name: m.name, oid: m.oid, points: Vec::new(), points_max: (0, 0) }),
            MibValue::intu64(m) => Some(Plottable { name: m.name, oid: m.oid, points: Vec::new(), points_max: (0, 0) }),
            _ => None,
        }
    }

    /// Appends a point and raises the maxima to it.
    pub fn add(&mut self, point: (i64, i64))
        ensures
            final(self).points@ == old(self).points@.push(point),
            final(self).points_max == (larger(old(self).points_max.0, point.0), larger(old(self).points_max.1, point.1)),
            final(self).name@ == old(self).name@,
            final(self).oid@ == old(self).oid@,
    {
        if self.points_max.0 < point.0 {
            self.points_max.0 = point.0;
        }
        if self.points_max.1 < point.1 {
            self.points_max.1 = point.1;
        }
        self.points.push(point);
    }

    /// Adds the point that `snapshot` holds for the followed identifier, if it holds one.
    pub fn add_snapshot(&mut self, snapshot: &MibObject)
        ensures
            final(self).name@ == old(self).name@,
            final(self).oid@ == old(self).oid@,
            point_of(*snapshot, old(self).oid@) matches Some(pt) ==> {
                &&& final(self).points@ == old(self).points@.push(pt)
                &&& final(self).points_max == (larger(old(self).points_max.0, pt.0), larger(old(self).points_max.1, pt.1))
            },
            point_of(*snapshot, old(self).oid@) is None ==> {
                &&& final(self).points@ == old(self).points@
                &&& final(self).points_max == old(self).points_max
            },
    {
        proof {
            reveal(point_of);
        }
        let oid = copy_vec(&self.oid);
        match snapshot.find_oid(oid) {
            Some(v) => match v.val_as_mvinti64() {
                Some(vals) => {
                    if vals.len() > 0 {
                        self.add((snapshot.timestamp, vals[0]));
                    }
                },
                None => {},
            },
            None => {},
        }
    }
}

/// A plot of several series, with its display switches.
pub struct PlotContext {
    pub plottables: Vec<Plottable>,
    pub draggable: bool,
    pub axes: bool,
    pub scroll: bool,
    pub zoom: bool,
    pub legend: bool,
    pub grid: bool,
}

impl PlotContext {
    /// A plot of `plottables` with every switch on.
    pub fn new(plottables: Vec<Plottable>) -> (r: Self)
        ensures
            r.plottables@ == plottables@,
            r.draggable && r.axes && r.scroll && r.zoom && r.legend && r.grid,
    {
        PlotContext { plottables, draggable: true, axes: true, scroll: true, zoom: true, legend: true, grid: true }
    }
}

} // verus!
