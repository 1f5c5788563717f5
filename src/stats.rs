//! SAI statistic records and their decoding from one IPFIX field.

use vstd::prelude::*;
use crate::bytes::{be_value, read_be_uint};
use crate::ipfix::FieldSpecifier;
use crate::text::{decimal, push_decimal, string_of, copy_string};

verus! {

/// Added to a base type or stat id whose extension flag is set.
pub const EXTENSIONS_RANGE_BASE: u32 = 0x2000_0000;

/// One decoded counter: object name, SAI object type, SAI stat id and value.
#[derive(Debug, Clone)]
pub struct SAIStat {
    pub object_name: String,
    pub type_id: u32,
    pub stat_id: u32,
    pub counter: u64,
}

/// Counters of one data record with their observation time in nanoseconds.
#[derive(Debug, Clone)]
pub struct SAIStats {
    pub observation_time: u64,
    pub stats: Vec<SAIStat>,
}

pub open spec fn stat_view(s: SAIStat) -> (Seq<char>, u32, u32, u64) {
    (s.object_name@, s.type_id, s.stat_id, s.counter)
}

pub open spec fn stats_view(s: Seq<SAIStat>) -> Seq<(Seq<char>, u32, u32, u64)> {
    s.map_values(|x: SAIStat| stat_view(x))
}

pub open spec fn batch_view(b: SAIStats) -> (u64, Seq<(Seq<char>, u32, u32, u64)>) {
    (b.observation_time, stats_view(b.stats@))
}

pub open spec fn batches_view(s: Seq<SAIStats>) -> Seq<(u64, Seq<(Seq<char>, u32, u32, u64)>)> {
    s.map_values(|x: SAIStats| batch_view(x))
}

pub open spec fn names_view(s: Seq<String>) -> Seq<Seq<char>> {
    s.map_values(|x: String| x@)
}

/// SAI object type of a packed enterprise number: bits 30..16, plus the
/// extension base when bit 31 is set.
pub open spec fn spec_type_id(en: u32) -> u32 {
    let base = (en / 65536) % 32768;
    if en >= 0x8000_0000 { (base + EXTENSIONS_RANGE_BASE) as u32 } else { base as u32 }
}

/// SAI stat id of a packed enterprise number: bits 14..0, plus the extension
/// base when bit 15 is set.
pub open spec fn spec_stat_id(en: u32) -> u32 {
    let base = en % 32768;
    if (en / 32768) % 2 == 1 { (base + EXTENSIONS_RANGE_BASE) as u32 } else { base as u32 }
}

/// Counter of a field value: its first eight bytes read big-endian, a
/// shorter value zero-extended on the left.
pub open spec fn spec_counter(v: Seq<u8>) -> u64 {
    be_value(v.subrange(0, if v.len() < 8 { v.len() as int } else { 8 })) as u64
}

/// Object name of a 1-based label, or `unknown_<label>` when out of range.
pub open spec fn spec_object_name(label: u16, names: Seq<Seq<char>>) -> Seq<char> {
    if 1 <= label <= names.len() {
        names[label - 1]
    } else {
        "unknown_"@ + decimal(label as nat)
    }
}

/// The statistic decoded from one field.
pub open spec fn spec_stat(fs: FieldSpecifier, v: Seq<u8>, names: Seq<Seq<char>>) -> (Seq<char>, u32, u32, u64) {
    let en = match fs.enterprise_number { Some(e) => e, None => 0 };
    (spec_object_name(fs.information_element_identifier, names), spec_type_id(en), spec_stat_id(en), spec_counter(v))
}

impl SAIStat {
    pub fn new(object_name: String, type_id: u32, stat_id: u32, counter: u64) -> (r: Self)
        ensures
            r.object_name@ == object_name@,
            r.type_id == type_id,
            r.stat_id == stat_id,
            r.counter == counter,
    {
        SAIStat { object_name, type_id, stat_id, counter }
    }

    /// Decodes one field: the enterprise number gives type and stat ids, the
    /// element id is the 1-based label into `object_names`, the value is the counter.
    pub fn from_ipfix(field_spec: &FieldSpecifier, value: &[u8], object_names: &[String]) -> (r: Self)
        ensures
            stat_view(r) == spec_stat(*field_spec, value@, names_view(object_names@)),
    {
        let en = match field_spec.enterprise_number { Some(e) => e, None => 0 };
        let label = field_spec.information_element_identifier;
        let type_base = (en / 65536) % 32768;
        let stat_base = en % 32768;
        let type_id = if en >= 0x8000_0000 { type_base.saturating_add(EXTENSIONS_RANGE_BASE) } else { type_base };
        let stat_id = if (en / 32768) % 2 == 1 { stat_base.saturating_add(EXTENSIONS_RANGE_BASE) } else { stat_base };
        let end = if value.len() < 8 { value.len() } else { 8 };
        let counter = read_be_uint(value, 0, end);
        let object_name = if label >= 1 && (label as usize) <= object_names.len() {
            copy_string(&object_names[(label - 1) as usize])
        } else {
            let mut s = string_of("unknown_");
            push_decimal(&mut s, label as u64);
            s
        };
        SAIStat { object_name, type_id, stat_id, counter }
    }
}

impl SAIStats {
    pub fn new(observation_time: u64, stats: Vec<SAIStat>) -> (r: Self)
        ensures
            r.observation_time == observation_time,
            r.stats@ == stats@,
    {
        SAIStats { observation_time, stats }
    }

    pub fn len(&self) -> (r: usize)
        ensures
            r == self.stats@.len(),
    {
        self.stats.len()
    }

    pub fn is_empty(&self) -> (r: bool)
        ensures
            r == (self.stats@.len() == 0),
    {
        self.stats.len() == 0
    }

    /// The statistics in order.
    pub fn iter(&self) -> (r: &[SAIStat])
        ensures
            r@ == self.stats@,
    {
        self.stats.as_slice()
    }
}

/// Whether two batches hold the same time and the same statistics, in any order.
pub open spec fn same_batch(a: SAIStats, b: SAIStats) -> bool {
    let x = stats_view(a.stats@);
    let y = stats_view(b.stats@);
    &&& a.observation_time == b.observation_time
    &&& x.len() == y.len()
    &&& forall|i: int| 0 <= i < x.len() ==> y.contains(#[trigger] x[i])
    &&& forall|i: int| 0 <= i < y.len() ==> x.contains(#[trigger] y[i])
}

impl PartialEq for SAIStat {
    fn eq(&self, other: &SAIStat) -> (r: bool) {
        self.type_id == other.type_id && self.stat_id == other.stat_id && self.counter == other.counter
            && self.object_name == other.object_name
    }
}

impl vstd::std_specs::cmp::PartialEqSpecImpl for SAIStat {
    open spec fn obeys_eq_spec() -> bool {
        true
    }

    open spec fn eq_spec(&self, other: &SAIStat) -> bool {
        stat_view(*self) == stat_view(*other)
    }
}

/// Whether `s` appears in `v`.
fn contains_stat(v: &Vec<SAIStat>, s: &SAIStat) -> (r: bool)
    ensures
        r == stats_view(v@).contains(stat_view(*s)),
{
    let mut i: usize = 0;
    while i < v.len()
        invariant
            i <= v@.len(),
            forall|j: int| 0 <= j < i ==> stats_view(v@)[j] != stat_view(*s),
        decreases v@.len() - i,
    {
        if v[i].eq(s) {
            assert(stats_view(v@)[i as int] == stat_view(*s));
            return true;
        }
        i = i + 1;
    }
    false
}

/// Whether every statistic of `a` appears in `b`.
fn all_contained(a: &Vec<SAIStat>, b: &Vec<SAIStat>) -> (r: bool)
    ensures
        r == forall|i: int| 0 <= i < stats_view(a@).len() ==> stats_view(b@).contains(#[trigger] stats_view(a@)[i]),
{
    let mut i: usize = 0;
    while i < a.len()
        invariant
            i <= a@.len(),
            forall|j: int| 0 <= j < i ==> stats_view(b@).contains(#[trigger] stats_view(a@)[j]),
        decreases a@.len() - i,
    {
        if !contains_stat(b, &a[i]) {
            assert(stats_view(a@)[i as int] == stat_view(a@[i as int]));
            assert(!stats_view(b@).contains(stats_view(a@)[i as int]));
            return false;
        }
        i = i + 1;
    }
    true
}

impl PartialEq for SAIStats {
    fn eq(&self, other: &SAIStats) -> (r: bool) {
        self.observation_time == other.observation_time && self.stats.len() == other.stats.len()
            && all_contained(&self.stats, &other.stats) && all_contained(&other.stats, &self.stats)
    }
}

impl vstd::std_specs::cmp::PartialEqSpecImpl for SAIStats {
    open spec fn obeys_eq_spec() -> bool {
        true
    }

    open spec fn eq_spec(&self, other: &SAIStats) -> bool {
        same_batch(*self, *other)
    }
}

/// A batch as it travels between the pipeline's stages.
pub type SAIStatsMessage = std::sync::Arc<SAIStats>;

/// Building shared batches.
pub trait SAIStatsMessageExt {
    fn into_message(self) -> SAIStatsMessage;

    fn from_parts(observation_time: u64, stats: Vec<SAIStat>) -> SAIStatsMessage;
}

impl SAIStatsMessageExt for SAIStats {
    fn into_message(self) -> SAIStatsMessage {
        std::sync::Arc::new(self)
    }

    fn from_parts(observation_time: u64, stats: Vec<SAIStat>) -> SAIStatsMessage {
        std::sync::Arc::new(SAIStats::new(observation_time, stats))
    }
}

} // verus!
