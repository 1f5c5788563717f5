//! The counter-store writer: coalesces decoded statistics into a cache and
//! says, at each tick, which counters must be written and where.

use vstd::prelude::*;
use vstd::pervasive::VecAdditionalExecFns;
use crate::sai_buffer::{SaiBufferPoolStat, SaiIngressPriorityGroupStat};
use crate::sai_port::SaiPortStat;
use crate::sai_queue::SaiQueueStat;
use crate::sai_types::SaiObjectType;
use crate::stats::{SAIStats, stats_view};
use crate::text::{copy_string, decimal, push_char, push_decimal, push_str, string_of};

verus! {

/// Writer settings.
#[derive(Debug, Clone, Copy)]
pub struct CounterDBConfig {
    /// Write period in milliseconds.
    pub interval_ms: u64,
}

impl CounterDBConfig {
    pub fn new(interval_ms: u64) -> (r: Self)
        ensures
            r.interval_ms == interval_ms,
    {
        CounterDBConfig { interval_ms }
    }
}

impl Default for CounterDBConfig {
    fn default() -> (r: Self)
        ensures
            r.interval_ms == 10000,
    {
        CounterDBConfig { interval_ms: 10000 }
    }
}

/// Identity of a counter: object name, SAI object type and stat id.
#[derive(Debug, Clone)]
pub struct CounterKey {
    pub object_name: String,
    pub type_id: u32,
    pub stat_id: u32,
}

/// Cached state of a counter.
#[derive(Debug, Clone, Copy, PartialEq, Eq, Structural)]
pub struct CounterValue {
    pub counter: u64,
    pub updated: bool,
    pub last_written_value: Option<u64>,
}

pub open spec fn key_view(k: CounterKey) -> (Seq<char>, u32, u32) {
    (k.object_name@, k.type_id, k.stat_id)
}

pub open spec fn keys_view(s: Seq<CounterKey>) -> Seq<(Seq<char>, u32, u32)> {
    s.map_values(|k: CounterKey| key_view(k))
}

impl CounterKey {
    pub fn new(object_name: String, type_id: u32, stat_id: u32) -> (r: Self)
        ensures
            r.object_name@ == object_name@,
            r.type_id == type_id,
            r.stat_id == stat_id,
    {
        CounterKey { object_name, type_id, stat_id }
    }
}

/// A counter first seen with value `c`.
pub open spec fn fresh_value(c: u64) -> CounterValue {
    CounterValue { counter: c, updated: true, last_written_value: None }
}

/// A counter after observing value `c`: it becomes dirty only when the value changed.
pub open spec fn observed_value(v: CounterValue, c: u64) -> CounterValue {
    if v.counter != c {
        CounterValue { counter: c, updated: true, ..v }
    } else {
        v
    }
}

/// A counter after a successful write.
pub open spec fn written_value(v: CounterValue) -> CounterValue {
    CounterValue { last_written_value: Some(v.counter), updated: false, ..v }
}

/// Whether a counter must be written: dirty, and not equal to what was written last.
pub open spec fn needs_write(v: CounterValue) -> bool {
    v.updated && v.last_written_value != Some(v.counter)
}

impl CounterValue {
    /// A clean counter holds the value written last.
    pub open spec fn wf(self) -> bool {
        !self.updated ==> self.last_written_value == Some(self.counter)
    }

    pub fn new(counter: u64) -> (r: Self)
        ensures
            r == fresh_value(counter),
            r.wf(),
    {
        CounterValue { counter, updated: true, last_written_value: None }
    }

    pub fn update(&mut self, counter: u64)
        requires
            old(self).wf(),
        ensures
            *final(self) == observed_value(*old(self), counter),
            final(self).wf(),
    {
        if self.counter != counter {
            self.counter = counter;
            self.updated = true;
        }
    }

    pub fn mark_written(&mut self)
        ensures
            *final(self) == written_value(*old(self)),
            final(self).wf(),
    {
        self.last_written_value = Some(self.counter);
        self.updated = false;
    }

    pub fn has_changed(&self) -> (r: bool)
        ensures
            r == needs_write(*self),
    {
        match self.last_written_value {
            None => self.updated,
            Some(last) => self.updated && self.counter != last,
        }
    }
}

/// One cached counter.
#[derive(Debug, Clone)]
pub struct CounterEntry {
    pub key: CounterKey,
    pub value: CounterValue,
}

pub open spec fn cache_view(s: Seq<CounterEntry>) -> Seq<((Seq<char>, u32, u32), CounterValue)> {
    s.map_values(|e: CounterEntry| (key_view(e.key), e.value))
}

/// Index of key `k` in the cache, the last one if several.
pub open spec fn key_index(c: Seq<((Seq<char>, u32, u32), CounterValue)>, k: (Seq<char>, u32, u32)) -> Option<int>
    decreases c.len(),
{
    if c.len() == 0 {
        None
    } else if c.last().0 == k {
        Some(c.len() - 1)
    } else {
        key_index(c.drop_last(), k)
    }
}

proof fn lemma_key_index(c: Seq<((Seq<char>, u32, u32), CounterValue)>, k: (Seq<char>, u32, u32))
    ensures
        key_index(c, k) matches Some(i) ==> 0 <= i < c.len() && c[i].0 == k,
        key_index(c, k) is None ==> forall|i: int| 0 <= i < c.len() ==> (#[trigger] c[i]).0 != k,
        unique_keys(c) ==> forall|i: int| 0 <= i < c.len() && (#[trigger] c[i]).0 == k ==> key_index(c, k) == Some(i),
    decreases c.len(),
{
    if c.len() > 0 {
        let d = c.drop_last();
        lemma_key_index(d, k);
        assert forall|i: int| 0 <= i < d.len() implies #[trigger] d[i] == c[i] by {}
        if key_index(c, k) is None {
            assert forall|i: int| 0 <= i < c.len() implies (#[trigger] c[i]).0 != k by {
                if i < c.len() - 1 {
                    assert(d[i] == c[i]);
                }
            }
        }
        if unique_keys(c) {
            assert(unique_keys(d));
            assert forall|i: int| 0 <= i < c.len() && (#[trigger] c[i]).0 == k implies key_index(c, k) == Some(i) by {
                if i < c.len() - 1 {
                    assert(c[i].0 != c[c.len() - 1].0);
                    assert(d[i] == c[i]);
                }
            }
        }
    }
}

/// Each key appears in at most one entry.
pub open spec fn unique_keys(c: Seq<((Seq<char>, u32, u32), CounterValue)>) -> bool {
    forall|i: int, j: int| 0 <= i < j < c.len() ==> (#[trigger] c[i]).0 != (#[trigger] c[j]).0
}

/// The cache after a successful write of counter `k`.
pub open spec fn mark_key(c: Seq<((Seq<char>, u32, u32), CounterValue)>, k: (Seq<char>, u32, u32)) -> Seq<((Seq<char>, u32, u32), CounterValue)> {
    match key_index(c, k) {
        Some(i) => c.update(i, (k, written_value(c[i].1))),
        None => c,
    }
}

/// The cache after successful writes of the counters `ks`, in order.
pub open spec fn mark_keys(c: Seq<((Seq<char>, u32, u32), CounterValue)>, ks: Seq<(Seq<char>, u32, u32)>) -> Seq<((Seq<char>, u32, u32), CounterValue)>
    decreases ks.len(),
{
    if ks.len() == 0 {
        c
    } else {
        mark_key(mark_keys(c, ks.drop_last()), ks.last())
    }
}

proof fn lemma_mark_keys(c: Seq<((Seq<char>, u32, u32), CounterValue)>, ks: Seq<(Seq<char>, u32, u32)>)
    requires
        unique_keys(c),
    ensures
        mark_keys(c, ks).len() == c.len(),
        forall|i: int| 0 <= i < c.len() ==> (#[trigger] mark_keys(c, ks)[i]).0 == c[i].0,
        forall|i: int| 0 <= i < c.len() && (!needs_write(c[i].1) || ks.contains(c[i].0))
            ==> !needs_write((#[trigger] mark_keys(c, ks)[i]).1),
    decreases ks.len(),
{
    if ks.len() > 0 {
        let d = ks.drop_last();
        lemma_mark_keys(c, d);
        let r = mark_keys(c, d);
        let k = ks.last();
        assert(unique_keys(r)) by {
            assert forall|i: int, j: int| 0 <= i < j < r.len() implies (#[trigger] r[i]).0 != (#[trigger] r[j]).0 by {
                assert(c[i].0 != c[j].0);
            }
        }
        lemma_key_index(r, k);
        assert forall|i: int| 0 <= i < c.len() && (!needs_write(c[i].1) || ks.contains(c[i].0))
            implies !needs_write((#[trigger] mark_keys(c, ks)[i]).1) by {
            if c[i].0 == k {
                assert(r[i].0 == k);
            } else if ks.contains(c[i].0) {
                let j = choose|j: int| 0 <= j < ks.len() && ks[j] == c[i].0;
                assert(d[j] == ks[j]);
                assert(d.contains(c[i].0));
            }
        }
    }
}

proof fn lemma_dirty_keys_cover(c: Seq<((Seq<char>, u32, u32), CounterValue)>)
    ensures
        forall|i: int| 0 <= i < c.len() && needs_write((#[trigger] c[i]).1) ==> dirty_keys(c).contains(c[i].0),
    decreases c.len(),
{
    if c.len() > 0 {
        let d = c.drop_last();
        lemma_dirty_keys_cover(d);
        assert forall|i: int| 0 <= i < c.len() && needs_write((#[trigger] c[i]).1) implies dirty_keys(c).contains(c[i].0) by {
            if i < c.len() - 1 {
                assert(d[i] == c[i]);
                let j = choose|j: int| 0 <= j < dirty_keys(d).len() && dirty_keys(d)[j] == c[i].0;
                if needs_write(c.last().1) {
                    assert(dirty_keys(c)[j] == c[i].0);
                }
            } else {
                assert(dirty_keys(c)[dirty_keys(c).len() - 1] == c[i].0);
            }
        }
    }
}

proof fn lemma_no_dirty_keys(c: Seq<((Seq<char>, u32, u32), CounterValue)>)
    requires
        forall|i: int| 0 <= i < c.len() ==> !needs_write((#[trigger] c[i]).1),
    ensures
        dirty_keys(c) == Seq::<(Seq<char>, u32, u32)>::empty(),
    decreases c.len(),
{
    if c.len() > 0 {
        let d = c.drop_last();
        assert forall|i: int| 0 <= i < d.len() implies !needs_write((#[trigger] d[i]).1) by {
            assert(d[i] == c[i]);
        }
        lemma_no_dirty_keys(d);
        assert(!needs_write(c[c.len() - 1].1));
    }
}

/// A tick whose writes all succeed leaves nothing to write: the tick after
/// it, with no new data in between, writes nothing.
pub proof fn lemma_tick_idempotent(c: Seq<((Seq<char>, u32, u32), CounterValue)>)
    requires
        unique_keys(c),
    ensures
        dirty_keys(mark_keys(c, dirty_keys(c))) == Seq::<(Seq<char>, u32, u32)>::empty(),
{
    lemma_dirty_keys_cover(c);
    lemma_mark_keys(c, dirty_keys(c));
    let r = mark_keys(c, dirty_keys(c));
    assert forall|i: int| 0 <= i < r.len() implies !needs_write((#[trigger] r[i]).1) by {
        if needs_write(c[i].1) {
            assert(dirty_keys(c).contains(c[i].0));
        }
    }
    lemma_no_dirty_keys(r);
}

/// A cached counter that is not dirty holds the value written last.
pub proof fn lemma_clean_counter_written(c: Seq<((Seq<char>, u32, u32), CounterValue)>, i: int)
    requires
        cache_wf(c),
        0 <= i < c.len(),
        !c[i].1.updated,
    ensures
        c[i].1.last_written_value == Some(c[i].1.counter),
{
}

/// The cache after observing value `x` of counter `k`.
pub open spec fn observe(c: Seq<((Seq<char>, u32, u32), CounterValue)>, k: (Seq<char>, u32, u32), x: u64) -> Seq<((Seq<char>, u32, u32), CounterValue)> {
    match key_index(c, k) {
        Some(i) => c.update(i, (k, observed_value(c[i].1, x))),
        None => c.push((k, fresh_value(x))),
    }
}

/// The cache after observing every statistic of a batch in order.
pub open spec fn observe_all(c: Seq<((Seq<char>, u32, u32), CounterValue)>, stats: Seq<(Seq<char>, u32, u32, u64)>) -> Seq<((Seq<char>, u32, u32), CounterValue)>
    decreases stats.len(),
{
    if stats.len() == 0 {
        c
    } else {
        let s = stats.last();
        observe(observe_all(c, stats.drop_last()), (s.0, s.1, s.2), s.3)
    }
}

/// Keys of the counters that need a write, in cache order.
pub open spec fn dirty_keys(c: Seq<((Seq<char>, u32, u32), CounterValue)>) -> Seq<(Seq<char>, u32, u32)>
    decreases c.len(),
{
    if c.len() == 0 {
        seq![]
    } else if needs_write(c.last().1) {
        dirty_keys(c.drop_last()).push(c.last().0)
    } else {
        dirty_keys(c.drop_last())
    }
}

/// Every cached counter is well formed.
pub open spec fn cache_wf(c: Seq<((Seq<char>, u32, u32), CounterValue)>) -> bool {
    forall|i: int| 0 <= i < c.len() ==> (#[trigger] c[i]).1.wf()
}

/// Why a counter cannot be written.
#[derive(Debug, Clone, PartialEq, Eq)]
pub enum WriterError {
    /// The type id names no supported SAI object type.
    UnknownObjectType { type_id: u32 },
    /// The stat id names no statistic of the object type.
    UnknownStat { type_id: u32, stat_id: u32 },
    /// The counter is not in the cache.
    NotCached,
    /// The name map table has no object id for the object.
    NameNotFound,
}

/// `(table, lookup_name, stat_field, value)` of the write of counter `k`, or why there is none.
pub open spec fn write_plan(c: Seq<((Seq<char>, u32, u32), CounterValue)>, k: (Seq<char>, u32, u32)) -> Result<(Seq<char>, Seq<char>, Seq<char>, Seq<char>), WriterError> {
    match key_index(c, k) {
        None => Err(WriterError::NotCached),
        Some(i) => match SaiObjectType::from_u32_spec(k.1) {
            None => Err(WriterError::UnknownObjectType { type_id: k.1 }),
            Some(t) => match stat_c_name(t, k.2) {
                None => Err(WriterError::UnknownStat { type_id: k.1, stat_id: k.2 }),
                Some(n) => Ok((name_map_table(t), lookup_name(k.0), n, decimal(c[i].1.counter as nat))),
            },
        },
    }
}

/// `(table, lookup_name, oid)` of each cached object id.
pub open spec fn oid_view(s: Seq<OidEntry>) -> Seq<(Seq<char>, Seq<char>, Seq<char>)> {
    s.map_values(|e: OidEntry| (e.table@, e.lookup_name@, e.oid@))
}

/// Object id cached for `name` in `table`, the first one from position `i` on.
pub open spec fn oid_from(s: Seq<(Seq<char>, Seq<char>, Seq<char>)>, i: int, table: Seq<char>, name: Seq<char>) -> Option<Seq<char>>
    decreases s.len() - i,
{
    if i < 0 || i >= s.len() {
        None
    } else if s[i].0 == table && s[i].1 == name {
        Some(s[i].2)
    } else {
        oid_from(s, i + 1, table, name)
    }
}

/// What the counter-store tick must do next for one counter.
#[derive(Debug, Clone, PartialEq, Eq)]
pub enum TickAction {
    /// Resolve the object id: `HGET <table> <lookup_name>`.
    Lookup(String, String),
    /// Write the counter: `HSET <key> <field> <value>`.
    Write(String, String, String),
    /// Leave the counter for a later tick.
    Skip(WriterError),
}

/// Where and what to write for one counter.
#[derive(Debug, Clone)]
pub struct WriteRequest {
    /// Name map table that resolves the object name to its object id.
    pub table: String,
    /// Object name as the name map table spells it.
    pub lookup_name: String,
    /// Field of the counter hash.
    pub stat_field: String,
    /// Value to write, in decimal.
    pub value: String,
}

/// `COUNTERS_<TYPE>_NAME_MAP` for an object type.
pub open spec fn name_map_table(t: SaiObjectType) -> Seq<char> {
    "COUNTERS_"@ + t.spec_suffix() + "_NAME_MAP"@
}

/// Position of the last `|` in `s`, if any.
pub open spec fn last_pipe(s: Seq<char>) -> Option<int>
    decreases s.len(),
{
    if s.len() == 0 {
        None
    } else if s.last() == '|' {
        Some(s.len() - 1)
    } else {
        last_pipe(s.drop_last())
    }
}

/// Object name with its last `|` replaced by `:`.
pub open spec fn lookup_name(s: Seq<char>) -> Seq<char> {
    match last_pipe(s) {
        Some(i) => s.update(i, ':'),
        None => s,
    }
}

/// Canonical C name of a stat of an object type, if the stat exists.
pub open spec fn stat_c_name(t: SaiObjectType, stat_id: u32) -> Option<Seq<char>> {
    match t {
        SaiObjectType::Port => if exists|v: SaiPortStat| v.spec_id() == stat_id {
            Some((choose|v: SaiPortStat| v.spec_id() == stat_id).spec_c_name())
        } else {
            None
        },
        SaiObjectType::Queue => if exists|v: SaiQueueStat| v.spec_id() == stat_id {
            Some((choose|v: SaiQueueStat| v.spec_id() == stat_id).spec_c_name())
        } else {
            None
        },
        SaiObjectType::BufferPool => if exists|v: SaiBufferPoolStat| v.spec_id() == stat_id {
            Some((choose|v: SaiBufferPoolStat| v.spec_id() == stat_id).spec_c_name())
        } else {
            None
        },
        SaiObjectType::IngressPriorityGroup => if exists|v: SaiIngressPriorityGroupStat| v.spec_id() == stat_id {
            Some((choose|v: SaiIngressPriorityGroupStat| v.spec_id() == stat_id).spec_c_name())
        } else {
            None
        },
    }
}

/// The name map table of an object type.
pub fn get_counter_name_map_table(object_type: SaiObjectType) -> (r: String)
    ensures
        r@ == name_map_table(object_type),
{
    let mut s = string_of("COUNTERS_");
    push_str(&mut s, object_type.suffix());
    push_str(&mut s, "_NAME_MAP");
    s
}

/// Replaces the last `|` of an object name by `:`.
pub fn convert_object_name_for_lookup(object_name: &str) -> (r: String)
    ensures
        r@ == lookup_name(object_name@),
{
    let n = object_name.unicode_len();
    let mut pos: Option<usize> = None;
    let mut i: usize = n;
    assert(object_name@.take(n as int) =~= object_name@);
    while i > 0
        invariant_except_break
            i <= n,
            n == object_name@.len(),
            last_pipe(object_name@) == last_pipe(object_name@.take(i as int)),
            pos is None,
        ensures
            n == object_name@.len(),
            pos matches Some(p) ==> p < n && last_pipe(object_name@) == Some(p as int),
            pos is None ==> last_pipe(object_name@) is None,
        decreases i,
    {
        assert(object_name@.take(i as int).drop_last() =~= object_name@.take(i - 1));
        if object_name.get_char(i - 1) == '|' {
            pos = Some(i - 1);
            break;
        }
        i = i - 1;
    }
    let mut out = String::new();
    let mut j: usize = 0;
    while j < n
        invariant
            j <= n,
            n == object_name@.len(),
            pos matches Some(p) ==> p < n && last_pipe(object_name@) == Some(p as int),
            pos is None ==> last_pipe(object_name@) is None,
            out@ == lookup_name(object_name@).take(j as int),
        decreases n - j,
    {
        let c = object_name.get_char(j);
        let d = match pos {
            Some(p) => if p == j { ':' } else { c },
            None => c,
        };
        push_char(&mut out, d);
        j = j + 1;
        assert(out@ =~= lookup_name(object_name@).take(j as int));
    }
    assert(lookup_name(object_name@).take(n as int) =~= lookup_name(object_name@));
    out
}

/// Canonical C name of a stat id for an object type.
pub fn get_stat_name(stat_id: u32, object_type: SaiObjectType) -> (r: Result<String, WriterError>)
    ensures
        match stat_c_name(object_type, stat_id) {
            Some(n) => r is Ok && r->Ok_0@ == n,
            None => r == Err::<String, WriterError>(WriterError::UnknownStat { type_id: object_type.spec_id(), stat_id }),
        },
{
    match object_type {
        SaiObjectType::Port => match SaiPortStat::from_u32(stat_id) {
            Some(v) => Ok(string_of(v.to_c_name())),
            None => Err(WriterError::UnknownStat { type_id: object_type.to_u32(), stat_id }),
        },
        SaiObjectType::Queue => match SaiQueueStat::from_u32(stat_id) {
            Some(v) => Ok(string_of(v.to_c_name())),
            None => Err(WriterError::UnknownStat { type_id: object_type.to_u32(), stat_id }),
        },
        SaiObjectType::BufferPool => match SaiBufferPoolStat::from_u32(stat_id) {
            Some(v) => Ok(string_of(v.to_c_name())),
            None => Err(WriterError::UnknownStat { type_id: object_type.to_u32(), stat_id }),
        },
        SaiObjectType::IngressPriorityGroup => match SaiIngressPriorityGroupStat::from_u32(stat_id) {
            Some(v) => Ok(string_of(v.to_c_name())),
            None => Err(WriterError::UnknownStat { type_id: object_type.to_u32(), stat_id }),
        },
    }
}

/// Key of the counter hash of object id `oid`: `COUNTERS:<oid>`.
pub fn counters_key(oid: &str) -> (r: String)
    ensures
        r@ == "COUNTERS:"@ + oid@,
{
    let mut s = string_of("COUNTERS:");
    push_str(&mut s, oid);
    s
}

/// Decimal text of a counter value.
pub fn counter_text(value: u64) -> (r: String)
    ensures
        r@ == decimal(value as nat),
{
    let mut s = String::new();
    push_decimal(&mut s, value);
    assert(Seq::<char>::empty() + decimal(value as nat) =~= decimal(value as nat));
    s
}

/// One resolved object id: the name map table and lookup name it answers.
#[derive(Debug, Clone)]
pub struct OidEntry {
    pub table: String,
    pub lookup_name: String,
    pub oid: String,
}

/// Writer state: the counter cache and the object id cache.
pub struct CounterWriter {
    pub counter_cache: Vec<CounterEntry>,
    pub oid_cache: Vec<OidEntry>,
    pub total_messages_received: u64,
    pub writes_performed: u64,
}

impl CounterWriter {
    /// Keys are unique and every counter is well formed.
    pub open spec fn wf(&self) -> bool {
        &&& cache_wf(cache_view(self.counter_cache@))
        &&& unique_keys(cache_view(self.counter_cache@))
    }

    pub fn new() -> (r: Self)
        ensures
            r.wf(),
            cache_view(r.counter_cache@) == Seq::<((Seq<char>, u32, u32), CounterValue)>::empty(),
            r.oid_cache@.len() == 0,
    {
        let r = CounterWriter { counter_cache: Vec::new(), oid_cache: Vec::new(), total_messages_received: 0, writes_performed: 0 };
        assert(cache_view(r.counter_cache@) =~= Seq::<((Seq<char>, u32, u32), CounterValue)>::empty());
        r
    }

    /// Index of a counter in the cache.
    fn find(&self, object_name: &String, type_id: u32, stat_id: u32) -> (r: Option<usize>)
        ensures
            r is None <==> key_index(cache_view(self.counter_cache@), (object_name@, type_id, stat_id)) is None,
            r matches Some(i) ==> i < self.counter_cache@.len()
                && key_index(cache_view(self.counter_cache@), (object_name@, type_id, stat_id)) == Some(i as int),
    {
        proof {
            lemma_key_index(cache_view(self.counter_cache@), (object_name@, type_id, stat_id));
        }
        let ghost c = cache_view(self.counter_cache@);
        let mut i: usize = self.counter_cache.len();
        assert(c.take(i as int) =~= c);
        while i > 0
            invariant
                i <= self.counter_cache@.len(),
                c == cache_view(self.counter_cache@),
                key_index(c, (object_name@, type_id, stat_id)) == key_index(c.take(i as int), (object_name@, type_id, stat_id)),
            decreases i,
        {
            assert(c.take(i as int).drop_last() =~= c.take(i - 1));
            let e = &self.counter_cache[i - 1];
            if e.key.type_id == type_id && e.key.stat_id == stat_id && e.key.object_name == *object_name {
                return Some(i - 1);
            }
            i = i - 1;
        }
        None
    }

    /// Records the value of one counter.
    pub fn observe_counter(&mut self, object_name: &String, type_id: u32, stat_id: u32, counter: u64)
        requires
            old(self).wf(),
        ensures
            final(self).wf(),
            cache_view(final(self).counter_cache@) == observe(cache_view(old(self).counter_cache@), (object_name@, type_id, stat_id), counter),
            final(self).oid_cache@ == old(self).oid_cache@,
            final(self).total_messages_received == old(self).total_messages_received,
    {
        let ghost c = cache_view(self.counter_cache@);
        proof {
            lemma_key_index(c, (object_name@, type_id, stat_id));
        }
        match self.find(object_name, type_id, stat_id) {
            Some(i) => {
                let mut v = self.counter_cache[i].value;
                assert(c[i as int].1 == v);
                assert(v.wf());
                v.update(counter);
                let e = CounterEntry {
                    key: CounterKey { object_name: copy_string(object_name), type_id, stat_id },
                    value: v,
                };
                self.counter_cache.set(i, e);
                assert(cache_view(self.counter_cache@) =~= c.update(i as int, ((object_name@, type_id, stat_id), v)));

            },
            None => {
                let e = CounterEntry {
                    key: CounterKey { object_name: copy_string(object_name), type_id, stat_id },
                    value: CounterValue::new(counter),
                };
                self.counter_cache.push(e);
                assert(cache_view(self.counter_cache@) =~= c.push(((object_name@, type_id, stat_id), fresh_value(counter))));
            },
        }
    }

    /// Records every statistic of a batch.
    pub fn handle_stats_message(&mut self, msg: &SAIStats)
        requires
            old(self).wf(),
        ensures
            final(self).wf(),
            cache_view(final(self).counter_cache@) == observe_all(cache_view(old(self).counter_cache@), stats_view(msg.stats@)),
            final(self).oid_cache@ == old(self).oid_cache@,
            final(self).total_messages_received == if old(self).total_messages_received == u64::MAX {
                u64::MAX
            } else {
                (old(self).total_messages_received + 1) as u64
            },
    {
        self.total_messages_received = self.total_messages_received.saturating_add(1);
        let ghost total = self.total_messages_received;
        let ghost c0 = cache_view(self.counter_cache@);
        let ghost sv = stats_view(msg.stats@);
        let mut i: usize = 0;
        assert(sv.take(0) =~= Seq::<(Seq<char>, u32, u32, u64)>::empty());
        while i < msg.stats.len()
            invariant
                i <= msg.stats@.len(),
                sv == stats_view(msg.stats@),
                self.wf(),
                cache_view(self.counter_cache@) == observe_all(c0, sv.take(i as int)),
                self.oid_cache@ == old(self).oid_cache@,
                self.total_messages_received == total,
            decreases msg.stats@.len() - i,
        {
            assert(sv.take(i + 1).drop_last() =~= sv.take(i as int));
            let s = &msg.stats[i];
            self.observe_counter(&s.object_name, s.type_id, s.stat_id, s.counter);
            i = i + 1;
        }
        assert(sv.take(i as int) =~= sv);
    }

    /// Keys of the counters that the next tick must write.
    pub fn keys_to_update(&self) -> (r: Vec<CounterKey>)
        ensures
            keys_view(r@) == dirty_keys(cache_view(self.counter_cache@)),
    {
        let ghost c = cache_view(self.counter_cache@);
        let mut out: Vec<CounterKey> = Vec::new();
        let mut i: usize = 0;
        assert(c.take(0) =~= Seq::<((Seq<char>, u32, u32), CounterValue)>::empty());
        assert(keys_view(out@) =~= Seq::<(Seq<char>, u32, u32)>::empty());
        while i < self.counter_cache.len()
            invariant
                i <= self.counter_cache@.len(),
                c == cache_view(self.counter_cache@),
                keys_view(out@) == dirty_keys(c.take(i as int)),
            decreases self.counter_cache@.len() - i,
        {
            assert(c.take(i + 1).drop_last() =~= c.take(i as int));
            let e = &self.counter_cache[i];
            if e.value.has_changed() {
                let k = CounterKey { object_name: copy_string(&e.key.object_name), type_id: e.key.type_id, stat_id: e.key.stat_id };
                let ghost old_out = out@;
                out.push(k);
                assert(keys_view(out@) =~= keys_view(old_out).push(key_view(k)));
            }
            i = i + 1;
        }
        assert(c.take(i as int) =~= c);
        out
    }

    /// Records a successful write of counter `key`.
    pub fn mark_written(&mut self, key: &CounterKey)
        requires
            old(self).wf(),
        ensures
            final(self).wf(),
            cache_view(final(self).counter_cache@) == match key_index(cache_view(old(self).counter_cache@), key_view(*key)) {
                Some(i) => cache_view(old(self).counter_cache@).update(i, (key_view(*key), written_value(cache_view(old(self).counter_cache@)[i].1))),
                None => cache_view(old(self).counter_cache@),
            },
            final(self).oid_cache@ == old(self).oid_cache@,
    {
        let ghost c = cache_view(self.counter_cache@);
        proof {
            lemma_key_index(c, key_view(*key));
        }
        match self.find(&key.object_name, key.type_id, key.stat_id) {
            Some(i) => {
                let mut v = self.counter_cache[i].value;
                v.mark_written();
                let e = CounterEntry {
                    key: CounterKey { object_name: copy_string(&key.object_name), type_id: key.type_id, stat_id: key.stat_id },
                    value: v,
                };
                self.counter_cache.set(i, e);
                assert(cache_view(self.counter_cache@) =~= c.update(i as int, (key_view(*key), v)));
                assert(unique_keys(cache_view(self.counter_cache@))) by {
                    let n = cache_view(self.counter_cache@);
                    assert forall|a: int, b: int| 0 <= a < b < n.len() implies (#[trigger] n[a]).0 != (#[trigger] n[b]).0 by {
                        assert(c[a].0 != c[b].0);
                    }
                }
            },
            None => {},
        }
    }

    /// What to write for counter `key`: the name map table and lookup name
    /// that resolve its object id, its stat field and its value.
    pub fn prepare_write(&self, key: &CounterKey) -> (r: Result<WriteRequest, WriterError>)
        ensures
            match key_index(cache_view(self.counter_cache@), key_view(*key)) {
                None => r == Err::<WriteRequest, WriterError>(WriterError::NotCached),
                Some(i) => match SaiObjectType::from_u32_spec(key.type_id) {
                    None => r == Err::<WriteRequest, WriterError>(WriterError::UnknownObjectType { type_id: key.type_id }),
                    Some(t) => match stat_c_name(t, key.stat_id) {
                        None => r == Err::<WriteRequest, WriterError>(WriterError::UnknownStat { type_id: key.type_id, stat_id: key.stat_id }),
                        Some(n) => r matches Ok(w) && w.table@ == name_map_table(t)
                            && w.lookup_name@ == lookup_name(key.object_name@)
                            && w.stat_field@ == n
                            && w.value@ == decimal(cache_view(self.counter_cache@)[i].1.counter as nat),
                    },
                },
            },
            match write_plan(cache_view(self.counter_cache@), key_view(*key)) {
                Ok(p) => (r matches Ok(w) && (w.table@, w.lookup_name@, w.stat_field@, w.value@) == p),
                Err(e) => r == Err::<WriteRequest, WriterError>(e),
            },
    {
        let i = match self.find(&key.object_name, key.type_id, key.stat_id) {
            Some(i) => i,
            None => return Err(WriterError::NotCached),
        };
        let t = match SaiObjectType::from_u32(key.type_id) {
            Some(t) => t,
            None => return Err(WriterError::UnknownObjectType { type_id: key.type_id }),
        };
        let stat_field = match get_stat_name(key.stat_id, t) {
            Ok(n) => n,
            Err(e) => return Err(e),
        };
        Ok(WriteRequest {
            table: get_counter_name_map_table(t),
            lookup_name: convert_object_name_for_lookup(key.object_name.as_str()),
            stat_field,
            value: counter_text(self.counter_cache[i].value.counter),
        })
    }

    /// The object id cached for `lookup_name` in `table`.
    pub fn cached_oid(&self, table: &String, lookup_name: &String) -> (r: Option<String>)
        ensures
            r is None <==> oid_from(oid_view(self.oid_cache@), 0, table@, lookup_name@) is None,
            r matches Some(o) ==> oid_from(oid_view(self.oid_cache@), 0, table@, lookup_name@) == Some(o@),
    {
        let ghost v = oid_view(self.oid_cache@);
        let mut i: usize = 0;
        while i < self.oid_cache.len()
            invariant
                i <= self.oid_cache@.len(),
                v == oid_view(self.oid_cache@),
                oid_from(v, 0, table@, lookup_name@) == oid_from(v, i as int, table@, lookup_name@),
            decreases self.oid_cache@.len() - i,
        {
            let e = &self.oid_cache[i];
            if e.table == *table && e.lookup_name == *lookup_name {
                return Some(copy_string(&e.oid));
            }
            i = i + 1;
        }
        None
    }

    /// First step of writing counter `key`: skip it when it cannot be
    /// written, write it when its object id is cached, else look the id up.
    pub fn start_write(&self, key: &CounterKey) -> (r: TickAction)
        ensures
            match write_plan(cache_view(self.counter_cache@), key_view(*key)) {
                Err(e) => r == TickAction::Skip(e),
                Ok(p) => match oid_from(oid_view(self.oid_cache@), 0, p.0, p.1) {
                    Some(o) => (r matches TickAction::Write(k, f, v) && k@ == "COUNTERS:"@ + o && f@ == p.2 && v@ == p.3),
                    None => (r matches TickAction::Lookup(t, n) && t@ == p.0 && n@ == p.1),
                },
            },
    {
        let w = match self.prepare_write(key) {
            Ok(w) => w,
            Err(e) => return TickAction::Skip(e),
        };
        match self.cached_oid(&w.table, &w.lookup_name) {
            Some(oid) => TickAction::Write(counters_key(oid.as_str()), w.stat_field, w.value),
            None => TickAction::Lookup(w.table, w.lookup_name),
        }
    }

    /// The object id lookup for counter `key` came back: a found id is
    /// cached and the counter is written; a missing one skips the counter
    /// and is not cached, so the next tick asks again.
    pub fn on_lookup(&mut self, key: &CounterKey, fetched: Option<String>) -> (r: TickAction)
        requires
            old(self).wf(),
        ensures
            final(self).wf(),
            final(self).counter_cache@ == old(self).counter_cache@,
            match write_plan(cache_view(old(self).counter_cache@), key_view(*key)) {
                Err(e) => r == TickAction::Skip(e) && final(self).oid_cache@ == old(self).oid_cache@,
                Ok(p) => match fetched {
                    Some(o) => (r matches TickAction::Write(k, f, v) && k@ == "COUNTERS:"@ + o@ && f@ == p.2 && v@ == p.3)
                        && oid_view(final(self).oid_cache@) == oid_view(old(self).oid_cache@).push((p.0, p.1, o@)),
                    None => r == TickAction::Skip(WriterError::NameNotFound)
                        && final(self).oid_cache@ == old(self).oid_cache@,
                },
            },
    {
        let w = match self.prepare_write(key) {
            Ok(w) => w,
            Err(e) => return TickAction::Skip(e),
        };
        match fetched {
            Some(oid) => {
                let ghost before = self.oid_cache@;
                self.cache_oid(&w.table, &w.lookup_name, &oid);
                assert(oid_view(self.oid_cache@) =~= oid_view(before).push((w.table@, w.lookup_name@, oid@)));
                TickAction::Write(counters_key(oid.as_str()), w.stat_field, w.value)
            },
            None => TickAction::Skip(WriterError::NameNotFound),
        }
    }

    /// The write of counter `key` came back: only a success marks it written.
    pub fn on_write_result(&mut self, key: &CounterKey, ok: bool)
        requires
            old(self).wf(),
        ensures
            final(self).wf(),
            final(self).oid_cache@ == old(self).oid_cache@,
            ok ==> cache_view(final(self).counter_cache@) == mark_key(cache_view(old(self).counter_cache@), key_view(*key)),
            !ok ==> final(self).counter_cache@ == old(self).counter_cache@,
    {
        if ok {
            self.mark_written(key);
        }
    }

    /// Remembers the object id of `lookup_name` in `table`.
    pub fn cache_oid(&mut self, table: &String, lookup_name: &String, oid: &String)
        ensures
            final(self).oid_cache@.len() == old(self).oid_cache@.len() + 1,
            forall|i: int| 0 <= i < old(self).oid_cache@.len() ==> final(self).oid_cache@[i] == old(self).oid_cache@[i],
            final(self).oid_cache@.last().table@ == table@,
            final(self).oid_cache@.last().lookup_name@ == lookup_name@,
            final(self).oid_cache@.last().oid@ == oid@,
            final(self).counter_cache@ == old(self).counter_cache@,
    {
        self.oid_cache.push(OidEntry { table: copy_string(table), lookup_name: copy_string(lookup_name), oid: copy_string(oid) });
    }
}

} // verus!
