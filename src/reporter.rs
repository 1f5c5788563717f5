//! The periodic reporter: a snapshot of the latest value of every counter
//! and the lines of each report.

use vstd::prelude::*;
use vstd::pervasive::VecAdditionalExecFns;
use crate::order::{key_lt, str_lt, lemma_key_lt_transitive, lemma_key_lt_total};
use crate::sai_types::SaiObjectType;
use crate::stats::{SAIStats, stats_view};
use crate::text::{
    copy_string, decimal, decimal_string, digit_char, pad_left, pad_right, push_char, push_decimal,
    push_decimal_wide, push_padded_left, push_padded_right, push_str, string_of,
};
use crate::writer::{get_stat_name, stat_c_name};

verus! {

/// Identity of a counter in the reporter's snapshot.
#[derive(Debug, Clone)]
pub struct CounterKey {
    pub object_name: String,
    pub type_id: u32,
    pub stat_id: u32,
}

impl CounterKey {
    pub fn new(object_name: String, type_id: u32, stat_id: u32) -> (r: Self)
        ensures
            r.object_name@ == object_name@,
            r.type_id == type_id,
            r.stat_id == stat_id,
    {
        CounterKey { object_name, type_id, stat_id }
    }
}

/// Where report lines go.
pub trait OutputWriter {
    fn write_line(&mut self, line: &str);
}

/// Keeps every line written, for inspection.
pub struct TestWriter {
    pub lines: Vec<String>,
}

impl TestWriter {
    pub fn new() -> (r: Self)
        ensures
            r.lines@.len() == 0,
    {
        TestWriter { lines: Vec::new() }
    }

    pub fn get_output(&self) -> (r: &[String])
        ensures
            r@ == self.lines@,
    {
        self.lines.as_slice()
    }
}

impl OutputWriter for TestWriter {
    fn write_line(&mut self, line: &str) {
        self.lines.push(string_of(line));
    }
}

/// Latest value of a counter and the observation time it came with.
#[derive(Debug, Clone, Copy, PartialEq, Eq, Structural)]
pub struct CounterInfo {
    pub counter: u64,
    pub last_observation_time: u64,
}

/// Reporter settings.
#[derive(Debug, Clone, Copy)]
pub struct StatsReporterConfig {
    /// Reporting period in milliseconds.
    pub interval_ms: u64,
    /// One line per counter, else aggregate totals.
    pub detailed: bool,
    /// Most counter lines in one detailed report.
    pub max_stats_per_report: Option<usize>,
}

impl Default for StatsReporterConfig {
    fn default() -> (r: Self)
        ensures
            r.interval_ms == 10000,
            r.detailed,
            r.max_stats_per_report is None,
    {
        StatsReporterConfig { interval_ms: 10000, detailed: true, max_stats_per_report: None }
    }
}

/// One counter of the snapshot with its arrivals in the current period.
#[derive(Debug, Clone)]
pub struct ReportEntry {
    pub key: CounterKey,
    pub info: CounterInfo,
    pub arrivals: u64,
}

/// `(key, info, arrivals)` of an entry.
pub open spec fn entry_view(e: ReportEntry) -> ((Seq<char>, u32, u32), CounterInfo, u64) {
    ((e.key.object_name@, e.key.type_id, e.key.stat_id), e.info, e.arrivals)
}

pub open spec fn snapshot_view(s: Seq<ReportEntry>) -> Seq<((Seq<char>, u32, u32), CounterInfo, u64)> {
    s.map_values(|e: ReportEntry| entry_view(e))
}

/// Index of key `k` in the snapshot, the last one if several.
pub open spec fn key_index(c: Seq<((Seq<char>, u32, u32), CounterInfo, u64)>, k: (Seq<char>, u32, u32)) -> Option<int>
    decreases c.len(),
{
    if c.len() == 0 {
        None
    } else if c.last().0 == k {
        Some(c.len() - 1)
    } else {
        key_index(c.drop_last(), k)
    }
}

pub open spec fn unique_keys(c: Seq<((Seq<char>, u32, u32), CounterInfo, u64)>) -> bool {
    forall|i: int, j: int| 0 <= i < j < c.len() ==> (#[trigger] c[i]).0 != (#[trigger] c[j]).0
}

/// The snapshot after a statistic with value `x` observed at time `t`.
pub open spec fn observe(c: Seq<((Seq<char>, u32, u32), CounterInfo, u64)>, k: (Seq<char>, u32, u32), x: u64, t: u64) -> Seq<((Seq<char>, u32, u32), CounterInfo, u64)> {
    let info = CounterInfo { counter: x, last_observation_time: t };
    match key_index(c, k) {
        Some(i) => c.update(i, (k, info, if c[i].2 == u64::MAX { u64::MAX } else { (c[i].2 + 1) as u64 })),
        None => c.push((k, info, 1)),
    }
}

/// The snapshot after every statistic of a batch observed at time `t`.
pub open spec fn observe_all(c: Seq<((Seq<char>, u32, u32), CounterInfo, u64)>, stats: Seq<(Seq<char>, u32, u32, u64)>, t: u64) -> Seq<((Seq<char>, u32, u32), CounterInfo, u64)>
    decreases stats.len(),
{
    if stats.len() == 0 {
        c
    } else {
        let s = stats.last();
        observe(observe_all(c, stats.drop_last(), t), (s.0, s.1, s.2), s.3, t)
    }
}

proof fn lemma_key_index(c: Seq<((Seq<char>, u32, u32), CounterInfo, u64)>, k: (Seq<char>, u32, u32))
    ensures
        key_index(c, k) matches Some(i) ==> 0 <= i < c.len() && c[i].0 == k,
        key_index(c, k) is None ==> forall|i: int| 0 <= i < c.len() ==> (#[trigger] c[i]).0 != k,
    decreases c.len(),
{
    if c.len() > 0 {
        let d = c.drop_last();
        lemma_key_index(d, k);
        if key_index(c, k) is None {
            assert forall|i: int| 0 <= i < c.len() implies (#[trigger] c[i]).0 != k by {
                if i < c.len() - 1 {
                    assert(d[i] == c[i]);
                }
            }
        }
    }
}

/// Start of the first `_STAT_` in `s` from `i` on.
pub open spec fn stat_marker_from(s: Seq<char>, i: int) -> Option<int>
    decreases s.len() - i,
{
    if i < 0 || i + 6 > s.len() {
        None
    } else if s.subrange(i, i + 6) == "_STAT_"@ {
        Some(i)
    } else {
        stat_marker_from(s, i + 1)
    }
}

/// A statistic name without its `SAI_<TYPE>_STAT_` prefix.
pub open spec fn without_sai_prefix(s: Seq<char>) -> Seq<char> {
    if s.len() >= 4 && s.subrange(0, 4) == "SAI_"@ {
        match stat_marker_from(s, 0) {
            Some(i) => s.subrange(i + 6, s.len() as int),
            None => s,
        }
    } else {
        s
    }
}

/// Name of an object type in reports.
pub open spec fn type_text(type_id: u32) -> Seq<char> {
    match SaiObjectType::from_u32_spec(type_id) {
        Some(t) => t.spec_short_name(),
        None => "UNKNOWN("@ + decimal(type_id as nat) + ")"@,
    }
}

/// Tag of an object type in the name of an unknown statistic.
pub open spec fn unknown_stat_tag(t: SaiObjectType) -> Seq<char> {
    match t {
        SaiObjectType::Port => "UNKNOWN_PORT_STAT_"@,
        SaiObjectType::Queue => "UNKNOWN_QUEUE_STAT_"@,
        SaiObjectType::BufferPool => "UNKNOWN_BUFFER_POOL_STAT_"@,
        SaiObjectType::IngressPriorityGroup => "UNKNOWN_IPG_STAT_"@,
    }
}

/// Name of a statistic in reports.
pub open spec fn stat_text(type_id: u32, stat_id: u32) -> Seq<char> {
    match SaiObjectType::from_u32_spec(type_id) {
        Some(t) => match stat_c_name(t, stat_id) {
            Some(n) => without_sai_prefix(n),
            None => unknown_stat_tag(t) + decimal(stat_id as nat),
        },
        None => "INVALID_TYPE_"@ + decimal(type_id as nat) + "_STAT_"@ + decimal(stat_id as nat),
    }
}

/// What `chrono` renders for a UTC instant with `"%Y-%m-%d %H:%M:%S.%f UTC"`,
/// or none when the instant is out of its range.
pub uninterp spec fn chrono_utc_text(secs: i64, nanos: u32) -> Option<Seq<char>>;

/// Relies on `chrono::DateTime::from_timestamp` and `DateTime::format`: the
/// instant `secs` seconds and `nanos` nanoseconds after the Unix epoch,
/// rendered in UTC, or `None` when chrono cannot represent it.
#[verifier::external_body]
fn utc_text(secs: i64, nanos: u32) -> (r: Option<String>)
    ensures
        match r {
            Some(s) => chrono_utc_text(secs, nanos) == Some(s@),
            None => chrono_utc_text(secs, nanos) is None,
        },
{
    chrono::DateTime::from_timestamp(secs, nanos).map(|t| t.format("%Y-%m-%d %H:%M:%S.%f UTC").to_string())
}

/// Nine-digit zero-padded numeral of `n`.
pub open spec fn nine_digits(n: nat) -> Seq<char> {
    Seq::new((if decimal(n).len() < 9 { 9 - decimal(n).len() } else { 0 }) as nat, |i: int| '0') + decimal(n)
}

/// Text of an observation time in nanoseconds.
pub open spec fn timestamp_text(ns: u64) -> Seq<char> {
    let secs = (ns / 1_000_000_000) as i64;
    let nanos = (ns % 1_000_000_000) as u32;
    match chrono_utc_text(secs, nanos) {
        Some(t) => t,
        None => decimal(secs as nat) + "."@ + nine_digits(nanos as nat),
    }
}

/// Observation time as `YYYY-MM-DD HH:MM:SS.nnnnnnnnn UTC`.
pub fn format_timestamp(timestamp_ns: u64) -> (r: String)
    ensures
        r@ == timestamp_text(timestamp_ns),
{
    let secs = (timestamp_ns / 1_000_000_000) as i64;
    let nanos = (timestamp_ns % 1_000_000_000) as u32;
    match utc_text(secs, nanos) {
        Some(t) => t,
        None => {
            let mut s = String::new();
            push_decimal(&mut s, secs as u64);
            push_char(&mut s, '.');
            let digits = decimal_string(nanos as u128);
            let n = digits.unicode_len();
            let mut k: usize = n;
            let ghost start = s@;
            while k < 9
                invariant
                    n <= k <= 9 || (n > 9 && k == n),
                    n == decimal(nanos as nat).len(),
                    s@ == start + Seq::new((k - n) as nat, |i: int| '0'),
                decreases 9 - k,
            {
                push_char(&mut s, '0');
                k = k + 1;
                assert(s@ =~= start + Seq::new((k - n) as nat, |i: int| '0'));
            }
            push_str(&mut s, digits.as_str());
            assert(s@ =~= Seq::<char>::empty() + decimal(secs as nat) + "."@ + nine_digits(nanos as nat)) by {
                reveal_strlit(".");
            }
            s
        },
    }
}

/// A statistic name without its `SAI_<TYPE>_STAT_` prefix.
pub fn remove_sai_prefix(stat_name: &str) -> (r: String)
    ensures
        r@ == without_sai_prefix(stat_name@),
{
    let n = stat_name.unicode_len();
    proof {
        reveal_strlit("SAI_");
        reveal_strlit("_STAT_");
    }
    if n < 4 || !(stat_name.get_char(0) == 'S' && stat_name.get_char(1) == 'A' && stat_name.get_char(2) == 'I'
        && stat_name.get_char(3) == '_') {
        proof {
            if n >= 4 {
                assert(stat_name@.subrange(0, 4) != "SAI_"@) by {
                    reveal_strlit("SAI_");
                    if stat_name@.subrange(0, 4) == "SAI_"@ {
                        assert(stat_name@.subrange(0, 4)[0] == 'S');
                        assert(stat_name@.subrange(0, 4)[1] == 'A');
                        assert(stat_name@.subrange(0, 4)[2] == 'I');
                        assert(stat_name@.subrange(0, 4)[3] == '_');
                    }
                }
            }
        }
        return string_of(stat_name);
    }
    proof {
        reveal_strlit("SAI_");
        assert(stat_name@.subrange(0, 4) =~= "SAI_"@);
    }
    let mut i: usize = 0;
    while i < n && n - i >= 6
        invariant
            n == stat_name@.len(),
            n >= 4,
            stat_name@.subrange(0, 4) == "SAI_"@,
            stat_marker_from(stat_name@, 0) == stat_marker_from(stat_name@, i as int),
        decreases n - i,
    {
        let hit = stat_name.get_char(i) == '_' && stat_name.get_char(i + 1) == 'S' && stat_name.get_char(i + 2) == 'T'
            && stat_name.get_char(i + 3) == 'A' && stat_name.get_char(i + 4) == 'T' && stat_name.get_char(i + 5) == '_';
        if hit {
            proof {
                reveal_strlit("_STAT_");
                assert(stat_name@.subrange(i as int, i + 6) =~= "_STAT_"@);
            }
            let mut out = String::new();
            let mut k = i + 6;
            while k < n
                invariant
                    i + 6 <= k <= n == stat_name@.len(),
                    out@ == stat_name@.subrange(i + 6, k as int),
                decreases n - k,
            {
                push_char(&mut out, stat_name.get_char(k));
                k = k + 1;
                assert(out@ =~= stat_name@.subrange(i + 6, k as int));
            }
            assert(stat_marker_from(stat_name@, i as int) == Some(i as int));
            assert(stat_name@.subrange(0, 4) == "SAI_"@);
            return out;
        }
        assert(stat_name@.subrange(i as int, i + 6) != "_STAT_"@) by {
            reveal_strlit("_STAT_");
            if stat_name@.subrange(i as int, i + 6) == "_STAT_"@ {
                assert(stat_name@.subrange(i as int, i + 6)[0] == '_');
                assert(stat_name@.subrange(i as int, i + 6)[1] == 'S');
                assert(stat_name@.subrange(i as int, i + 6)[2] == 'T');
                assert(stat_name@.subrange(i as int, i + 6)[3] == 'A');
                assert(stat_name@.subrange(i as int, i + 6)[4] == 'T');
                assert(stat_name@.subrange(i as int, i + 6)[5] == '_');
            }
        }
        i = i + 1;
    }
    string_of(stat_name)
}

/// Name of an object type in reports.
pub fn type_id_to_string(type_id: u32) -> (r: String)
    ensures
        r@ == type_text(type_id),
{
    match SaiObjectType::from_u32(type_id) {
        Some(t) => string_of(t.short_name()),
        None => {
            let mut s = string_of("UNKNOWN(");
            push_decimal(&mut s, type_id as u64);
            push_str(&mut s, ")");
            s
        },
    }
}

/// Name of a statistic in reports.
pub fn stat_id_to_string(type_id: u32, stat_id: u32) -> (r: String)
    ensures
        r@ == stat_text(type_id, stat_id),
{
    match SaiObjectType::from_u32(type_id) {
        Some(t) => match get_stat_name(stat_id, t) {
            Ok(n) => remove_sai_prefix(n.as_str()),
            Err(_) => {
                let mut s = string_of(match t {
                    SaiObjectType::Port => "UNKNOWN_PORT_STAT_",
                    SaiObjectType::Queue => "UNKNOWN_QUEUE_STAT_",
                    SaiObjectType::BufferPool => "UNKNOWN_BUFFER_POOL_STAT_",
                    SaiObjectType::IngressPriorityGroup => "UNKNOWN_IPG_STAT_",
                });
                push_decimal(&mut s, stat_id as u64);
                s
            },
        },
        None => {
            let mut s = string_of("INVALID_TYPE_");
            push_decimal(&mut s, type_id as u64);
            push_str(&mut s, "_STAT_");
            push_decimal(&mut s, stat_id as u64);
            s
        },
    }
}

/// Messages per second over a period of `interval_ms`, in tenths, rounded half up.
pub open spec fn rate_tenths(count: nat, interval_ms: u64) -> nat {
    ((count * 10000 + interval_ms / 2) / (interval_ms as int)) as nat
}

/// Messages per second with one decimal.
pub open spec fn rate_text(count: nat, interval_ms: u64) -> Seq<char> {
    decimal(rate_tenths(count, interval_ms) / 10) + "."@ + seq![digit_char(rate_tenths(count, interval_ms) % 10)]
}

fn rate_string(count: u64, interval_ms: u64) -> (r: String)
    requires
        interval_ms > 0,
    ensures
        r@ == rate_text(count as nat, interval_ms),
{
    let t: u128 = (count as u128 * 10000 + (interval_ms / 2) as u128) / interval_ms as u128;
    let mut s = String::new();
    push_decimal_wide(&mut s, t / 10);
    push_char(&mut s, '.');
    push_decimal_wide(&mut s, t % 10);
    proof {
        reveal_strlit(".");
        assert(decimal((t % 10) as nat) == seq![digit_char((t % 10) as nat)]);
    }
    assert(s@ =~= rate_text(count as nat, interval_ms));
    s
}

/// A detailed report line of one counter.
pub open spec fn entry_line(idx: nat, e: ((Seq<char>, u32, u32), CounterInfo, u64), interval_ms: u64) -> Seq<char> {
    "         ["@ + pad_left(decimal(idx), 3) + "] Object: "@ + pad_right(e.0.0, 15) + ", Stat: "@
        + pad_right(stat_text(e.0.1, e.0.2), 25) + ", Counter: "@ + pad_left(decimal(e.1.counter as nat), 15)
        + ", Msg/s: "@ + pad_left(rate_text(e.2 as nat, interval_ms), 6) + ", LastTime: "@
        + timestamp_text(e.1.last_observation_time)
}

/// Heading of the counters of one object type.
pub open spec fn type_line(type_id: u32) -> Seq<char> {
    "      Type: "@ + type_text(type_id) + " ("@ + decimal(type_id as nat) + ")"@
}

/// Line that closes a report cut at `max` counters out of `n`.
pub open spec fn more_line(n: nat, max: nat) -> Seq<char> {
    "         ... and "@ + decimal((n - max) as nat) + " more counters (use max_stats_per_report: None to show all)"@
}

/// Whether the cap was reached and counters are left out.
pub open spec fn cap_hit(max: Option<usize>, n: nat, shown: nat) -> bool {
    match max {
        Some(m) => shown >= m && n > m,
        None => false,
    }
}

/// Whether another counter line fits under the cap.
pub open spec fn can_show(max: Option<usize>, shown: nat) -> bool {
    match max {
        Some(m) => shown < m,
        None => true,
    }
}

/// Detailed lines from position `i` of the sorted counters `s` on: a heading
/// when the type changes, then counter lines numbered within their type
/// while the cap allows; once the cap is reached and counters are left out,
/// a closing line after the current type.
pub open spec fn detail_lines(
    s: Seq<((Seq<char>, u32, u32), CounterInfo, u64)>,
    i: int,
    prev: Option<u32>,
    idx: nat,
    shown: nat,
    max: Option<usize>,
    interval_ms: u64,
) -> Seq<Seq<char>>
    decreases s.len() - i,
{
    let n = s.len();
    if i < 0 || i >= n {
        if prev is Some && cap_hit(max, n, shown) { seq![more_line(n, max->Some_0 as nat)] } else { seq![] }
    } else {
        let e = s[i];
        let new_type = prev != Some(e.0.1);
        if new_type && prev is Some && cap_hit(max, n, shown) {
            seq![more_line(n, max->Some_0 as nat)]
        } else {
            let head: Seq<Seq<char>> = if new_type { seq![type_line(e.0.1)] } else { seq![] };
            let idx0: nat = if new_type { 0 } else { idx };
            if can_show(max, shown) {
                head + seq![entry_line(idx0 + 1, e, interval_ms)]
                    + detail_lines(s, i + 1, Some(e.0.1), idx0 + 1, shown + 1, max, interval_ms)
            } else {
                head + detail_lines(s, i + 1, Some(e.0.1), idx0, shown, max, interval_ms)
            }
        }
    }
}

/// Sum of the counters.
pub open spec fn counter_sum(c: Seq<((Seq<char>, u32, u32), CounterInfo, u64)>) -> nat
    decreases c.len(),
{
    if c.len() == 0 { 0 } else { (counter_sum(c.drop_last()) + c.last().1.counter) as nat }
}

/// Sum of the arrivals, saturating at `u64::MAX`.
pub open spec fn arrivals_sum(c: Seq<((Seq<char>, u32, u32), CounterInfo, u64)>) -> u64
    decreases c.len(),
{
    if c.len() == 0 {
        0
    } else {
        let p = arrivals_sum(c.drop_last());
        if p + c.last().2 > u64::MAX { u64::MAX } else { (p + c.last().2) as u64 }
    }
}

/// Number of distinct type ids.
pub open spec fn distinct_types(c: Seq<((Seq<char>, u32, u32), CounterInfo, u64)>) -> nat
    decreases c.len(),
{
    if c.len() == 0 {
        0
    } else {
        let d = c.drop_last();
        distinct_types(d) + if exists|j: int| 0 <= j < d.len() && (#[trigger] d[j]).0.1 == c.last().0.1 { 0nat } else { 1nat }
    }
}

/// Number of distinct object names.
pub open spec fn distinct_objects(c: Seq<((Seq<char>, u32, u32), CounterInfo, u64)>) -> nat
    decreases c.len(),
{
    if c.len() == 0 {
        0
    } else {
        let d = c.drop_last();
        distinct_objects(d) + if exists|j: int| 0 <= j < d.len() && (#[trigger] d[j]).0.0 == c.last().0.0 { 0nat } else { 1nat }
    }
}

/// Aggregate lines of a summary report.
pub open spec fn summary_lines(c: Seq<((Seq<char>, u32, u32), CounterInfo, u64)>, interval_ms: u64) -> Seq<Seq<char>> {
    seq![
        "   Summary:"@,
        "      Total Counter Value: "@ + decimal(counter_sum(c)),
        "      Unique Types: "@ + decimal(distinct_types(c)),
        "      Unique Objects: "@ + decimal(distinct_objects(c)),
        "      Messages per Second: "@ + rate_text(arrivals_sum(c) as nat, interval_ms),
    ]
}

/// Whether `order` lists every index of `c` once, in increasing key order.
pub open spec fn sorted_perm(c: Seq<((Seq<char>, u32, u32), CounterInfo, u64)>, order: Seq<usize>) -> bool {
    &&& order.len() == c.len()
    &&& forall|i: int| 0 <= i < order.len() ==> #[trigger] order[i] < c.len()
    &&& forall|i: int, j: int| 0 <= i < j < order.len() ==> #[trigger] order[i] != #[trigger] order[j]
    &&& forall|i: int, j: int| 0 <= i < j < order.len() ==> key_lt(c[#[trigger] order[i] as int].0, c[#[trigger] order[j] as int].0)
}

/// The counters of `c` in the order `order`.
pub open spec fn arranged(c: Seq<((Seq<char>, u32, u32), CounterInfo, u64)>, order: Seq<usize>) -> Seq<((Seq<char>, u32, u32), CounterInfo, u64)> {
    order.map_values(|k: usize| c[k as int])
}

/// The lines of report number `number` over snapshot `c`, with counters
/// listed in the order `order`.
pub open spec fn report_lines(
    c: Seq<((Seq<char>, u32, u32), CounterInfo, u64)>,
    order: Seq<usize>,
    number: u64,
    received: u64,
    config: StatsReporterConfig,
) -> Seq<Seq<char>> {
    if c.len() == 0 {
        seq![
            "[Report #"@ + decimal(number as nat) + "] No statistics data available yet"@,
            "   Total Messages Received: "@ + decimal(received as nat),
            Seq::<char>::empty(),
        ]
    } else {
        seq![
            "[Report #"@ + decimal(number as nat) + "] SAI Counters Report"@,
            "   Total Unique Counters: "@ + decimal(c.len()),
            "   Total Messages Received: "@ + decimal(received as nat),
        ] + (if config.detailed {
            seq!["   Detailed Counters:"@] + detail_lines(arranged(c, order), 0, None, 0, 0,
                config.max_stats_per_report, config.interval_ms)
        } else {
            summary_lines(c, config.interval_ms)
        }) + seq![Seq::<char>::empty()]
    }
}

/// The snapshot with the period's arrivals cleared.
pub open spec fn cleared(c: Seq<((Seq<char>, u32, u32), CounterInfo, u64)>) -> Seq<((Seq<char>, u32, u32), CounterInfo, u64)> {
    c.map_values(|e: ((Seq<char>, u32, u32), CounterInfo, u64)| (e.0, e.1, 0u64))
}

pub open spec fn lines_view(s: Seq<String>) -> Seq<Seq<char>> {
    s.map_values(|x: String| x@)
}

fn entry_lt(a: &ReportEntry, b: &ReportEntry) -> (r: bool)
    ensures
        r == key_lt(entry_view(*a).0, entry_view(*b).0),
{
    if a.key.type_id != b.key.type_id {
        return a.key.type_id < b.key.type_id;
    }
    if str_lt(a.key.object_name.as_str(), b.key.object_name.as_str()) {
        return true;
    }
    if a.key.object_name != b.key.object_name {
        return false;
    }
    a.key.stat_id < b.key.stat_id
}

fn build_entry_line(idx: usize, e: &ReportEntry, interval_ms: u64) -> (r: String)
    requires
        interval_ms > 0,
    ensures
        r@ == entry_line(idx as nat, entry_view(*e), interval_ms),
{
    let mut s = string_of("         [");
    let num = decimal_string(idx as u128);
    push_padded_left(&mut s, num.as_str(), 3);
    push_str(&mut s, "] Object: ");
    push_padded_right(&mut s, e.key.object_name.as_str(), 15);
    push_str(&mut s, ", Stat: ");
    let stat = stat_id_to_string(e.key.type_id, e.key.stat_id);
    push_padded_right(&mut s, stat.as_str(), 25);
    push_str(&mut s, ", Counter: ");
    let counter = decimal_string(e.info.counter as u128);
    push_padded_left(&mut s, counter.as_str(), 15);
    push_str(&mut s, ", Msg/s: ");
    let rate = rate_string(e.arrivals, interval_ms);
    push_padded_left(&mut s, rate.as_str(), 6);
    push_str(&mut s, ", LastTime: ");
    let time = format_timestamp(e.info.last_observation_time);
    push_str(&mut s, time.as_str());
    s
}

fn build_type_line(type_id: u32) -> (r: String)
    ensures
        r@ == type_line(type_id),
{
    let mut s = string_of("      Type: ");
    let t = type_id_to_string(type_id);
    push_str(&mut s, t.as_str());
    push_str(&mut s, " (");
    push_decimal(&mut s, type_id as u64);
    push_str(&mut s, ")");
    s
}

fn build_more_line(n: usize, max: usize) -> (r: String)
    requires
        n > max,
    ensures
        r@ == more_line(n as nat, max as nat),
{
    let mut s = string_of("         ... and ");
    push_decimal_wide(&mut s, (n - max) as u128);
    push_str(&mut s, " more counters (use max_stats_per_report: None to show all)");
    s
}

fn labelled(label: &str, n: u128) -> (r: String)
    ensures
        r@ == label@ + decimal(n as nat),
{
    let mut s = string_of(label);
    push_decimal_wide(&mut s, n);
    s
}

/// The reporter: snapshot of the latest counters and report numbering.
pub struct StatsReporter {
    pub config: StatsReporterConfig,
    pub entries: Vec<ReportEntry>,
    pub total_messages_received: u64,
    pub reports_generated: u64,
}

impl StatsReporter {
    /// Keys are unique and the period is not empty.
    pub open spec fn wf(&self) -> bool {
        &&& unique_keys(snapshot_view(self.entries@))
        &&& self.config.interval_ms > 0
    }

    pub fn new(config: StatsReporterConfig) -> (r: Self)
        requires
            config.interval_ms > 0,
        ensures
            r.wf(),
            r.config == config,
            snapshot_view(r.entries@) == Seq::<((Seq<char>, u32, u32), CounterInfo, u64)>::empty(),
            r.total_messages_received == 0,
            r.reports_generated == 0,
    {
        let r = StatsReporter { config, entries: Vec::new(), total_messages_received: 0, reports_generated: 0 };
        assert(snapshot_view(r.entries@) =~= Seq::<((Seq<char>, u32, u32), CounterInfo, u64)>::empty());
        r
    }

    fn find(&self, object_name: &String, type_id: u32, stat_id: u32) -> (r: Option<usize>)
        ensures
            r is None <==> key_index(snapshot_view(self.entries@), (object_name@, type_id, stat_id)) is None,
            r matches Some(i) ==> i < self.entries@.len()
                && key_index(snapshot_view(self.entries@), (object_name@, type_id, stat_id)) == Some(i as int),
    {
        let ghost c = snapshot_view(self.entries@);
        proof {
            lemma_key_index(c, (object_name@, type_id, stat_id));
        }
        let mut i: usize = self.entries.len();
        assert(c.take(i as int) =~= c);
        while i > 0
            invariant
                i <= self.entries@.len(),
                c == snapshot_view(self.entries@),
                key_index(c, (object_name@, type_id, stat_id)) == key_index(c.take(i as int), (object_name@, type_id, stat_id)),
            decreases i,
        {
            assert(c.take(i as int).drop_last() =~= c.take(i - 1));
            let e = &self.entries[i - 1];
            if e.key.type_id == type_id && e.key.stat_id == stat_id && e.key.object_name == *object_name {
                return Some(i - 1);
            }
            i = i - 1;
        }
        None
    }

    fn observe_counter(&mut self, object_name: &String, type_id: u32, stat_id: u32, counter: u64, time: u64)
        requires
            old(self).wf(),
        ensures
            final(self).wf(),
            final(self).config == old(self).config,
            final(self).total_messages_received == old(self).total_messages_received,
            final(self).reports_generated == old(self).reports_generated,
            snapshot_view(final(self).entries@) == observe(snapshot_view(old(self).entries@), (object_name@, type_id, stat_id), counter, time),
    {
        let ghost c = snapshot_view(self.entries@);
        proof {
            lemma_key_index(c, (object_name@, type_id, stat_id));
        }
        let info = CounterInfo { counter, last_observation_time: time };
        match self.find(object_name, type_id, stat_id) {
            Some(i) => {
                let a = self.entries[i].arrivals;
                let e = ReportEntry {
                    key: CounterKey { object_name: copy_string(object_name), type_id, stat_id },
                    info,
                    arrivals: if a == u64::MAX { u64::MAX } else { a + 1 },
                };
                self.entries.set(i, e);
                assert(snapshot_view(self.entries@) =~= c.update(i as int, entry_view(e)));
                assert(unique_keys(snapshot_view(self.entries@))) by {
                    let nv = snapshot_view(self.entries@);
                    assert forall|x: int, y: int| 0 <= x < y < nv.len() implies (#[trigger] nv[x]).0 != (#[trigger] nv[y]).0 by {
                        assert(c[x].0 != c[y].0);
                    }
                }
            },
            None => {
                let e = ReportEntry {
                    key: CounterKey { object_name: copy_string(object_name), type_id, stat_id },
                    info,
                    arrivals: 1,
                };
                self.entries.push(e);
                assert(snapshot_view(self.entries@) =~= c.push(entry_view(e)));
            },
        }
    }

    /// Records a batch: each statistic's latest value and observation time,
    /// and one more arrival of its counter.
    pub fn update_stats(&mut self, stats: &SAIStats)
        requires
            old(self).wf(),
        ensures
            final(self).wf(),
            final(self).config == old(self).config,
            final(self).reports_generated == old(self).reports_generated,
            final(self).total_messages_received == if old(self).total_messages_received == u64::MAX {
                u64::MAX
            } else {
                (old(self).total_messages_received + 1) as u64
            },
            snapshot_view(final(self).entries@) == observe_all(snapshot_view(old(self).entries@), stats_view(stats.stats@), stats.observation_time),
    {
        if self.total_messages_received < u64::MAX {
            self.total_messages_received = self.total_messages_received + 1;
        }
        let ghost c0 = snapshot_view(self.entries@);
        let ghost total = self.total_messages_received;
        let ghost sv = stats_view(stats.stats@);
        let mut i: usize = 0;
        assert(sv.take(0) =~= Seq::<(Seq<char>, u32, u32, u64)>::empty());
        while i < stats.stats.len()
            invariant
                i <= stats.stats@.len(),
                sv == stats_view(stats.stats@),
                self.wf(),
                self.config == old(self).config,
                self.reports_generated == old(self).reports_generated,
                self.total_messages_received == total,
                snapshot_view(self.entries@) == observe_all(c0, sv.take(i as int), stats.observation_time),
            decreases stats.stats@.len() - i,
        {
            assert(sv.take(i + 1).drop_last() =~= sv.take(i as int));
            let s = &stats.stats[i];
            self.observe_counter(&s.object_name, s.type_id, s.stat_id, s.counter, stats.observation_time);
            i = i + 1;
        }
        assert(sv.take(i as int) =~= sv);
    }

    /// Indices of the snapshot sorted by type id, object name and stat id.
    pub fn sorted_order(&self) -> (r: Vec<usize>)
        requires
            self.wf(),
        ensures
            sorted_perm(snapshot_view(self.entries@), r@),
    {
        let ghost c = snapshot_view(self.entries@);
        let mut order: Vec<usize> = Vec::new();
        let mut i: usize = 0;
        while i < self.entries.len()
            invariant
                i <= self.entries@.len(),
                c == snapshot_view(self.entries@),
                unique_keys(c),
                order@.len() == i,
                forall|a: int| 0 <= a < order@.len() ==> #[trigger] order@[a] < i,
                forall|a: int, b: int| 0 <= a < b < order@.len() ==> #[trigger] order@[a] != #[trigger] order@[b],
                forall|a: int, b: int| 0 <= a < b < order@.len() ==> key_lt(c[#[trigger] order@[a] as int].0, c[#[trigger] order@[b] as int].0),
            decreases self.entries@.len() - i,
        {
            let mut p: usize = 0;
            while p < order.len() && !entry_lt(&self.entries[i], &self.entries[order[p]])
                invariant
                    p <= order@.len(),
                    i < self.entries@.len(),
                    c == snapshot_view(self.entries@),
                    forall|a: int| 0 <= a < order@.len() ==> #[trigger] order@[a] < i,
                    forall|q: int| 0 <= q < p ==> !key_lt(c[i as int].0, c[#[trigger] order@[q] as int].0),
                decreases order@.len() - p,
            {
                p = p + 1;
            }
            let ghost old_order = order@;
            proof {
                assert forall|q: int| 0 <= q < p implies key_lt(c[#[trigger] old_order[q] as int].0, c[i as int].0) by {
                    assert(c[old_order[q] as int].0 != c[i as int].0);
                    lemma_key_lt_total(c[old_order[q] as int].0, c[i as int].0);
                }
                if p < old_order.len() {
                    assert forall|q: int| p <= q < old_order.len() implies key_lt(c[i as int].0, c[#[trigger] old_order[q] as int].0) by {
                        if q > p {
                            lemma_key_lt_transitive(c[i as int].0, c[old_order[p as int] as int].0, c[old_order[q] as int].0);
                        }
                    }
                }
            }
            order.insert(p, i);
            proof {
                let o = order@;
                assert(o =~= old_order.insert(p as int, i));
                assert forall|a: int, b: int| 0 <= a < b < o.len() implies key_lt(c[#[trigger] o[a] as int].0, c[#[trigger] o[b] as int].0) by {
                    if b < p {
                        assert(o[a] == old_order[a] && o[b] == old_order[b]);
                    } else if b == p {
                        assert(o[a] == old_order[a]);
                    } else if a < p {
                        assert(o[a] == old_order[a] && o[b] == old_order[b - 1]);
                        lemma_key_lt_transitive(c[o[a] as int].0, c[i as int].0, c[o[b] as int].0);
                    } else if a == p {
                        assert(o[b] == old_order[b - 1]);
                    } else {
                        assert(o[a] == old_order[a - 1] && o[b] == old_order[b - 1]);
                    }
                }
                assert forall|a: int, b: int| 0 <= a < b < o.len() implies #[trigger] o[a] != #[trigger] o[b] by {
                    if a != p as int && b != p as int {
                        let a0 = if a < p { a } else { a - 1 };
                        let b0 = if b < p { b } else { b - 1 };
                        assert(o[a] == old_order[a0] && o[b] == old_order[b0]);
                    } else if a == p {
                        assert(o[b] == old_order[b - 1]);
                    } else {
                        assert(o[a] == old_order[a]);
                    }
                }
                assert forall|a: int| 0 <= a < o.len() implies #[trigger] o[a] < i + 1 by {
                    if a < p {
                        assert(o[a] == old_order[a]);
                    } else if a > p {
                        assert(o[a] == old_order[a - 1]);
                    }
                }
            }
            i = i + 1;
        }
        order
    }

    fn counter_total(&self) -> (r: u128)
        ensures
            r as nat == counter_sum(snapshot_view(self.entries@)),
    {
        let ghost c = snapshot_view(self.entries@);
        let mut acc: u128 = 0;
        let mut i: usize = 0;
        assert(c.take(0) =~= Seq::<((Seq<char>, u32, u32), CounterInfo, u64)>::empty());
        while i < self.entries.len()
            invariant
                i <= self.entries@.len(),
                c == snapshot_view(self.entries@),
                acc as nat == counter_sum(c.take(i as int)),
                acc as int <= (i as int) * 0xFFFF_FFFF_FFFF_FFFFint,
            decreases self.entries@.len() - i,
        {
            assert(c.take(i + 1).drop_last() =~= c.take(i as int));
            assert((i as int) * 0xFFFF_FFFF_FFFF_FFFFint + 0xFFFF_FFFF_FFFF_FFFFint <= 0xFFFF_FFFF_FFFF_FFFF_FFFF_FFFF_FFFF_FFFFint) by (nonlinear_arith)
                requires (i as int) < 0x1_0000_0000_0000_0000int;
            acc = acc + self.entries[i].info.counter as u128;
            i = i + 1;
            assert(((i - 1) as int) * 0xFFFF_FFFF_FFFF_FFFFint + 0xFFFF_FFFF_FFFF_FFFFint == (i as int) * 0xFFFF_FFFF_FFFF_FFFFint) by (nonlinear_arith)
                requires i >= 1;
        }
        assert(c.take(i as int) =~= c);
        acc
    }

    fn arrivals_total(&self) -> (r: u64)
        ensures
            r == arrivals_sum(snapshot_view(self.entries@)),
    {
        let ghost c = snapshot_view(self.entries@);
        let mut acc: u64 = 0;
        let mut i: usize = 0;
        assert(c.take(0) =~= Seq::<((Seq<char>, u32, u32), CounterInfo, u64)>::empty());
        while i < self.entries.len()
            invariant
                i <= self.entries@.len(),
                c == snapshot_view(self.entries@),
                acc == arrivals_sum(c.take(i as int)),
            decreases self.entries@.len() - i,
        {
            assert(c.take(i + 1).drop_last() =~= c.take(i as int));
            acc = acc.saturating_add(self.entries[i].arrivals);
            i = i + 1;
        }
        assert(c.take(i as int) =~= c);
        acc
    }

    fn type_count(&self) -> (r: usize)
        ensures
            r as nat == distinct_types(snapshot_view(self.entries@)),
    {
        let ghost c = snapshot_view(self.entries@);
        let mut count: usize = 0;
        let mut i: usize = 0;
        assert(c.take(0) =~= Seq::<((Seq<char>, u32, u32), CounterInfo, u64)>::empty());
        while i < self.entries.len()
            invariant
                i <= self.entries@.len(),
                c == snapshot_view(self.entries@),
                count as nat == distinct_types(c.take(i as int)),
                count <= i,
            decreases self.entries@.len() - i,
        {
            let ghost d = c.take(i as int);
            assert(c.take(i + 1).drop_last() =~= d);
            let mut seen = false;
            let mut j: usize = 0;
            while j < i
                invariant
                    j <= i < self.entries@.len(),
                    c == snapshot_view(self.entries@),
                    d == c.take(i as int),
                    seen <==> exists|k: int| 0 <= k < j && (#[trigger] d[k]).0.1 == c[i as int].0.1,
                decreases i - j,
            {
                if self.entries[j].key.type_id == self.entries[i].key.type_id {
                    seen = true;
                }
                proof {
                    if self.entries@[j as int].key.type_id == self.entries@[i as int].key.type_id {
                        assert(d[j as int].0.1 == c[i as int].0.1);
                    }
                }
                j = j + 1;
            }
            if !seen {
                count = count + 1;
            }
            i = i + 1;
        }
        assert(c.take(i as int) =~= c);
        count
    }

    fn object_count(&self) -> (r: usize)
        ensures
            r as nat == distinct_objects(snapshot_view(self.entries@)),
    {
        let ghost c = snapshot_view(self.entries@);
        let mut count: usize = 0;
        let mut i: usize = 0;
        assert(c.take(0) =~= Seq::<((Seq<char>, u32, u32), CounterInfo, u64)>::empty());
        while i < self.entries.len()
            invariant
                i <= self.entries@.len(),
                c == snapshot_view(self.entries@),
                count as nat == distinct_objects(c.take(i as int)),
                count <= i,
            decreases self.entries@.len() - i,
        {
            let ghost d = c.take(i as int);
            assert(c.take(i + 1).drop_last() =~= d);
            let mut seen = false;
            let mut j: usize = 0;
            while j < i
                invariant
                    j <= i < self.entries@.len(),
                    c == snapshot_view(self.entries@),
                    d == c.take(i as int),
                    seen <==> exists|k: int| 0 <= k < j && (#[trigger] d[k]).0.0 == c[i as int].0.0,
                decreases i - j,
            {
                if self.entries[j].key.object_name == self.entries[i].key.object_name {
                    seen = true;
                }
                proof {
                    if self.entries@[j as int].key.object_name@ == self.entries@[i as int].key.object_name@ {
                        assert(d[j as int].0.0 == c[i as int].0.0);
                    }
                }
                j = j + 1;
            }
            if !seen {
                count = count + 1;
            }
            i = i + 1;
        }
        assert(c.take(i as int) =~= c);
        count
    }

    fn detail_report(&self, order: &Vec<usize>, out: &mut Vec<String>)
        requires
            self.wf(),
            sorted_perm(snapshot_view(self.entries@), order@),
        ensures
            lines_view(final(out)@) == lines_view(old(out)@) + detail_lines(arranged(snapshot_view(self.entries@), order@),
                0, None, 0, 0, self.config.max_stats_per_report, self.config.interval_ms),
    {
        let ghost c = snapshot_view(self.entries@);
        let ghost s = arranged(c, order@);
        let ghost max = self.config.max_stats_per_report;
        let ghost iv = self.config.interval_ms;
        let ghost base = lines_view(out@);
        let n = order.len();
        let mut prev: Option<u32> = None;
        let mut idx: usize = 0;
        let mut shown: usize = 0;
        let mut i: usize = 0;
        let mut done = false;
        while i < n
            invariant_except_break
                i <= n == order@.len() == s.len(),
                s == arranged(c, order@),
                c == snapshot_view(self.entries@),
                sorted_perm(c, order@),
                self.wf(),
                max == self.config.max_stats_per_report,
                iv == self.config.interval_ms,
                idx <= i,
                shown <= i,
                lines_view(out@) + detail_lines(s, i as int, prev, idx as nat, shown as nat, max, iv)
                    == base + detail_lines(s, 0, None, 0, 0, max, iv),
                !done,
            ensures
                n == order@.len() == s.len(),
                max == self.config.max_stats_per_report,
                done ==> lines_view(out@) == base + detail_lines(s, 0, None, 0, 0, max, iv),
                !done ==> i == n && lines_view(out@) + detail_lines(s, i as int, prev, idx as nat, shown as nat, max, iv)
                    == base + detail_lines(s, 0, None, 0, 0, max, iv),
            decreases n - i,
        {
            let e = &self.entries[order[i]];
            assert(entry_view(*e) == s[i as int]);
            let t = e.key.type_id;
            let new_type = match prev {
                Some(p) => p != t,
                None => true,
            };
            let hit = match self.config.max_stats_per_report {
                Some(m) => shown >= m && n > m,
                None => false,
            };
            if new_type && prev.is_some() && hit {
                let ghost before = lines_view(out@);
                let line = build_more_line(n, self.config.max_stats_per_report.unwrap());
                out.push(line);
                assert(lines_view(out@) =~= before + seq![line@]);
                done = true;
                break;
            }
            let ghost before = lines_view(out@);
            if new_type {
                let line = build_type_line(t);
                out.push(line);
                assert(lines_view(out@) =~= before + seq![type_line(t)]);
                idx = 0;
            } else {
                assert(lines_view(out@) =~= before + Seq::<Seq<char>>::empty());
            }
            let ghost mid = lines_view(out@);
            let show = match self.config.max_stats_per_report {
                Some(m) => shown < m,
                None => true,
            };
            if show {
                let line = build_entry_line(idx + 1, e, self.config.interval_ms);
                out.push(line);
                assert(lines_view(out@) =~= mid + seq![line@]);
                idx = idx + 1;
                shown = shown + 1;
            }
            prev = Some(t);
            i = i + 1;
        }
        if !done {
            let hit = match self.config.max_stats_per_report {
                Some(m) => shown >= m && n > m,
                None => false,
            };
            if prev.is_some() && hit {
                let ghost before = lines_view(out@);
                let line = build_more_line(n, self.config.max_stats_per_report.unwrap());
                out.push(line);
                assert(lines_view(out@) =~= before + seq![line@]);
            } else {
                assert(lines_view(out@) =~= lines_view(out@) + Seq::<Seq<char>>::empty());
            }
        }
    }

    fn clear_arrivals(&mut self)
        requires
            old(self).wf(),
        ensures
            final(self).wf(),
            final(self).config == old(self).config,
            final(self).total_messages_received == old(self).total_messages_received,
            final(self).reports_generated == old(self).reports_generated,
            snapshot_view(final(self).entries@) == cleared(snapshot_view(old(self).entries@)),
    {
        let ghost c = snapshot_view(self.entries@);
        let mut i: usize = 0;
        while i < self.entries.len()
            invariant
                i <= self.entries@.len() == c.len(),
                self.config == old(self).config,
                self.total_messages_received == old(self).total_messages_received,
                self.reports_generated == old(self).reports_generated,
                c == snapshot_view(old(self).entries@),
                old(self).wf(),
                forall|k: int| 0 <= k < i ==> #[trigger] snapshot_view(self.entries@)[k] == (c[k].0, c[k].1, 0u64),
                forall|k: int| i <= k < c.len() ==> #[trigger] snapshot_view(self.entries@)[k] == c[k],
            decreases c.len() - i,
        {
            let e = ReportEntry {
                key: CounterKey {
                    object_name: copy_string(&self.entries[i].key.object_name),
                    type_id: self.entries[i].key.type_id,
                    stat_id: self.entries[i].key.stat_id,
                },
                info: self.entries[i].info,
                arrivals: 0,
            };
            let ghost before = self.entries@;
            assert(snapshot_view(before)[i as int] == c[i as int]);
            assert(entry_view(before[i as int]) == c[i as int]);
            assert(entry_view(e) == (c[i as int].0, c[i as int].1, 0u64));
            self.entries.set(i, e);
            assert(snapshot_view(self.entries@) =~= snapshot_view(before).update(i as int, entry_view(e)));
            i = i + 1;
        }
        assert(snapshot_view(self.entries@) =~= cleared(c));
        assert(unique_keys(snapshot_view(self.entries@))) by {
            let nv = snapshot_view(self.entries@);
            assert forall|x: int, y: int| 0 <= x < y < nv.len() implies (#[trigger] nv[x]).0 != (#[trigger] nv[y]).0 by {
                assert(c[x].0 != c[y].0);
            }
        }
    }

    /// Produces the next report: its lines, then the period's arrivals are cleared.
    pub fn generate_report(&mut self) -> (r: Vec<String>)
        requires
            old(self).wf(),
        ensures
            final(self).wf(),
            final(self).config == old(self).config,
            final(self).total_messages_received == old(self).total_messages_received,
            final(self).reports_generated == if old(self).reports_generated == u64::MAX {
                u64::MAX
            } else {
                (old(self).reports_generated + 1) as u64
            },
            snapshot_view(final(self).entries@) == cleared(snapshot_view(old(self).entries@)),
            exists|order: Seq<usize>| sorted_perm(snapshot_view(old(self).entries@), order) && lines_view(r@)
                == report_lines(snapshot_view(old(self).entries@), order, final(self).reports_generated,
                    old(self).total_messages_received, old(self).config),
    {
        if self.reports_generated < u64::MAX {
            self.reports_generated = self.reports_generated + 1;
        }
        let ghost c = snapshot_view(self.entries@);
        let number = self.reports_generated as u128;
        let received = self.total_messages_received as u128;
        let order = self.sorted_order();
        let mut out: Vec<String> = Vec::new();
        if self.entries.len() == 0 {
            let mut a = labelled("[Report #", number);
            push_str(&mut a, "] No statistics data available yet");
            out.push(a);
            out.push(labelled("   Total Messages Received: ", received));
        } else {
            let mut a = labelled("[Report #", number);
            push_str(&mut a, "] SAI Counters Report");
            out.push(a);
            out.push(labelled("   Total Unique Counters: ", self.entries.len() as u128));
            out.push(labelled("   Total Messages Received: ", received));
            let ghost head = lines_view(out@);
            if self.config.detailed {
                out.push(string_of("   Detailed Counters:"));
                let ghost h2 = lines_view(out@);
                self.detail_report(&order, &mut out);
                assert(lines_view(out@) =~= head + (seq!["   Detailed Counters:"@] + detail_lines(arranged(c, order@), 0, None, 0, 0,
                    self.config.max_stats_per_report, self.config.interval_ms)));
            } else {
                out.push(string_of("   Summary:"));
                out.push(labelled("      Total Counter Value: ", self.counter_total()));
                out.push(labelled("      Unique Types: ", self.type_count() as u128));
                out.push(labelled("      Unique Objects: ", self.object_count() as u128));
                let mut m = string_of("      Messages per Second: ");
                let rate = rate_string(self.arrivals_total(), self.config.interval_ms);
                push_str(&mut m, rate.as_str());
                out.push(m);
                assert(lines_view(out@) =~= head + summary_lines(c, self.config.interval_ms));
            }
        }
        let ghost body = lines_view(out@);
        out.push(String::new());
        assert(lines_view(out@) =~= body + seq![Seq::<char>::empty()]);
        proof {
            if c.len() == 0 {
                assert(lines_view(out@) =~= report_lines(c, order@, self.reports_generated, old(self).total_messages_received, old(self).config));
            } else {
                assert(lines_view(out@) =~= report_lines(c, order@, self.reports_generated, old(self).total_messages_received, old(self).config));
            }
        }
        self.clear_arrivals();
        out
    }
}

} // verus!
