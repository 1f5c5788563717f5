//! The IPFIX decoder: applies template bundles to its registry and turns
//! data records into SAI statistic batches.

use vstd::prelude::*;
use crate::bytes::be_value;
use crate::ipfix::{
    FieldSpecifier, TemplateRecord, DataField, MIN_DATA_SET_ID, TEMPLATE_SET_ID,
    templates_view, template_view, record_view, records_view, sets_view, byte_vecs_view,
    set_templates, messages_templates, messages_from, message_sets,
    bundle_templates, data_records, split_messages, split_sets, parse_template_set, parse_data_set,
};
use crate::messages::IPFixTemplatesMessage;
use crate::registry::{
    TemplateEntry, NamesEntry, entries_view, entry_view, names_entries_view, names_entry_view,
    unique_ids, is_pending, is_applied, session_of, insert_pending, apply_entries, delete_entries,
    names_of, without_session, layout_of, lemma_insert_pending_unique, lemma_filter_unique,
    session_differs, filter_out_id, filter_out_session, filter_out_names, find_session,
    find_names, find_layout, copy_names, apply_to_session,
};
use crate::stats::{SAIStat, SAIStats, spec_stat, stat_view, stats_view, batch_view, batches_view, names_view};
use crate::text::copy_string;

verus! {

/// IANA observationTimeSeconds.
pub const OBSERVATION_TIME_SECONDS: u16 = 322;
/// IANA observationTimeNanoseconds.
pub const OBSERVATION_TIME_NANOSECONDS: u16 = 325;

/// Abstract state of the decoder.
pub struct DecoderView {
    /// Template layouts in the order they were defined; the last one of an id counts.
    pub layouts: Seq<(u16, Seq<FieldSpecifier>)>,
    /// `(template_id, session_key, applied)`: pending when not applied.
    pub entries: Seq<(u16, Seq<char>, bool)>,
    /// `(session_key, object_names)`.
    pub names: Seq<(Seq<char>, Seq<Seq<char>>)>,
    /// Largest observation time seen.
    pub last_time: Option<u64>,
}

/// Decoder of IPFIX payloads against the templates of the sessions it knows.
pub struct IpfixDecoder {
    pub layouts: Vec<TemplateRecord>,
    pub templates: Vec<TemplateEntry>,
    pub object_names: Vec<NamesEntry>,
    pub last_observation_time: Option<u64>,
}

impl View for IpfixDecoder {
    type V = DecoderView;

    open spec fn view(&self) -> DecoderView {
        DecoderView {
            layouts: templates_view(self.layouts@),
            entries: entries_view(self.templates@),
            names: names_entries_view(self.object_names@),
            last_time: self.last_observation_time,
        }
    }
}

/// Whether a field is one of the observation-time fields.
pub open spec fn is_time_field(f: FieldSpecifier) -> bool {
    f.enterprise_number is None && (f.information_element_identifier == OBSERVATION_TIME_SECONDS
        || f.information_element_identifier == OBSERVATION_TIME_NANOSECONDS)
}

/// Value of the first field of `r` from `i` on without enterprise number,
/// with element id `ie` and a value of `len` bytes.
pub open spec fn first_value(r: Seq<(FieldSpecifier, Seq<u8>)>, i: int, ie: u16, len: nat) -> Option<Seq<u8>>
    decreases r.len() - i,
{
    if i < 0 || i >= r.len() {
        None
    } else if r[i].0.enterprise_number is None && r[i].0.information_element_identifier == ie && r[i].1.len() == len {
        Some(r[i].1)
    } else {
        first_value(r, i + 1, ie, len)
    }
}

/// Observation time of a record in nanoseconds: a 64-bit nanosecond field,
/// else 32-bit seconds and nanoseconds combined, else none.
pub open spec fn record_time(r: Seq<(FieldSpecifier, Seq<u8>)>) -> Option<u64> {
    match first_value(r, 0, OBSERVATION_TIME_NANOSECONDS, 8) {
        Some(v) => Some(be_value(v) as u64),
        None => match (first_value(r, 0, OBSERVATION_TIME_SECONDS, 4), first_value(r, 0, OBSERVATION_TIME_NANOSECONDS, 4)) {
            (Some(s), Some(n)) => Some((be_value(s) * 1_000_000_000 + be_value(n)) as u64),
            _ => None,
        },
    }
}

/// The statistics of a record: one per field but the observation-time fields.
pub open spec fn record_stats(r: Seq<(FieldSpecifier, Seq<u8>)>, names: Seq<Seq<char>>) -> Seq<(Seq<char>, u32, u32, u64)>
    decreases r.len(),
{
    if r.len() == 0 {
        seq![]
    } else {
        let p = record_stats(r.drop_last(), names);
        if is_time_field(r.last().0) {
            p
        } else {
            p.push(spec_stat(r.last().0, r.last().1, names))
        }
    }
}

/// Remembered time after a record with time `t`.
pub open spec fn next_last_time(last: Option<u64>, t: Option<u64>) -> Option<u64> {
    match t {
        None => last,
        Some(x) => match last {
            Some(l) => if x > l { Some(x) } else { Some(l) },
            None => Some(x),
        },
    }
}

/// Time of a batch: the record's own, else the remembered one, else `now`.
pub open spec fn batch_time(last: Option<u64>, t: Option<u64>, now: u64) -> u64 {
    match t {
        Some(x) => x,
        None => match last {
            Some(l) => l,
            None => now,
        },
    }
}

/// Batches of a sequence of records and the remembered time after them.
pub open spec fn decode_records(
    last: Option<u64>,
    recs: Seq<Seq<(FieldSpecifier, Seq<u8>)>>,
    names: Seq<Seq<char>>,
    now: u64,
) -> (Option<u64>, Seq<(u64, Seq<(Seq<char>, u32, u32, u64)>)>)
    decreases recs.len(),
{
    if recs.len() == 0 {
        (last, seq![])
    } else {
        let p = decode_records(last, recs.drop_last(), names, now);
        let t = record_time(recs.last());
        (next_last_time(p.0, t), p.1.push((batch_time(p.0, t, now), record_stats(recs.last(), names))))
    }
}

/// Object names for the records of template `t`: those of the session owning it.
pub open spec fn names_for(v: DecoderView, t: u16) -> Seq<Seq<char>> {
    match session_of(v.entries, t) {
        Some(p) => names_of(v.names, p.0),
        None => seq![],
    }
}

/// One set of a data payload: a data set marks its template applied and,
/// when the template is known, yields one batch per record.
pub open spec fn process_set(v: DecoderView, set: (u16, Seq<u8>), now: u64) -> (DecoderView, Seq<(u64, Seq<(Seq<char>, u32, u32, u64)>)>) {
    if set.0 < MIN_DATA_SET_ID {
        (v, seq![])
    } else {
        let v1 = DecoderView { entries: apply_entries(v.entries, set.0), ..v };
        match layout_of(v.layouts, set.0) {
            None => (v1, seq![]),
            Some(fs) => {
                let d = decode_records(v.last_time, data_records(set.1, 0, fs), names_for(v1, set.0), now);
                (DecoderView { last_time: d.0, ..v1 }, d.1)
            },
        }
    }
}

pub open spec fn process_sets(v: DecoderView, sets: Seq<(u16, Seq<u8>)>, now: u64) -> (DecoderView, Seq<(u64, Seq<(Seq<char>, u32, u32, u64)>)>)
    decreases sets.len(),
{
    if sets.len() == 0 {
        (v, seq![])
    } else {
        let p = process_sets(v, sets.drop_last(), now);
        let q = process_set(p.0, sets.last(), now);
        (q.0, p.1 + q.1)
    }
}

pub open spec fn process_messages(v: DecoderView, ms: Seq<Seq<u8>>, now: u64) -> (DecoderView, Seq<(u64, Seq<(Seq<char>, u32, u32, u64)>)>)
    decreases ms.len(),
{
    if ms.len() == 0 {
        (v, seq![])
    } else {
        let p = process_messages(v, ms.drop_last(), now);
        let q = match message_sets(ms.last()) {
            None => (p.0, seq![]),
            Some(sets) => process_sets(p.0, sets, now),
        };
        (q.0, p.1 + q.1)
    }
}

/// Decoder state and batches after a data payload.
pub open spec fn process_payload(v: DecoderView, p: Seq<u8>, now: u64) -> (DecoderView, Seq<(u64, Seq<(Seq<char>, u32, u32, u64)>)>) {
    process_messages(v, messages_from(p, 0), now)
}

/// Template records applied in order: each layout is recorded and its id
/// becomes pending for session `s`.
pub open spec fn upsert_records(v: DecoderView, recs: Seq<(u16, Seq<FieldSpecifier>)>, s: Seq<char>) -> DecoderView
    decreases recs.len(),
{
    if recs.len() == 0 {
        v
    } else {
        let w = upsert_records(v, recs.drop_last(), s);
        DecoderView {
            layouts: w.layouts.push(recs.last()),
            entries: insert_pending(w.entries, recs.last().0, s),
            ..w
        }
    }
}

/// Names of session `s` replaced when given.
pub open spec fn with_names(v: DecoderView, s: Seq<char>, names: Option<Seq<Seq<char>>>) -> DecoderView {
    match names {
        Some(n) => DecoderView { names: without_session(v.names, s).push((s, n)), ..v },
        None => v,
    }
}

/// State after an upsert of session `s` with a template bundle.
pub open spec fn upsert(v: DecoderView, s: Seq<char>, bundle: Seq<u8>, names: Option<Seq<Seq<char>>>) -> DecoderView {
    upsert_records(with_names(v, s, names), bundle_templates(bundle), s)
}

/// State after the removal of session `s`.
pub open spec fn delete_session(v: DecoderView, s: Seq<char>) -> DecoderView {
    DecoderView { entries: delete_entries(v.entries, s), names: without_session(v.names, s), ..v }
}

pub open spec fn opt_names_view(n: Option<Vec<String>>) -> Option<Seq<Seq<char>>> {
    match n {
        Some(v) => Some(names_view(v@)),
        None => None,
    }
}

/// State after a template message.
pub open spec fn template_message(v: DecoderView, m: IPFixTemplatesMessage) -> DecoderView {
    if m.is_delete {
        delete_session(v, m.key@)
    } else {
        match m.templates {
            None => v,
            Some(b) => upsert(v, m.key@, b@, opt_names_view(m.object_names)),
        }
    }
}

proof fn lemma_upsert_unique(v: DecoderView, recs: Seq<(u16, Seq<FieldSpecifier>)>, s: Seq<char>)
    requires
        unique_ids(v.entries),
    ensures
        unique_ids(upsert_records(v, recs, s).entries),
    decreases recs.len(),
{
    if recs.len() > 0 {
        lemma_upsert_unique(v, recs.drop_last(), s);
        lemma_insert_pending_unique(upsert_records(v, recs.drop_last(), s).entries, recs.last().0, s);
    }
}

proof fn lemma_apply_unique(e: Seq<(u16, Seq<char>, bool)>, t: u16)
    requires
        unique_ids(e),
    ensures
        unique_ids(apply_entries(e, t)),
{
    let a = apply_entries(e, t);
    assert forall|i: int, j: int| 0 <= i < j < a.len() implies #[trigger] a[i].0 != #[trigger] a[j].0 by {
        assert(e[i].0 != e[j].0);
    }
}

proof fn lemma_process_sets_unique(v: DecoderView, sets: Seq<(u16, Seq<u8>)>, now: u64)
    requires
        unique_ids(v.entries),
    ensures
        unique_ids(process_sets(v, sets, now).0.entries),
    decreases sets.len(),
{
    if sets.len() > 0 {
        lemma_process_sets_unique(v, sets.drop_last(), now);
        let p = process_sets(v, sets.drop_last(), now);
        if sets.last().0 >= MIN_DATA_SET_ID {
            lemma_apply_unique(p.0.entries, sets.last().0);
        }
    }
}

proof fn lemma_process_messages_unique(v: DecoderView, ms: Seq<Seq<u8>>, now: u64)
    requires
        unique_ids(v.entries),
    ensures
        unique_ids(process_messages(v, ms, now).0.entries),
    decreases ms.len(),
{
    if ms.len() > 0 {
        lemma_process_messages_unique(v, ms.drop_last(), now);
        let p = process_messages(v, ms.drop_last(), now);
        if let Some(sets) = message_sets(ms.last()) {
            lemma_process_sets_unique(p.0, sets, now);
        }
    }
}

/// A template id is never both pending and applied.
pub proof fn lemma_pending_xor_applied(v: DecoderView, t: u16)
    requires
        unique_ids(v.entries),
    ensures
        !(is_pending(v.entries, t) && is_applied(v.entries, t)),
{
    if is_pending(v.entries, t) && is_applied(v.entries, t) {
        let i = choose|i: int| 0 <= i < v.entries.len() && #[trigger] v.entries[i] == (t, v.entries[i].1, false);
        let j = choose|j: int| 0 <= j < v.entries.len() && #[trigger] v.entries[j] == (t, v.entries[j].1, true);
        if i < j {
            assert(v.entries[i].0 != v.entries[j].0);
        } else if j < i {
            assert(v.entries[j].0 != v.entries[i].0);
        }
    }
}

impl IpfixDecoder {
    /// Each template id is owned by at most one registry entry.
    pub open spec fn wf(&self) -> bool {
        unique_ids(self@.entries)
    }

    pub fn new() -> (r: Self)
        ensures
            r.wf(),
            r@.layouts == Seq::<(u16, Seq<FieldSpecifier>)>::empty(),
            r@.entries == Seq::<(u16, Seq<char>, bool)>::empty(),
            r@.names == Seq::<(Seq<char>, Seq<Seq<char>>)>::empty(),
            r@.last_time is None,
    {
        let r = IpfixDecoder {
            layouts: Vec::new(),
            templates: Vec::new(),
            object_names: Vec::new(),
            last_observation_time: None,
        };
        assert(r@.layouts =~= Seq::<(u16, Seq<FieldSpecifier>)>::empty());
        assert(r@.entries =~= Seq::<(u16, Seq<char>, bool)>::empty());
        assert(r@.names =~= Seq::<(Seq<char>, Seq<Seq<char>>)>::empty());
        r
    }

    /// Records a template layout and makes its id pending for `msg_key`.
    pub fn insert_temporary_template(&mut self, msg_key: &String, template: &TemplateRecord)
        ensures
            final(self)@ == (DecoderView {
                layouts: old(self)@.layouts.push(template_view(*template)),
                entries: insert_pending(old(self)@.entries, template.template_id, msg_key@),
                ..old(self)@
            }),
    {
        let mut t = filter_out_id(&self.templates, template.template_id);
        let e = TemplateEntry { template_id: template.template_id, session_key: copy_string(msg_key), applied: false };
        let ghost old_t = t@;
        t.push(e);
        assert(entries_view(t@) =~= entries_view(old_t).push(entry_view(e)));
        self.templates = t;
        let rec = TemplateRecord { template_id: template.template_id, field_specifiers: template.field_specifiers.clone() };
        let ghost old_l = self.layouts@;
        self.layouts.push(rec);
        assert(templates_view(self.layouts@) =~= templates_view(old_l).push(template_view(*template)));
    }

    /// A data set used `template_id`: when it is pending, every pending id of
    /// its session becomes applied.
    pub fn update_applied_template(&mut self, template_id: u16)
        ensures
            final(self)@ == (DecoderView { entries: apply_entries(old(self)@.entries, template_id), ..old(self)@ }),
    {
        match find_session(&self.templates, template_id) {
            Some((s, applied)) => {
                if !applied {
                    self.templates = apply_to_session(&self.templates, &s);
                }
            },
            None => {},
        }
    }

    /// Applies a template message: removal of a session, or an upsert of its
    /// templates and object names.
    pub fn handle_template(&mut self, templates: IPFixTemplatesMessage)
        requires
            old(self).wf(),
        ensures
            final(self).wf(),
            final(self)@ == template_message(old(self)@, templates),
    {
        if templates.is_delete {
            self.handle_template_deletion(&templates.key);
            return;
        }
        let bundle = match templates.templates {
            Some(b) => b,
            None => return,
        };
        if let Some(names) = &templates.object_names {
            let mut n = filter_out_names(&self.object_names, &templates.key);
            let e = NamesEntry { session_key: copy_string(&templates.key), object_names: copy_names(names) };
            let ghost old_n = n@;
            n.push(e);
            assert(names_entries_view(n@) =~= names_entries_view(old_n).push(names_entry_view(e)));
            self.object_names = n;
        }
        let ghost v1 = self@;
        let ghost key = templates.key@;
        assert(v1 == with_names(old(self)@, key, opt_names_view(templates.object_names)));
        let ms = split_messages(bundle.as_slice());
        let ghost msv = byte_vecs_view(ms@);
        assert(upsert_records(v1, Seq::empty(), key) == v1);
        assert(messages_templates(msv.take(0)) =~= Seq::<(u16, Seq<FieldSpecifier>)>::empty());
        let mut i: usize = 0;
        while i < ms.len()
            invariant
                i <= ms@.len(),
                msv == byte_vecs_view(ms@),
                key == templates.key@,
                self@ == upsert_records(v1, messages_templates(msv.take(i as int)), key),
            decreases ms@.len() - i,
        {
            proof {
                assert(msv.take(i + 1).drop_last() =~= msv.take(i as int));
                assert(msv.take(i + 1).last() == msv[i as int]);
            }
            let ghost base = messages_templates(msv.take(i as int));
            match split_sets(ms[i].as_slice()) {
                None => {
                    assert(messages_templates(msv.take(i + 1)) =~= base);
                },
                Some(sets) => {
                    let ghost sv = sets_view(sets@);
                    let mut j: usize = 0;
                    assert(set_templates(sv.take(0)) =~= Seq::<(u16, Seq<FieldSpecifier>)>::empty());
                    assert(base + set_templates(sv.take(0)) =~= base);
                    while j < sets.len()
                        invariant
                            j <= sets@.len(),
                            sv == sets_view(sets@),
                            key == templates.key@,
                            self@ == upsert_records(v1, base + set_templates(sv.take(j as int)), key),
                        decreases sets@.len() - j,
                    {
                        proof {
                            assert(sv.take(j + 1).drop_last() =~= sv.take(j as int));
                        }
                        let ghost acc = base + set_templates(sv.take(j as int));
                        if sets[j].0 == TEMPLATE_SET_ID {
                            let recs = parse_template_set(sets[j].1.as_slice());
                            let ghost rv = templates_view(recs@);
                            let mut k: usize = 0;
                            assert(acc + rv.take(0) =~= acc);
                            while k < recs.len()
                                invariant
                                    k <= recs@.len(),
                                    rv == templates_view(recs@),
                                    key == templates.key@,
                                    self@ == upsert_records(v1, acc + rv.take(k as int), key),
                                decreases recs@.len() - k,
                            {
                                self.insert_temporary_template(&templates.key, &recs[k]);
                                proof {
                                    assert((acc + rv.take(k + 1)).drop_last() =~= acc + rv.take(k as int));
                                    assert((acc + rv.take(k + 1)).last() == template_view(recs@[k as int]));
                                }
                                k = k + 1;
                            }
                            assert(acc + rv.take(k as int) =~= base + set_templates(sv.take(j + 1)));
                        } else {
                            assert(acc =~= base + set_templates(sv.take(j + 1)));
                        }
                        j = j + 1;
                    }
                    assert(sv.take(j as int) =~= sv);
                    assert(base + set_templates(sv) =~= messages_templates(msv.take(i + 1)));
                },
            }
            i = i + 1;
        }
        assert(msv.take(i as int) =~= msv);
        proof {
            lemma_upsert_unique(v1, bundle_templates(bundle@), key);
        }
    }

    /// Removes session `key` from the registry and its object names.
    pub fn handle_template_deletion(&mut self, key: &String)
        requires
            old(self).wf(),
        ensures
            final(self).wf(),
            final(self)@ == delete_session(old(self)@, key@),
    {
        self.templates = filter_out_session(&self.templates, key);
        self.object_names = filter_out_names(&self.object_names, key);
        proof {
            lemma_filter_unique(old(self)@.entries, session_differs(key@));
        }
    }

    /// The batch of one data record.
    fn decode_record(&mut self, rec: &Vec<DataField>, names: &Vec<String>, now: u64) -> (r: SAIStats)
        ensures
            final(self)@ == (DecoderView {
                last_time: next_last_time(old(self)@.last_time, record_time(record_view(rec@))),
                ..old(self)@
            }),
            batch_view(r) == (
                batch_time(old(self)@.last_time, record_time(record_view(rec@)), now),
                record_stats(record_view(rec@), names_view(names@)),
            ),
    {
        let t = record_observation_time(rec);
        let time = match t {
            Some(x) => x,
            None => match self.last_observation_time {
                Some(l) => l,
                None => now,
            },
        };
        match t {
            Some(x) => {
                match self.last_observation_time {
                    Some(l) => {
                        if x > l {
                            self.last_observation_time = Some(x);
                        }
                    },
                    None => {
                        self.last_observation_time = Some(x);
                    },
                }
            },
            None => {},
        }
        let ghost rv = record_view(rec@);
        let mut stats: Vec<SAIStat> = Vec::new();
        let mut k: usize = 0;
        while k < rec.len()
            invariant
                k <= rec@.len(),
                rv == record_view(rec@),
                stats_view(stats@) == record_stats(rv.take(k as int), names_view(names@)),
            decreases rec@.len() - k,
        {
            proof {
                assert(rv.take(k + 1).drop_last() =~= rv.take(k as int));
            }
            let f = &rec[k];
            let spec_f = f.spec;
            let is_time = spec_f.enterprise_number.is_none() && (spec_f.information_element_identifier
                == OBSERVATION_TIME_SECONDS || spec_f.information_element_identifier == OBSERVATION_TIME_NANOSECONDS);
            if !is_time {
                let st = SAIStat::from_ipfix(&spec_f, f.value.as_slice(), names.as_slice());
                let ghost old_stats = stats@;
                stats.push(st);
                assert(stats_view(stats@) =~= stats_view(old_stats).push(stat_view(st)));
            }
            k = k + 1;
        }
        assert(rv.take(k as int) =~= rv);
        SAIStats { observation_time: time, stats }
    }

    /// Decodes a data payload: one batch per data record, in order; records
    /// of templates it does not know are skipped.
    pub fn handle_record(&mut self, records: &[u8], now: u64) -> (r: Vec<SAIStats>)
        requires
            old(self).wf(),
        ensures
            final(self).wf(),
            (final(self)@, batches_view(r@)) == process_payload(old(self)@, records@, now),
    {
        let ghost v0 = self@;
        let ms = split_messages(records);
        let ghost msv = byte_vecs_view(ms@);
        let mut out: Vec<SAIStats> = Vec::new();
        let mut i: usize = 0;
        assert(msv.take(0) =~= Seq::<Seq<u8>>::empty());
        assert(batches_view(out@) =~= Seq::<(u64, Seq<(Seq<char>, u32, u32, u64)>)>::empty());
        while i < ms.len()
            invariant
                i <= ms@.len(),
                msv == byte_vecs_view(ms@),
                (self@, batches_view(out@)) == process_messages(v0, msv.take(i as int), now),
            decreases ms@.len() - i,
        {
            proof {
                assert(msv.take(i + 1).drop_last() =~= msv.take(i as int));
            }
            let ghost pv = self@;
            let ghost pb = batches_view(out@);
            match split_sets(ms[i].as_slice()) {
                None => {
                    assert(pb + Seq::<(u64, Seq<(Seq<char>, u32, u32, u64)>)>::empty() =~= pb);
                },
                Some(sets) => {
                    let ghost sv = sets_view(sets@);
                    let mut j: usize = 0;
                    assert(pb + Seq::<(u64, Seq<(Seq<char>, u32, u32, u64)>)>::empty() =~= pb);
                    assert(sv.take(0) =~= Seq::<(u16, Seq<u8>)>::empty());
                    while j < sets.len()
                        invariant
                            j <= sets@.len(),
                            sv == sets_view(sets@),
                            self@ == process_sets(pv, sv.take(j as int), now).0,
                            batches_view(out@) == pb + process_sets(pv, sv.take(j as int), now).1,
                        decreases sets@.len() - j,
                    {
                        proof {
                            assert(sv.take(j + 1).drop_last() =~= sv.take(j as int));
                        }
                        let ghost before = batches_view(out@);
                        let mut produced = self.process_set(sets[j].0, sets[j].1.as_slice(), now);
                        let ghost pv2 = batches_view(produced@);
                        out.append(&mut produced);
                        assert(batches_view(out@) =~= before + pv2);
                        assert(pb + process_sets(pv, sv.take(j + 1), now).1 =~= before + pv2);
                        j = j + 1;
                    }
                    assert(sv.take(j as int) =~= sv);
                },
            }
            i = i + 1;
        }
        assert(msv.take(i as int) =~= msv);
        proof {
            lemma_process_messages_unique(v0, msv, now);
        }
        out
    }

    /// One set of a data payload.
    fn process_set(&mut self, set_id: u16, body: &[u8], now: u64) -> (r: Vec<SAIStats>)
        ensures
            (final(self)@, batches_view(r@)) == process_set(old(self)@, (set_id, body@), now),
    {
        let mut out: Vec<SAIStats> = Vec::new();
        if set_id < MIN_DATA_SET_ID {
            assert(batches_view(out@) =~= Seq::<(u64, Seq<(Seq<char>, u32, u32, u64)>)>::empty());
            return out;
        }
        self.update_applied_template(set_id);
        let layout = find_layout(&self.layouts, set_id);
        let fs = match layout {
            None => {
                assert(batches_view(out@) =~= Seq::<(u64, Seq<(Seq<char>, u32, u32, u64)>)>::empty());
                return out;
            },
            Some(fs) => fs,
        };
        let names = match find_session(&self.templates, set_id) {
            Some((s, _)) => find_names(&self.object_names, &s),
            None => Vec::new(),
        };
        assert(names_view(names@) =~= names_for(self@, set_id));
        let recs = parse_data_set(body, &fs);
        let ghost rv = records_view(recs@);
        let ghost last0 = self@.last_time;
        let ghost v1 = self@;
        let mut k: usize = 0;
        assert(rv.take(0) =~= Seq::<Seq<(FieldSpecifier, Seq<u8>)>>::empty());
        assert(batches_view(out@) =~= Seq::<(u64, Seq<(Seq<char>, u32, u32, u64)>)>::empty());
        while k < recs.len()
            invariant
                k <= recs@.len(),
                rv == records_view(recs@),
                self@ == (DecoderView { last_time: decode_records(last0, rv.take(k as int), names_view(names@), now).0, ..v1 }),
                batches_view(out@) == decode_records(last0, rv.take(k as int), names_view(names@), now).1,
            decreases recs@.len() - k,
        {
            proof {
                assert(rv.take(k + 1).drop_last() =~= rv.take(k as int));
            }
            let b = self.decode_record(&recs[k], &names, now);
            let ghost old_out = out@;
            out.push(b);
            assert(batches_view(out@) =~= batches_view(old_out).push(batch_view(b)));
            k = k + 1;
        }
        assert(rv.take(k as int) =~= rv);
        out
    }
}

/// Observation time of a data record, if it carries one.
pub fn record_observation_time(rec: &Vec<DataField>) -> (r: Option<u64>)
    ensures
        r == record_time(record_view(rec@)),
{
    let full = find_value(rec, OBSERVATION_TIME_NANOSECONDS, 8);
    match full {
        Some(i) => {
            let v = read_u64_value(&rec[i].value);
            return Some(v);
        },
        None => {},
    }
    let secs = find_value(rec, OBSERVATION_TIME_SECONDS, 4);
    let nanos = find_value(rec, OBSERVATION_TIME_NANOSECONDS, 4);
    match (secs, nanos) {
        (Some(a), Some(b)) => {
            let s = read_u32_value(&rec[a].value);
            let n = read_u32_value(&rec[b].value);
            Some(s * 1_000_000_000 + n)
        },
        _ => None,
    }
}

fn read_u64_value(v: &Vec<u8>) -> (r: u64)
    requires
        v@.len() == 8,
    ensures
        r as nat == be_value(v@),
{
    let r = crate::bytes::read_be_uint(v.as_slice(), 0, 8);
    assert(v@.subrange(0, 8) =~= v@);
    r
}

fn read_u32_value(v: &Vec<u8>) -> (r: u64)
    requires
        v@.len() == 4,
    ensures
        r as nat == be_value(v@),
        r < 0x1_0000_0000,
{
    let r = crate::bytes::read_be_uint(v.as_slice(), 0, 4);
    assert(v@.subrange(0, 4) =~= v@);
    proof {
        crate::bytes::lemma_be_value_bound(v@);
        assert(crate::bytes::pow256(4) == 0x1_0000_0000) by {
            reveal_with_fuel(crate::bytes::pow256, 5);
        }
    }
    r
}

/// Index of the first field without enterprise number with element id `ie`
/// and a value of `len` bytes.
fn find_value(rec: &Vec<DataField>, ie: u16, len: usize) -> (r: Option<usize>)
    ensures
        match first_value(record_view(rec@), 0, ie, len as nat) {
            None => r is None,
            Some(v) => r matches Some(i) && i < rec@.len() && rec@[i as int].value@ == v
                && v.len() == len,
        },
{
    let ghost rv = record_view(rec@);
    let mut i: usize = 0;
    while i < rec.len()
        invariant
            i <= rec@.len(),
            rv == record_view(rec@),
            first_value(rv, 0, ie, len as nat) == first_value(rv, i as int, ie, len as nat),
        decreases rec@.len() - i,
    {
        let f = &rec[i];
        if f.spec.enterprise_number.is_none() && f.spec.information_element_identifier == ie && f.value.len() == len {
            assert(rv[i as int] == (f.spec, f.value@));
            return Some(i);
        }
        i = i + 1;
    }
    None
}

/// The pending template ids with their sessions.
pub open spec fn pending_set(e: Seq<(u16, Seq<char>, bool)>) -> Set<(u16, Seq<char>)> {
    Set::new(|p: (u16, Seq<char>)| e.contains((p.0, p.1, false)))
}

/// Whether some record of `recs` has template id `t`.
pub open spec fn has_id(recs: Seq<(u16, Seq<FieldSpecifier>)>, t: u16) -> bool {
    exists|i: int| 0 <= i < recs.len() && #[trigger] recs[i].0 == t
}

proof fn lemma_filter_contains_iff<A>(e: Seq<A>, p: spec_fn(A) -> bool, y: A)
    ensures
        e.filter(p).contains(y) <==> (e.contains(y) && p(y)),
{
    if e.filter(p).contains(y) {
        e.lemma_filter_contains_rev(p, y);
        let i = choose|i: int| 0 <= i < e.filter(p).len() && e.filter(p)[i] == y;
        e.lemma_filter_pred(p, i);
    }
    if e.contains(y) && p(y) {
        let i = choose|i: int| 0 <= i < e.len() && e[i] == y;
        e.lemma_filter_contains(p, i);
    }
}

proof fn lemma_push_contains<A>(e: Seq<A>, x: A, y: A)
    ensures
        e.push(x).contains(y) <==> (e.contains(y) || y == x),
{
    if e.contains(y) {
        let i = choose|i: int| 0 <= i < e.len() && e[i] == y;
        assert(e.push(x)[i] == y);
    }
    if y == x {
        assert(e.push(x)[e.len() as int] == y);
    }
    if e.push(x).contains(y) && y != x {
        let i = choose|i: int| 0 <= i < e.push(x).len() && e.push(x)[i] == y;
        assert(e[i] == y);
    }
}

proof fn lemma_upsert_contains(v: DecoderView, recs: Seq<(u16, Seq<FieldSpecifier>)>, s: Seq<char>, y: (u16, Seq<char>, bool))
    ensures
        upsert_records(v, recs, s).entries.contains(y) <==> ((has_id(recs, y.0) && y.1 == s && !y.2)
            || (!has_id(recs, y.0) && v.entries.contains(y))),
    decreases recs.len(),
{
    if recs.len() > 0 {
        let d = recs.drop_last();
        lemma_upsert_contains(v, d, s, y);
        let w = upsert_records(v, d, s);
        let t = recs.last().0;
        lemma_push_contains(crate::registry::without_id(w.entries, t), (t, s, false), y);
        lemma_filter_contains_iff(w.entries, crate::registry::id_differs(t), y);
        if has_id(recs, y.0) && !has_id(d, y.0) {
            let i = choose|i: int| 0 <= i < recs.len() && #[trigger] recs[i].0 == y.0;
            if i < d.len() {
                assert(d[i].0 == y.0);
            }
        }
        if has_id(d, y.0) {
            let i = choose|i: int| 0 <= i < d.len() && #[trigger] d[i].0 == y.0;
            assert(recs[i].0 == y.0);
        }
        if y.0 == t {
            assert(recs[recs.len() - 1].0 == y.0);
        }
    } else {
        assert(!has_id(recs, y.0));
    }
}

proof fn lemma_upsert_keeps_names(v: DecoderView, recs: Seq<(u16, Seq<FieldSpecifier>)>, s: Seq<char>)
    ensures
        upsert_records(v, recs, s).names == v.names,
    decreases recs.len(),
{
    if recs.len() > 0 {
        lemma_upsert_keeps_names(v, recs.drop_last(), s);
    }
}

proof fn lemma_filter_idempotent<A>(v: Seq<A>, p: spec_fn(A) -> bool)
    ensures
        v.filter(p).filter(p) == v.filter(p),
    decreases v.len(),
{
    reveal(Seq::filter);
    if v.len() > 0 {
        let d = v.drop_last();
        lemma_filter_idempotent(d, p);
        if p(v.last()) {
            d.filter(p).lemma_filter_push(v.last(), p);
        }
    }
}

/// Re-sending the identical template bundle for a session leaves the
/// registry as the first sending left it: the same pending ids, the same
/// applied ids (each with its session) and the same object names.
pub proof fn lemma_upsert_idempotent(v: DecoderView, s: Seq<char>, bundle: Seq<u8>, names: Option<Seq<Seq<char>>>)
    ensures
        pending_set(upsert(upsert(v, s, bundle, names), s, bundle, names).entries)
            == pending_set(upsert(v, s, bundle, names).entries),
        forall|y: (u16, Seq<char>, bool)| upsert(upsert(v, s, bundle, names), s, bundle, names).entries.contains(y)
            <==> upsert(v, s, bundle, names).entries.contains(y),
        upsert(upsert(v, s, bundle, names), s, bundle, names).names == upsert(v, s, bundle, names).names,
{
    let recs = bundle_templates(bundle);
    let u1 = upsert(v, s, bundle, names);
    let u2 = upsert(u1, s, bundle, names);
    assert forall|y: (u16, Seq<char>, bool)| u2.entries.contains(y) <==> u1.entries.contains(y) by {
        lemma_upsert_contains(with_names(v, s, names), recs, s, y);
        lemma_upsert_contains(with_names(u1, s, names), recs, s, y);
    }
    assert forall|p: (u16, Seq<char>)| pending_set(u2.entries).contains(p) <==> pending_set(u1.entries).contains(p) by {
        assert(u2.entries.contains((p.0, p.1, false)) <==> u1.entries.contains((p.0, p.1, false)));
    }
    assert(pending_set(u2.entries) =~= pending_set(u1.entries));
    lemma_upsert_keeps_names(with_names(v, s, names), recs, s);
    lemma_upsert_keeps_names(with_names(u1, s, names), recs, s);
    if let Some(n) = names {
        let pr = crate::registry::names_session_differs(s);
        let w = without_session(v.names, s);
        lemma_filter_idempotent(v.names, pr);
        w.lemma_filter_push((s, n), pr);
    }
}

/// After an upsert of a session followed by its removal, the registry holds
/// no template id of that session and no object names for it.
pub proof fn lemma_upsert_then_delete(v: DecoderView, s: Seq<char>, bundle: Seq<u8>, names: Option<Seq<Seq<char>>>)
    ensures
        ({
            let d = delete_session(upsert(v, s, bundle, names), s);
            &&& forall|i: int| 0 <= i < d.entries.len() ==> (#[trigger] d.entries[i]).1 != s
            &&& !crate::registry::has_names(d.names, s)
        }),
{
    let u = upsert(v, s, bundle, names);
    let d = delete_session(u, s);
    assert forall|i: int| 0 <= i < d.entries.len() implies (#[trigger] d.entries[i]).1 != s by {
        u.entries.lemma_filter_pred(session_differs(s), i);
    }
    if crate::registry::has_names(d.names, s) {
        let i = choose|i: int| 0 <= i < d.names.len() && #[trigger] d.names[i].0 == s;
        u.names.lemma_filter_pred(crate::registry::names_session_differs(s), i);
    }
}

/// Every statistic of a record comes from one of its fields other than the
/// observation-time fields, and when that field's label lies in
/// `1..=names.len()` its object name is `names[label - 1]`.
pub proof fn lemma_record_stat_names(r: Seq<(FieldSpecifier, Seq<u8>)>, names: Seq<Seq<char>>)
    ensures
        forall|k: int| 0 <= k < record_stats(r, names).len() ==> exists|j: int| 0 <= j < r.len()
            && !is_time_field(r[j].0)
            && #[trigger] record_stats(r, names)[k] == spec_stat(r[j].0, r[j].1, names)
            && (1 <= r[j].0.information_element_identifier <= names.len() ==> record_stats(r, names)[k].0
                == names[r[j].0.information_element_identifier - 1]),
    decreases r.len(),
{
    if r.len() > 0 {
        let d = r.drop_last();
        lemma_record_stat_names(d, names);
        let p = record_stats(d, names);
        assert forall|k: int| 0 <= k < record_stats(r, names).len() implies exists|j: int| 0 <= j < r.len()
            && !is_time_field(r[j].0)
            && #[trigger] record_stats(r, names)[k] == spec_stat(r[j].0, r[j].1, names)
            && (1 <= r[j].0.information_element_identifier <= names.len() ==> record_stats(r, names)[k].0
                == names[r[j].0.information_element_identifier - 1]) by {
            if k < p.len() {
                let j = choose|j: int| 0 <= j < d.len() && !is_time_field(d[j].0)
                    && #[trigger] p[k] == spec_stat(d[j].0, d[j].1, names)
                    && (1 <= d[j].0.information_element_identifier <= names.len() ==> p[k].0
                        == names[d[j].0.information_element_identifier - 1]);
                assert(r[j] == d[j]);
            } else {
                assert(r[r.len() - 1] == r.last());
            }
        }
    }
}

proof fn lemma_last_time_bound(last: Option<u64>, recs: Seq<Seq<(FieldSpecifier, Seq<u8>)>>, names: Seq<Seq<char>>, now: u64)
    ensures
        forall|k: int| 0 <= k < recs.len() && (#[trigger] record_time(recs[k])) is Some ==>
            (decode_records(last, recs, names, now).0 matches Some(m) && m >= record_time(recs[k])->Some_0),
        last matches Some(l) ==> (decode_records(last, recs, names, now).0 matches Some(m) && m >= l),
        decode_records(last, recs, names, now).1.len() == recs.len(),
    decreases recs.len(),
{
    if recs.len() > 0 {
        let d = recs.drop_last();
        lemma_last_time_bound(last, d, names, now);
        assert forall|k: int| 0 <= k < recs.len() && (#[trigger] record_time(recs[k])) is Some implies
            (decode_records(last, recs, names, now).0 matches Some(m) && m >= record_time(recs[k])->Some_0) by {
            if k < d.len() {
                assert(record_time(d[k]) is Some);
            }
        }
    }
}

/// The remembered observation time never decreases, and a record without a
/// timestamp of its own is given a time no earlier than the timestamp of any
/// record before it.
pub proof fn lemma_fallback_time_monotone(last: Option<u64>, recs: Seq<Seq<(FieldSpecifier, Seq<u8>)>>, names: Seq<Seq<char>>, now: u64)
    ensures
        last matches Some(l) ==> (decode_records(last, recs, names, now).0 matches Some(m) && m >= l),
        forall|j: int, k: int| 0 <= j < k < recs.len() && (#[trigger] record_time(recs[j])) is Some
            && (#[trigger] record_time(recs[k])) is None ==> decode_records(last, recs, names, now).1[k].0
                >= record_time(recs[j])->Some_0,
    decreases recs.len(),
{
    lemma_last_time_bound(last, recs, names, now);
    if recs.len() > 0 {
        let d = recs.drop_last();
        lemma_fallback_time_monotone(last, d, names, now);
        lemma_last_time_bound(last, d, names, now);
        let full = decode_records(last, recs, names, now);
        let part = decode_records(last, d, names, now);
        assert forall|j: int, k: int| 0 <= j < k < recs.len() && (#[trigger] record_time(recs[j])) is Some
            && (#[trigger] record_time(recs[k])) is None implies full.1[k].0 >= record_time(recs[j])->Some_0 by {
            assert(record_time(d[j]) is Some);
            if k < d.len() {
                assert(record_time(d[k]) is None);
                assert(full.1[k] == part.1[k]);
            } else {
                assert(recs[k] == recs.last());
            }
        }
    }
}

/// A record that carries its own observation time is given exactly that
/// time, so records whose times do not decrease yield batches whose times
/// do not decrease.
pub proof fn lemma_batch_times(last: Option<u64>, recs: Seq<Seq<(FieldSpecifier, Seq<u8>)>>, names: Seq<Seq<char>>, now: u64)
    ensures
        decode_records(last, recs, names, now).1.len() == recs.len(),
        forall|k: int| 0 <= k < recs.len() && (#[trigger] record_time(recs[k])) is Some
            ==> decode_records(last, recs, names, now).1[k].0 == record_time(recs[k])->Some_0,
        (forall|k: int| 0 <= k < recs.len() ==> (#[trigger] record_time(recs[k])) is Some)
            && (forall|i: int, j: int| 0 <= i < j < recs.len() ==> record_time(#[trigger] recs[i])->Some_0
                <= record_time(#[trigger] recs[j])->Some_0)
            ==> forall|i: int, j: int| 0 <= i < j < recs.len() ==> decode_records(last, recs, names, now).1[i].0
                <= decode_records(last, recs, names, now).1[j].0,
    decreases recs.len(),
{
    lemma_last_time_bound(last, recs, names, now);
    if recs.len() > 0 {
        let d = recs.drop_last();
        lemma_batch_times(last, d, names, now);
        let full = decode_records(last, recs, names, now);
        let part = decode_records(last, d, names, now);
        assert forall|k: int| 0 <= k < recs.len() && (#[trigger] record_time(recs[k])) is Some
            implies full.1[k].0 == record_time(recs[k])->Some_0 by {
            if k < d.len() {
                assert(recs[k] == d[k]);
                assert(full.1[k] == part.1[k]);
            }
        }
    }
}

proof fn lemma_decoded_stats(last: Option<u64>, recs: Seq<Seq<(FieldSpecifier, Seq<u8>)>>, names: Seq<Seq<char>>, now: u64)
    ensures
        decode_records(last, recs, names, now).1.len() == recs.len(),
        forall|k: int| 0 <= k < recs.len() ==> (#[trigger] decode_records(last, recs, names, now).1[k]).1
            == record_stats(recs[k], names),
    decreases recs.len(),
{
    if recs.len() > 0 {
        let d = recs.drop_last();
        lemma_decoded_stats(last, d, names, now);
        let full = decode_records(last, recs, names, now);
        let part = decode_records(last, d, names, now);
        assert forall|k: int| 0 <= k < recs.len() implies (#[trigger] full.1[k]).1 == record_stats(recs[k], names) by {
            if k < d.len() {
                assert(full.1[k] == part.1[k]);
                assert(recs[k] == d[k]);
            }
        }
    }
}

proof fn lemma_apply_keeps_owner(e: Seq<(u16, Seq<char>, bool)>, owner: Seq<char>, t: u16)
    ensures
        session_of(e.map_values(crate::registry::mark_applied(owner)), t) matches Some(p)
            ==> session_of(e, t) matches Some(q) && p.0 == q.0,
        session_of(e, t) is Some ==> session_of(e.map_values(crate::registry::mark_applied(owner)), t) is Some,
    decreases e.len(),
{
    if e.len() > 0 {
        let f = crate::registry::mark_applied(owner);
        assert(e.map_values(f).drop_last() =~= e.drop_last().map_values(f));
        lemma_apply_keeps_owner(e.drop_last(), owner, t);
    }
}

/// Every batch of a data set holds the statistics of its record decoded
/// with the object names of the session that owns the set's template, so a
/// field whose label lies in `1..=names.len()` is named `names[label - 1]`.
pub proof fn lemma_set_stat_names(v: DecoderView, set: (u16, Seq<u8>), now: u64)
    requires
        set.0 >= MIN_DATA_SET_ID,
        layout_of(v.layouts, set.0) is Some,
    ensures
        ({
            let recs = data_records(set.1, 0, layout_of(v.layouts, set.0)->Some_0);
            let names = match session_of(v.entries, set.0) {
                Some(p) => names_of(v.names, p.0),
                None => seq![],
            };
            let out = process_set(v, set, now).1;
            &&& out.len() == recs.len()
            &&& forall|k: int| 0 <= k < recs.len() ==> (#[trigger] out[k]).1 == record_stats(recs[k], names)
        }),
{
    let recs = data_records(set.1, 0, layout_of(v.layouts, set.0)->Some_0);
    let e1 = apply_entries(v.entries, set.0);
    if let Some(p) = session_of(v.entries, set.0) {
        if !p.1 {
            lemma_apply_keeps_owner(v.entries, p.0, set.0);
        }
    }
    let v1 = DecoderView { entries: e1, ..v };
    lemma_decoded_stats(v.last_time, recs, names_for(v1, set.0), now);
}

/// Marking a template applied keeps every template id in at most one of
/// pending and applied: ids stay unique, and no id ends up in both.
pub proof fn lemma_apply_keeps_pending_xor_applied(e: Seq<(u16, Seq<char>, bool)>, t: u16)
    requires
        unique_ids(e),
    ensures
        unique_ids(apply_entries(e, t)),
        forall|u: u16| !(is_pending(apply_entries(e, t), u) && #[trigger] is_applied(apply_entries(e, t), u)),
{
    lemma_apply_unique(e, t);
    assert forall|u: u16| !(is_pending(apply_entries(e, t), u) && #[trigger] is_applied(apply_entries(e, t), u)) by {
        lemma_pending_xor_applied(DecoderView { layouts: seq![], entries: apply_entries(e, t), names: seq![], last_time: None }, u);
    }
}

} // verus!
