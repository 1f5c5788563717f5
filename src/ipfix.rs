//! The IPFIX wire format (RFC 7011): message framing, sets, template
//! records and data records.

use vstd::prelude::*;
use crate::bytes::{be_u16_at, be_u32_at, push_range, read_be_u16, read_be_u32};

verus! {

/// Length of the IPFIX message header.
pub const IPFIX_HEADER_LEN: usize = 16;
/// Version number carried by every IPFIX message.
pub const IPFIX_VERSION: u16 = 10;
/// Set id of template sets.
pub const TEMPLATE_SET_ID: u16 = 2;
/// Smallest set id of data sets.
pub const MIN_DATA_SET_ID: u16 = 256;
/// Field length announcing a variable-length field.
pub const VARIABLE_LENGTH: u16 = 65535;

/// One field of a template: `(enterprise_number?, information_element_id, field_length)`.
#[derive(Debug, Clone, Copy, PartialEq, Eq, Structural)]
pub struct FieldSpecifier {
    pub enterprise_number: Option<u32>,
    pub information_element_identifier: u16,
    pub field_length: u16,
}

impl FieldSpecifier {
    pub fn new(enterprise_number: Option<u32>, information_element_identifier: u16, field_length: u16) -> (r: Self)
        ensures
            r == (FieldSpecifier { enterprise_number, information_element_identifier, field_length }),
    {
        FieldSpecifier { enterprise_number, information_element_identifier, field_length }
    }
}

/// A template record: its id and ordered field specifiers.
#[derive(Debug, Clone)]
pub struct TemplateRecord {
    pub template_id: u16,
    pub field_specifiers: Vec<FieldSpecifier>,
}

/// One field of a data record with its raw value.
#[derive(Debug, Clone)]
pub struct DataField {
    pub spec: FieldSpecifier,
    pub value: Vec<u8>,
}

/// Why an IPFIX message length could not be read.
#[derive(Debug, Clone, Copy, PartialEq, Eq, Structural)]
pub enum IpfixError {
    TooShort,
}

pub open spec fn template_view(t: TemplateRecord) -> (u16, Seq<FieldSpecifier>) {
    (t.template_id, t.field_specifiers@)
}

pub open spec fn templates_view(s: Seq<TemplateRecord>) -> Seq<(u16, Seq<FieldSpecifier>)> {
    s.map_values(|t: TemplateRecord| template_view(t))
}

pub open spec fn field_view(f: DataField) -> (FieldSpecifier, Seq<u8>) {
    (f.spec, f.value@)
}

pub open spec fn record_view(r: Seq<DataField>) -> Seq<(FieldSpecifier, Seq<u8>)> {
    r.map_values(|f: DataField| field_view(f))
}

pub open spec fn records_view(s: Seq<Vec<DataField>>) -> Seq<Seq<(FieldSpecifier, Seq<u8>)>> {
    s.map_values(|r: Vec<DataField>| record_view(r@))
}

pub open spec fn sets_view(s: Seq<(u16, Vec<u8>)>) -> Seq<(u16, Seq<u8>)> {
    s.map_values(|x: (u16, Vec<u8>)| (x.0, x.1@))
}

pub open spec fn byte_vecs_view(s: Seq<Vec<u8>>) -> Seq<Seq<u8>> {
    s.map_values(|x: Vec<u8>| x@)
}

/// Field specifier at `off` and the offset after it; the enterprise number
/// follows when the top bit of the element id is set.
pub open spec fn field_spec_at(b: Seq<u8>, off: int) -> Option<(FieldSpecifier, int)> {
    if off + 4 > b.len() {
        None
    } else {
        let raw = be_u16_at(b, off);
        let len = be_u16_at(b, off + 2) as u16;
        if raw >= 32768 {
            if off + 8 > b.len() {
                None
            } else {
                Some((FieldSpecifier {
                    enterprise_number: Some(be_u32_at(b, off + 4) as u32),
                    information_element_identifier: (raw - 32768) as u16,
                    field_length: len,
                }, off + 8))
            }
        } else {
            Some((FieldSpecifier {
                enterprise_number: None,
                information_element_identifier: raw as u16,
                field_length: len,
            }, off + 4))
        }
    }
}

/// The first `count` field specifiers from `off` on, and the offset after them.
pub open spec fn field_specs_at(b: Seq<u8>, off: int, count: nat) -> Option<(Seq<FieldSpecifier>, int)>
    decreases count,
{
    if count == 0 {
        Some((seq![], off))
    } else {
        match field_specs_at(b, off, (count - 1) as nat) {
            None => None,
            Some(p) => match field_spec_at(b, p.1) {
                None => None,
                Some(q) => Some((p.0.push(q.0), q.1)),
            },
        }
    }
}

/// Template records of a template set body from `off` on; a record that does
/// not fit in what remains ends the set (padding).
pub open spec fn template_records(b: Seq<u8>, off: int) -> Seq<(u16, Seq<FieldSpecifier>)>
    decreases b.len() - off,
{
    if off < 0 || off + 4 > b.len() {
        seq![]
    } else {
        match field_specs_at(b, off + 4, be_u16_at(b, off + 2)) {
            None => seq![],
            Some(p) => if p.1 <= off || p.1 > b.len() {
                seq![]
            } else {
                seq![(be_u16_at(b, off) as u16, p.0)] + template_records(b, p.1)
            },
        }
    }
}

/// Value of a field of length `len` at `off` and the offset after it; a
/// variable-length field carries its length in one byte, or in three when
/// the first is 255.
pub open spec fn field_value_at(b: Seq<u8>, off: int, len: u16) -> Option<(Seq<u8>, int)> {
    if len != VARIABLE_LENGTH {
        if off + len > b.len() {
            None
        } else {
            Some((b.subrange(off, off + len), off + len))
        }
    } else if off + 1 > b.len() {
        None
    } else if b[off] < 255 {
        if off + 1 + b[off] > b.len() {
            None
        } else {
            Some((b.subrange(off + 1, off + 1 + b[off]), off + 1 + b[off]))
        }
    } else if off + 3 > b.len() {
        None
    } else {
        let l = be_u16_at(b, off + 1);
        if off + 3 + l > b.len() {
            None
        } else {
            Some((b.subrange(off + 3, off + 3 + l), off + 3 + l))
        }
    }
}

/// The values of the first `k` fields of `fs` in a record at `off`.
pub open spec fn record_at(b: Seq<u8>, off: int, fs: Seq<FieldSpecifier>, k: nat) -> Option<(Seq<(FieldSpecifier, Seq<u8>)>, int)>
    decreases k,
{
    if k == 0 {
        Some((seq![], off))
    } else {
        match record_at(b, off, fs, (k - 1) as nat) {
            None => None,
            Some(p) => match field_value_at(b, p.1, fs[k - 1].field_length) {
                None => None,
                Some(q) => Some((p.0.push((fs[k - 1], q.0)), q.1)),
            },
        }
    }
}

/// Data records of a data set body from `off` on, laid out by `fs`; a record
/// that does not fit ends the set.
pub open spec fn data_records(b: Seq<u8>, off: int, fs: Seq<FieldSpecifier>) -> Seq<Seq<(FieldSpecifier, Seq<u8>)>>
    decreases b.len() - off,
{
    if off < 0 || off >= b.len() {
        seq![]
    } else {
        match record_at(b, off, fs, fs.len()) {
            None => seq![],
            Some(p) => if p.1 <= off || p.1 > b.len() {
                seq![]
            } else {
                seq![p.0] + data_records(b, p.1, fs)
            },
        }
    }
}

/// Sets of a message from `off` on as `(set_id, body)`; `None` when a set
/// length is below four or runs past the message. Fewer than four trailing
/// bytes are ignored.
pub open spec fn sets_from(m: Seq<u8>, off: int) -> Option<Seq<(u16, Seq<u8>)>>
    decreases m.len() - off,
{
    if off < 0 || off + 4 > m.len() {
        Some(seq![])
    } else {
        let l = be_u16_at(m, off + 2);
        if l < 4 || off + l > m.len() {
            None
        } else {
            match sets_from(m, off + l) {
                None => None,
                Some(rest) => Some(seq![(be_u16_at(m, off) as u16, m.subrange(off + 4, off + l))] + rest),
            }
        }
    }
}

/// Sets of one IPFIX message; `None` when it is malformed or not version 10.
pub open spec fn message_sets(m: Seq<u8>) -> Option<Seq<(u16, Seq<u8>)>> {
    if m.len() < IPFIX_HEADER_LEN || be_u16_at(m, 0) != IPFIX_VERSION {
        None
    } else {
        sets_from(m, IPFIX_HEADER_LEN as int)
    }
}

/// The IPFIX messages of a buffer from `off` on, delimited by the 16-bit
/// length at offset 2 of each; a length below the header size or past the
/// end stops the scan.
pub open spec fn messages_from(p: Seq<u8>, off: int) -> Seq<Seq<u8>>
    decreases p.len() - off,
{
    if off < 0 || off + 4 > p.len() {
        seq![]
    } else {
        let l = be_u16_at(p, off + 2);
        if l < IPFIX_HEADER_LEN || off + l > p.len() {
            seq![]
        } else {
            seq![p.subrange(off, off + l)] + messages_from(p, off + l)
        }
    }
}

/// Template records carried by the template sets of `sets`, in order.
pub open spec fn set_templates(sets: Seq<(u16, Seq<u8>)>) -> Seq<(u16, Seq<FieldSpecifier>)>
    decreases sets.len(),
{
    if sets.len() == 0 {
        seq![]
    } else {
        set_templates(sets.drop_last()) + if sets.last().0 == TEMPLATE_SET_ID {
            template_records(sets.last().1, 0)
        } else {
            seq![]
        }
    }
}

/// Template records of a sequence of messages; malformed messages give none.
pub open spec fn messages_templates(ms: Seq<Seq<u8>>) -> Seq<(u16, Seq<FieldSpecifier>)>
    decreases ms.len(),
{
    if ms.len() == 0 {
        seq![]
    } else {
        messages_templates(ms.drop_last()) + match message_sets(ms.last()) {
            None => seq![],
            Some(sets) => set_templates(sets),
        }
    }
}

/// Template records defined by a template bundle.
pub open spec fn bundle_templates(bundle: Seq<u8>) -> Seq<(u16, Seq<FieldSpecifier>)> {
    messages_templates(messages_from(bundle, 0))
}

/// The 16-bit length at offset 2 of an IPFIX message header.
pub fn get_ipfix_message_length(data: &[u8]) -> (r: Result<u16, IpfixError>)
    ensures
        data@.len() < 4 ==> r == Err::<u16, IpfixError>(IpfixError::TooShort),
        data@.len() >= 4 ==> r == Ok::<u16, IpfixError>(be_u16_at(data@, 2) as u16),
{
    if data.len() < 4 {
        return Err(IpfixError::TooShort);
    }
    Ok(read_be_u16(data, 2))
}

/// Splits a buffer into its IPFIX messages.
pub fn split_messages(p: &[u8]) -> (r: Vec<Vec<u8>>)
    ensures
        byte_vecs_view(r@) == messages_from(p@, 0),
{
    let mut out: Vec<Vec<u8>> = Vec::new();
    let mut off: usize = 0;
    assert(byte_vecs_view(out@) + messages_from(p@, 0) =~= messages_from(p@, 0));
    loop
        invariant_except_break
            off <= p@.len(),
            byte_vecs_view(out@) + messages_from(p@, off as int) == messages_from(p@, 0),
        ensures
            byte_vecs_view(out@) == messages_from(p@, 0),
        decreases p@.len() - off,
    {
        if p.len() - off < 4 {
            assert(byte_vecs_view(out@) + Seq::<Seq<u8>>::empty() =~= byte_vecs_view(out@));
            break;
        }
        let l = read_be_u16(p, off + 2) as usize;
        if l < IPFIX_HEADER_LEN || l > p.len() - off {
            assert(byte_vecs_view(out@) + Seq::<Seq<u8>>::empty() =~= byte_vecs_view(out@));
            break;
        }
        let mut m = Vec::new();
        push_range(&mut m, p, off, off + l);
        let ghost old_out = out@;
        out.push(m);
        proof {
            assert(byte_vecs_view(out@) =~= byte_vecs_view(old_out).push(m@));
            assert(byte_vecs_view(old_out) + (seq![m@] + messages_from(p@, (off + l) as int))
                =~= byte_vecs_view(out@) + messages_from(p@, (off + l) as int));
        }
        off = off + l;
    }
    out
}

/// Splits one IPFIX message into its sets, or `None` when it is malformed.
pub fn split_sets(m: &[u8]) -> (r: Option<Vec<(u16, Vec<u8>)>>)
    ensures
        match message_sets(m@) {
            None => r is None,
            Some(s) => r is Some && sets_view(r->Some_0@) == s,
        },
{
    if m.len() < IPFIX_HEADER_LEN || read_be_u16(m, 0) != IPFIX_VERSION {
        return None;
    }
    let mut out: Vec<(u16, Vec<u8>)> = Vec::new();
    let mut off: usize = IPFIX_HEADER_LEN;
    assert(sets_from(m@, off as int) matches Some(s) ==> sets_view(out@) + s =~= s);
    loop
        invariant_except_break
            IPFIX_HEADER_LEN <= off <= m@.len(),
            m@.len() >= IPFIX_HEADER_LEN,
            be_u16_at(m@, 0) == IPFIX_VERSION,
            match sets_from(m@, IPFIX_HEADER_LEN as int) {
                None => sets_from(m@, off as int) is None,
                Some(all) => sets_from(m@, off as int) matches Some(s) && sets_view(out@) + s == all,
            },
        ensures
            message_sets(m@) == Some(sets_view(out@)),
        decreases m@.len() - off,
    {
        if m.len() - off < 4 {
            assert(sets_view(out@) + Seq::<(u16, Seq<u8>)>::empty() =~= sets_view(out@));
            break;
        }
        let set_id = read_be_u16(m, off);
        let l = read_be_u16(m, off + 2) as usize;
        if l < 4 || l > m.len() - off {
            return None;
        }
        let mut body = Vec::new();
        push_range(&mut body, m, off + 4, off + l);
        let ghost old_out = out@;
        out.push((set_id, body));
        proof {
            assert(sets_view(out@) =~= sets_view(old_out).push((set_id, body@)));
            if let Some(rest) = sets_from(m@, (off + l) as int) {
                assert(sets_view(old_out) + (seq![(set_id, body@)] + rest) =~= sets_view(out@) + rest);
            }
        }
        off = off + l;
    }
    Some(out)
}

/// Reads the field specifier at `off`.
fn read_field_spec(b: &[u8], off: usize) -> (r: Option<(FieldSpecifier, usize)>)
    ensures
        match field_spec_at(b@, off as int) {
            None => r is None,
            Some(p) => r matches Some(q) && q.0 == p.0 && q.1 == p.1,
        },
{
    if off > b.len() || b.len() - off < 4 {
        return None;
    }
    let raw = read_be_u16(b, off);
    let len = read_be_u16(b, off + 2);
    if raw >= 32768 {
        if b.len() - off < 8 {
            return None;
        }
        let en = read_be_u32(b, off + 4);
        Some((FieldSpecifier { enterprise_number: Some(en), information_element_identifier: raw - 32768, field_length: len }, off + 8))
    } else {
        Some((FieldSpecifier { enterprise_number: None, information_element_identifier: raw, field_length: len }, off + 4))
    }
}

/// Parses the template records of a template set body.
pub fn parse_template_set(b: &[u8]) -> (r: Vec<TemplateRecord>)
    ensures
        templates_view(r@) == template_records(b@, 0),
{
    let mut out: Vec<TemplateRecord> = Vec::new();
    let mut off: usize = 0;
    assert(templates_view(out@) + template_records(b@, 0) =~= template_records(b@, 0));
    loop
        invariant_except_break
            off <= b@.len(),
            templates_view(out@) + template_records(b@, off as int) == template_records(b@, 0),
        ensures
            templates_view(out@) == template_records(b@, 0),
        decreases b@.len() - off,
    {
        if b.len() - off < 4 {
            assert(templates_view(out@) + Seq::<(u16, Seq<FieldSpecifier>)>::empty() =~= templates_view(out@));
            break;
        }
        let template_id = read_be_u16(b, off);
        let count = read_be_u16(b, off + 2);
        let mut fields: Vec<FieldSpecifier> = Vec::new();
        let mut pos: usize = off + 4;
        let mut k: u16 = 0;
        let mut ok = true;
        while k < count
            invariant_except_break
                off + 4 <= b@.len(),
                ok,
                k <= count,
                field_specs_at(b@, off + 4, k as nat) == Some((fields@, pos as int)),
            ensures
                off + 4 <= b@.len(),
                ok ==> field_specs_at(b@, off + 4, count as nat) == Some((fields@, pos as int)),
                !ok ==> field_specs_at(b@, off + 4, count as nat) is None,
            decreases count - k,
        {
            match read_field_spec(b, pos) {
                None => {
                    proof { lemma_field_specs_none(b@, off + 4, (k + 1) as nat, count as nat); }
                    ok = false;
                    break;
                },
                Some((f, next)) => {
                    fields.push(f);
                    pos = next;
                    k = k + 1;
                },
            }
        }
        if !ok || pos <= off || pos > b.len() {
            assert(templates_view(out@) + Seq::<(u16, Seq<FieldSpecifier>)>::empty() =~= templates_view(out@));
            break;
        }
        let ghost old_out = out@;
        let t = TemplateRecord { template_id, field_specifiers: fields };
        out.push(t);
        proof {
            assert(templates_view(out@) =~= templates_view(old_out).push(template_view(t)));
            assert(templates_view(old_out) + (seq![template_view(t)] + template_records(b@, pos as int))
                =~= templates_view(out@) + template_records(b@, pos as int));
        }
        off = pos;
    }
    out
}

proof fn lemma_field_specs_none(b: Seq<u8>, off: int, k: nat, count: nat)
    requires
        k <= count,
        field_specs_at(b, off, k) is None,
    ensures
        field_specs_at(b, off, count) is None,
    decreases count - k,
{
    if k < count {
        lemma_field_specs_none(b, off, k + 1, count);
    }
}

proof fn lemma_record_none(b: Seq<u8>, off: int, fs: Seq<FieldSpecifier>, k: nat, count: nat)
    requires
        k <= count,
        record_at(b, off, fs, k) is None,
    ensures
        record_at(b, off, fs, count) is None,
    decreases count - k,
{
    if k < count {
        lemma_record_none(b, off, fs, k + 1, count);
    }
}

/// Reads a field value of declared length `len` at `off`.
fn read_field_value(b: &[u8], off: usize, len: u16) -> (r: Option<(Vec<u8>, usize)>)
    requires
        off <= b@.len(),
    ensures
        match field_value_at(b@, off as int, len) {
            None => r is None,
            Some(p) => r matches Some(q) && q.0@ == p.0 && q.1 == p.1,
        },
{
    let mut v = Vec::new();
    if len != VARIABLE_LENGTH {
        let n = len as usize;
        if n > b.len() - off {
            return None;
        }
        push_range(&mut v, b, off, off + n);
        return Some((v, off + n));
    }
    if b.len() - off < 1 {
        return None;
    }
    let first = b[off] as usize;
    if first < 255 {
        if first > b.len() - off - 1 {
            return None;
        }
        push_range(&mut v, b, off + 1, off + 1 + first);
        return Some((v, off + 1 + first));
    }
    if b.len() - off < 3 {
        return None;
    }
    let l = read_be_u16(b, off + 1) as usize;
    if l > b.len() - off - 3 {
        return None;
    }
    push_range(&mut v, b, off + 3, off + 3 + l);
    Some((v, off + 3 + l))
}

/// Parses the data records of a data set body laid out by `fs`.
pub fn parse_data_set(b: &[u8], fs: &Vec<FieldSpecifier>) -> (r: Vec<Vec<DataField>>)
    ensures
        records_view(r@) == data_records(b@, 0, fs@),
{
    let mut out: Vec<Vec<DataField>> = Vec::new();
    let mut off: usize = 0;
    assert(records_view(out@) + data_records(b@, 0, fs@) =~= data_records(b@, 0, fs@));
    loop
        invariant_except_break
            off <= b@.len(),
            records_view(out@) + data_records(b@, off as int, fs@) == data_records(b@, 0, fs@),
        ensures
            records_view(out@) == data_records(b@, 0, fs@),
        decreases b@.len() - off,
    {
        if off >= b.len() {
            assert(records_view(out@) + Seq::<Seq<(FieldSpecifier, Seq<u8>)>>::empty() =~= records_view(out@));
            break;
        }
        let mut rec: Vec<DataField> = Vec::new();
        let mut pos: usize = off;
        let mut k: usize = 0;
        let mut ok = true;
        while k < fs.len()
            invariant_except_break
                off < b@.len(),
                ok,
                k <= fs@.len(),
                pos <= b@.len(),
                record_at(b@, off as int, fs@, k as nat) == Some((record_view(rec@), pos as int)),
            ensures
                off < b@.len(),
                pos <= b@.len(),
                ok ==> record_at(b@, off as int, fs@, fs@.len()) == Some((record_view(rec@), pos as int)),
                !ok ==> record_at(b@, off as int, fs@, fs@.len()) is None,
            decreases fs@.len() - k,
        {
            let f = fs[k];
            match read_field_value(b, pos, f.field_length) {
                None => {
                    proof { lemma_record_none(b@, off as int, fs@, (k + 1) as nat, fs@.len()); }
                    ok = false;
                    break;
                },
                Some((v, next)) => {
                    let ghost old_rec = rec@;
                    let d = DataField { spec: f, value: v };
                    rec.push(d);
                    assert(record_view(rec@) =~= record_view(old_rec).push((f, d.value@)));
                    pos = next;
                    k = k + 1;
                },
            }
        }
        if !ok || pos <= off {
            assert(records_view(out@) + Seq::<Seq<(FieldSpecifier, Seq<u8>)>>::empty() =~= records_view(out@));
            break;
        }
        let ghost old_out = out@;
        let ghost rv = record_view(rec@);
        out.push(rec);
        proof {
            assert(records_view(out@) =~= records_view(old_out).push(rv));
            assert(records_view(old_out) + (seq![rv] + data_records(b@, pos as int, fs@))
                =~= records_view(out@) + data_records(b@, pos as int, fs@));
        }
        off = pos;
    }
    out
}

} // verus!
