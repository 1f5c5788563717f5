//! The decoder's template registry: layouts by template id, the pending and
//! applied template ids of each session, and each session's object names.

use vstd::prelude::*;
use crate::ipfix::{FieldSpecifier, TemplateRecord, templates_view};
use crate::stats::names_view;
use crate::text::copy_string;

verus! {

/// A template id owned by a session, pending until a data set uses it.
#[derive(Debug, Clone)]
pub struct TemplateEntry {
    pub template_id: u16,
    pub session_key: String,
    pub applied: bool,
}

/// The object names of a session.
#[derive(Debug, Clone)]
pub struct NamesEntry {
    pub session_key: String,
    pub object_names: Vec<String>,
}

pub open spec fn entry_view(x: TemplateEntry) -> (u16, Seq<char>, bool) {
    (x.template_id, x.session_key@, x.applied)
}

pub open spec fn entries_view(s: Seq<TemplateEntry>) -> Seq<(u16, Seq<char>, bool)> {
    s.map_values(|x: TemplateEntry| entry_view(x))
}

pub open spec fn names_entry_view(x: NamesEntry) -> (Seq<char>, Seq<Seq<char>>) {
    (x.session_key@, names_view(x.object_names@))
}

pub open spec fn names_entries_view(s: Seq<NamesEntry>) -> Seq<(Seq<char>, Seq<Seq<char>>)> {
    s.map_values(|x: NamesEntry| names_entry_view(x))
}

/// Each template id appears in at most one entry.
pub open spec fn unique_ids(e: Seq<(u16, Seq<char>, bool)>) -> bool {
    forall|i: int, j: int| 0 <= i < j < e.len() ==> #[trigger] e[i].0 != #[trigger] e[j].0
}

/// Whether `t` is pending.
pub open spec fn is_pending(e: Seq<(u16, Seq<char>, bool)>, t: u16) -> bool {
    exists|i: int| 0 <= i < e.len() && #[trigger] e[i] == (t, e[i].1, false)
}

/// Whether `t` is applied.
pub open spec fn is_applied(e: Seq<(u16, Seq<char>, bool)>, t: u16) -> bool {
    exists|i: int| 0 <= i < e.len() && #[trigger] e[i] == (t, e[i].1, true)
}

/// Session owning `t` and whether it is applied, if any.
pub open spec fn session_of(e: Seq<(u16, Seq<char>, bool)>, t: u16) -> Option<(Seq<char>, bool)>
    decreases e.len(),
{
    if e.len() == 0 {
        None
    } else if e.last().0 == t {
        Some((e.last().1, e.last().2))
    } else {
        session_of(e.drop_last(), t)
    }
}

pub open spec fn id_differs(t: u16) -> spec_fn((u16, Seq<char>, bool)) -> bool {
    |x: (u16, Seq<char>, bool)| x.0 != t
}

pub open spec fn session_differs(s: Seq<char>) -> spec_fn((u16, Seq<char>, bool)) -> bool {
    |x: (u16, Seq<char>, bool)| x.1 != s
}

pub open spec fn names_session_differs(s: Seq<char>) -> spec_fn((Seq<char>, Seq<Seq<char>>)) -> bool {
    |x: (Seq<char>, Seq<Seq<char>>)| x.0 != s
}

pub open spec fn without_id(e: Seq<(u16, Seq<char>, bool)>, t: u16) -> Seq<(u16, Seq<char>, bool)> {
    e.filter(id_differs(t))
}

/// `t` recorded as pending for session `s`, replacing any earlier owner.
pub open spec fn insert_pending(e: Seq<(u16, Seq<char>, bool)>, t: u16, s: Seq<char>) -> Seq<(u16, Seq<char>, bool)> {
    without_id(e, t).push((t, s, false))
}

/// Entry `x` marked applied when it belongs to session `s`.
pub open spec fn mark_applied(s: Seq<char>) -> spec_fn((u16, Seq<char>, bool)) -> (u16, Seq<char>, bool) {
    |x: (u16, Seq<char>, bool)| if x.1 == s { (x.0, x.1, true) } else { x }
}

/// A data set used `t`: when pending, every pending id of its session becomes applied.
pub open spec fn apply_entries(e: Seq<(u16, Seq<char>, bool)>, t: u16) -> Seq<(u16, Seq<char>, bool)> {
    match session_of(e, t) {
        Some(p) => if !p.1 {
            e.map_values(mark_applied(p.0))
        } else {
            e
        },
        None => e,
    }
}

/// Every entry of session `s` removed.
pub open spec fn delete_entries(e: Seq<(u16, Seq<char>, bool)>, s: Seq<char>) -> Seq<(u16, Seq<char>, bool)> {
    e.filter(session_differs(s))
}

/// Object names of session `s`; none when it has none.
pub open spec fn names_of(n: Seq<(Seq<char>, Seq<Seq<char>>)>, s: Seq<char>) -> Seq<Seq<char>>
    decreases n.len(),
{
    if n.len() == 0 {
        seq![]
    } else if n.last().0 == s {
        n.last().1
    } else {
        names_of(n.drop_last(), s)
    }
}

pub open spec fn without_session(n: Seq<(Seq<char>, Seq<Seq<char>>)>, s: Seq<char>) -> Seq<(Seq<char>, Seq<Seq<char>>)> {
    n.filter(names_session_differs(s))
}

/// Whether session `s` has object names.
pub open spec fn has_names(n: Seq<(Seq<char>, Seq<Seq<char>>)>, s: Seq<char>) -> bool {
    exists|i: int| 0 <= i < n.len() && #[trigger] n[i].0 == s
}

/// Layout of template `t`: the one recorded last.
pub open spec fn layout_of(l: Seq<(u16, Seq<FieldSpecifier>)>, t: u16) -> Option<Seq<FieldSpecifier>>
    decreases l.len(),
{
    if l.len() == 0 {
        None
    } else if l.last().0 == t {
        Some(l.last().1)
    } else {
        layout_of(l.drop_last(), t)
    }
}

pub proof fn lemma_filter_unique(e: Seq<(u16, Seq<char>, bool)>, pred: spec_fn((u16, Seq<char>, bool)) -> bool)
    requires
        unique_ids(e),
    ensures
        unique_ids(e.filter(pred)),
        forall|x: (u16, Seq<char>, bool)| e.filter(pred).contains(x) ==> e.contains(x),
    decreases e.len(),
{
    reveal(Seq::filter);
    if e.len() > 0 {
        let d = e.drop_last();
        assert(unique_ids(d));
        lemma_filter_unique(d, pred);
        let f = d.filter(pred);
        if pred(e.last()) {
            assert(e.filter(pred) == f.push(e.last()));
            assert forall|x: (u16, Seq<char>, bool)| f.contains(x) implies x.0 != e.last().0 by {
                assert(d.contains(x));
                let i = choose|i: int| 0 <= i < d.len() && d[i] == x;
                assert(d[i] == e[i]);
            }
            assert forall|i: int, j: int| 0 <= i < j < f.push(e.last()).len() implies
                #[trigger] f.push(e.last())[i].0 != #[trigger] f.push(e.last())[j].0 by {
                if j == f.len() {
                    assert(f.contains(f[i]));
                }
            }
            assert forall|x: (u16, Seq<char>, bool)| e.filter(pred).contains(x) implies e.contains(x) by {
                if x != e.last() {
                    assert(f.contains(x));
                    assert(d.contains(x));
                    let i = choose|i: int| 0 <= i < d.len() && d[i] == x;
                    assert(d[i] == e[i]);
                } else {
                    assert(e[e.len() - 1] == x);
                }
            }
        } else {
            assert(e.filter(pred) == f);
            assert forall|x: (u16, Seq<char>, bool)| e.filter(pred).contains(x) implies e.contains(x) by {
                assert(d.contains(x));
                let i = choose|i: int| 0 <= i < d.len() && d[i] == x;
                assert(d[i] == e[i]);
            }
        }
    }
}

/// After `insert_pending`, ids stay unique.
pub proof fn lemma_insert_pending_unique(e: Seq<(u16, Seq<char>, bool)>, t: u16, s: Seq<char>)
    requires
        unique_ids(e),
    ensures
        unique_ids(insert_pending(e, t, s)),
{
    let p = id_differs(t);
    lemma_filter_unique(e, p);
    let f = e.filter(p);
    assert forall|i: int| 0 <= i < f.len() implies f[i].0 != t by {
        e.lemma_filter_pred(p, i);
    }
    assert forall|i: int, j: int| 0 <= i < j < f.push((t, s, false)).len() implies
        #[trigger] f.push((t, s, false))[i].0 != #[trigger] f.push((t, s, false))[j].0 by {
        if j == f.len() {
            assert(f[i].0 != t);
        }
    }
}

/// Filtering out a template id copies the entries that keep it out.
pub fn filter_out_id(e: &Vec<TemplateEntry>, t: u16) -> (r: Vec<TemplateEntry>)
    ensures
        entries_view(r@) == without_id(entries_view(e@), t),
{
    let ghost pred = id_differs(t);
    let mut out: Vec<TemplateEntry> = Vec::new();
    let mut i: usize = 0;
    while i < e.len()
        invariant
            i <= e@.len(),
            entries_view(out@) == entries_view(e@).take(i as int).filter(pred),
            pred == id_differs(t),
        decreases e@.len() - i,
    {
        proof {
            assert(entries_view(e@).take(i + 1) =~= entries_view(e@).take(i as int).push(entry_view(e@[i as int])));
            entries_view(e@).take(i as int).lemma_filter_push(entry_view(e@[i as int]), pred);
        }
        if e[i].template_id != t {
            let x = TemplateEntry {
                template_id: e[i].template_id,
                session_key: copy_string(&e[i].session_key),
                applied: e[i].applied,
            };
            let ghost old_out = out@;
            out.push(x);
            assert(entries_view(out@) =~= entries_view(old_out).push(entry_view(x)));
            assert(entry_view(x) == entries_view(e@)[i as int]);
        }
        i = i + 1;
    }
    assert(entries_view(e@).take(e@.len() as int) =~= entries_view(e@));
    out
}

/// Filtering out a session's entries.
pub fn filter_out_session(e: &Vec<TemplateEntry>, s: &String) -> (r: Vec<TemplateEntry>)
    ensures
        entries_view(r@) == delete_entries(entries_view(e@), s@),
{
    let ghost pred = session_differs(s@);
    let mut out: Vec<TemplateEntry> = Vec::new();
    let mut i: usize = 0;
    while i < e.len()
        invariant
            i <= e@.len(),
            entries_view(out@) == entries_view(e@).take(i as int).filter(pred),
            pred == session_differs(s@),
        decreases e@.len() - i,
    {
        proof {
            assert(entries_view(e@).take(i + 1) =~= entries_view(e@).take(i as int).push(entry_view(e@[i as int])));
            entries_view(e@).take(i as int).lemma_filter_push(entry_view(e@[i as int]), pred);
        }
        if e[i].session_key != *s {
            let x = TemplateEntry {
                template_id: e[i].template_id,
                session_key: copy_string(&e[i].session_key),
                applied: e[i].applied,
            };
            let ghost old_out = out@;
            out.push(x);
            assert(entries_view(out@) =~= entries_view(old_out).push(entry_view(x)));
            assert(entry_view(x) == entries_view(e@)[i as int]);
        }
        i = i + 1;
    }
    assert(entries_view(e@).take(e@.len() as int) =~= entries_view(e@));
    out
}

/// Filtering out a session's names.
pub fn filter_out_names(n: &Vec<NamesEntry>, s: &String) -> (r: Vec<NamesEntry>)
    ensures
        names_entries_view(r@) == without_session(names_entries_view(n@), s@),
{
    let ghost pred = names_session_differs(s@);
    let mut out: Vec<NamesEntry> = Vec::new();
    let mut i: usize = 0;
    while i < n.len()
        invariant
            i <= n@.len(),
            names_entries_view(out@) == names_entries_view(n@).take(i as int).filter(pred),
            pred == names_session_differs(s@),
        decreases n@.len() - i,
    {
        proof {
            assert(names_entries_view(n@).take(i + 1) =~= names_entries_view(n@).take(i as int).push(names_entry_view(n@[i as int])));
            names_entries_view(n@).take(i as int).lemma_filter_push(names_entry_view(n@[i as int]), pred);
        }
        if n[i].session_key != *s {
            let x = NamesEntry {
                session_key: copy_string(&n[i].session_key),
                object_names: copy_names(&n[i].object_names),
            };
            let ghost old_out = out@;
            out.push(x);
            assert(names_entries_view(out@) =~= names_entries_view(old_out).push(names_entry_view(x)));
        }
        i = i + 1;
    }
    assert(names_entries_view(n@).take(n@.len() as int) =~= names_entries_view(n@));
    out
}

/// A copy of a list of names.
pub fn copy_names(v: &Vec<String>) -> (r: Vec<String>)
    ensures
        names_view(r@) == names_view(v@),
{
    let mut out: Vec<String> = Vec::new();
    let mut i: usize = 0;
    while i < v.len()
        invariant
            i <= v@.len(),
            names_view(out@) == names_view(v@).take(i as int),
        decreases v@.len() - i,
    {
        let ghost old_out = out@;
        let c = copy_string(&v[i]);
        out.push(c);
        assert(names_view(out@) =~= names_view(old_out).push(c@));
        assert(names_view(v@).take(i + 1) =~= names_view(v@).take(i as int).push(v@[i as int]@));
        i = i + 1;
    }
    assert(names_view(v@).take(v@.len() as int) =~= names_view(v@));
    out
}

/// The session owning `t` and whether it is applied.
pub fn find_session(e: &Vec<TemplateEntry>, t: u16) -> (r: Option<(String, bool)>)
    ensures
        match session_of(entries_view(e@), t) {
            None => r is None,
            Some(p) => r matches Some(q) && q.0@ == p.0 && q.1 == p.1,
        },
{
    let mut i: usize = e.len();
    assert(entries_view(e@).take(i as int) =~= entries_view(e@));
    while i > 0
        invariant
            i <= e@.len(),
            session_of(entries_view(e@), t) == session_of(entries_view(e@).take(i as int), t),
        decreases i,
    {
        assert(entries_view(e@).take(i as int).drop_last() =~= entries_view(e@).take(i - 1));
        if e[i - 1].template_id == t {
            return Some((copy_string(&e[i - 1].session_key), e[i - 1].applied));
        }
        i = i - 1;
    }
    None
}

/// The object names of session `s`.
pub fn find_names(n: &Vec<NamesEntry>, s: &String) -> (r: Vec<String>)
    ensures
        names_view(r@) == names_of(names_entries_view(n@), s@),
{
    let mut i: usize = n.len();
    assert(names_entries_view(n@).take(i as int) =~= names_entries_view(n@));
    while i > 0
        invariant
            i <= n@.len(),
            names_of(names_entries_view(n@), s@) == names_of(names_entries_view(n@).take(i as int), s@),
        decreases i,
    {
        assert(names_entries_view(n@).take(i as int).drop_last() =~= names_entries_view(n@).take(i - 1));
        if n[i - 1].session_key == *s {
            return copy_names(&n[i - 1].object_names);
        }
        i = i - 1;
    }
    let r: Vec<String> = Vec::new();
    assert(names_view(r@) =~= Seq::<Seq<char>>::empty());
    r
}

/// The layout recorded last for `t`.
pub fn find_layout(l: &Vec<TemplateRecord>, t: u16) -> (r: Option<Vec<FieldSpecifier>>)
    ensures
        match layout_of(templates_view(l@), t) {
            None => r is None,
            Some(fs) => r matches Some(v) && v@ == fs,
        },
{
    let mut i: usize = l.len();
    assert(templates_view(l@).take(i as int) =~= templates_view(l@));
    while i > 0
        invariant
            i <= l@.len(),
            layout_of(templates_view(l@), t) == layout_of(templates_view(l@).take(i as int), t),
        decreases i,
    {
        assert(templates_view(l@).take(i as int).drop_last() =~= templates_view(l@).take(i - 1));
        if l[i - 1].template_id == t {
            return Some(l[i - 1].field_specifiers.clone());
        }
        i = i - 1;
    }
    None
}

/// Every entry of session `s` marked applied.
pub fn apply_to_session(e: &Vec<TemplateEntry>, s: &String) -> (r: Vec<TemplateEntry>)
    ensures
        entries_view(r@) == entries_view(e@).map_values(mark_applied(s@)),
{
    let mut out: Vec<TemplateEntry> = Vec::new();
    let mut i: usize = 0;
    while i < e.len()
        invariant
            i <= e@.len(),
            entries_view(out@) == entries_view(e@).take(i as int).map_values(mark_applied(s@)),
        decreases e@.len() - i,
    {
        let same = e[i].session_key == *s;
        let x = TemplateEntry {
            template_id: e[i].template_id,
            session_key: copy_string(&e[i].session_key),
            applied: if same { true } else { e[i].applied },
        };
        let ghost old_out = out@;
        out.push(x);
        assert(entry_view(x) == mark_applied(s@)(entry_view(e@[i as int])));
        assert(entries_view(out@) =~= entries_view(old_out).push(entry_view(x)));
        assert(entries_view(out@) =~= entries_view(e@).take(i + 1).map_values(mark_applied(s@)));
        i = i + 1;
    }
    assert(entries_view(e@).take(e@.len() as int) =~= entries_view(e@));
    out
}

} // verus!
