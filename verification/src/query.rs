//! List queries: the SQL text and its bound values.
//!
//! A list starts from a fixed `select`, adds one `and ...` condition per
//! filter that is set, each value bound as the next `$N` placeholder, and
//! ends with its ordering and limit. Storage runs the text with the values
//! bound in order.

use vstd::prelude::*;
use crate::text::{append_decimal, decimal_chars};

verus! {

/// A calendar day.
#[derive(Debug, Clone, Copy, PartialEq, Eq)]
pub struct Day {
    pub year: i32,
    pub month: u8,
    pub day: u8,
}

/// A value bound to a placeholder.
#[derive(Debug, Clone, PartialEq, Eq)]
pub enum BindValue {
    Text(String),
    Int(i64),
    Bool(bool),
    Date(Day),
}

/// A bound value as the contracts see it.
pub enum BindSpec {
    Text(Seq<char>),
    Int(i64),
    Bool(bool),
    Date(Day),
}

impl View for BindValue {
    type V = BindSpec;

    open spec fn view(&self) -> BindSpec {
        match self {
            BindValue::Text(s) => BindSpec::Text(s@),
            BindValue::Int(i) => BindSpec::Int(*i),
            BindValue::Bool(b) => BindSpec::Bool(*b),
            BindValue::Date(d) => BindSpec::Date(*d),
        }
    }
}

pub open spec fn binds_view(b: Seq<BindValue>) -> Seq<BindSpec> {
    b.map_values(|v: BindValue| v@)
}

/// SQL text with the values of its placeholders `$1, $2, ...`, in order.
#[derive(Debug, Clone, PartialEq, Eq)]
pub struct SqlQuery {
    pub sql: String,
    pub binds: Vec<BindValue>,
}

/// The text and values so far.
pub type QueryState = (Seq<char>, Seq<BindSpec>);

/// Binding a value appends its placeholder `$N`, N counting the values bound.
pub open spec fn bind_part(st: QueryState, text: Seq<char>, v: BindSpec) -> QueryState {
    (st.0 + text + "$"@ + decimal_chars((st.1.len() + 1) as nat), st.1.push(v))
}

/// One condition: texts each followed by a bound value, then a closing text.
pub struct Clause {
    pub parts: Vec<(String, BindValue)>,
    pub tail: String,
}

/// A condition as the contracts see it.
pub struct SpecClause {
    pub parts: Seq<(Seq<char>, BindSpec)>,
    pub tail: Seq<char>,
}

impl View for Clause {
    type V = SpecClause;

    open spec fn view(&self) -> SpecClause {
        SpecClause {
            parts: self.parts@.map_values(|p: (String, BindValue)| (p.0@, p.1@)),
            tail: self.tail@,
        }
    }
}

pub open spec fn view_filter(f: Option<Clause>) -> Option<SpecClause> {
    match f {
        Some(c) => Some(c@),
        None => None,
    }
}

pub open spec fn filters_view(fs: Seq<Option<Clause>>) -> Seq<Option<SpecClause>> {
    fs.map_values(|f: Option<Clause>| view_filter(f))
}

/// A condition with one value: `text $N`.
pub open spec fn eq_clause(text: Seq<char>, v: BindSpec) -> SpecClause {
    SpecClause { parts: seq![(text, v)], tail: Seq::empty() }
}

/// `text $N` when the filter is set, nothing otherwise.
pub open spec fn eq_filter(text: Seq<char>, v: Option<BindSpec>) -> Option<SpecClause> {
    match v {
        Some(x) => Some(eq_clause(text, x)),
        None => None,
    }
}

pub open spec fn text_spec(v: Option<String>) -> Option<BindSpec> {
    match v {
        Some(s) => Some(BindSpec::Text(s@)),
        None => None,
    }
}

pub open spec fn int_spec(v: Option<i64>) -> Option<BindSpec> {
    match v {
        Some(i) => Some(BindSpec::Int(i)),
        None => None,
    }
}

pub open spec fn bool_spec(v: Option<bool>) -> Option<BindSpec> {
    match v {
        Some(b) => Some(BindSpec::Bool(b)),
        None => None,
    }
}

pub open spec fn day_spec(v: Option<Day>) -> Option<BindSpec> {
    match v {
        Some(d) => Some(BindSpec::Date(d)),
        None => None,
    }
}

/// The pattern that matches any text containing `kw`.
pub open spec fn contains_pattern(kw: Seq<char>) -> Seq<char> {
    "%"@ + kw + "%"@
}

/// A keyword matches either of two columns, case-insensitively:
/// ` and (a ilike $N or b ilike $M)`.
pub open spec fn keyword_filter(col_a: Seq<char>, col_b: Seq<char>, kw: Option<String>) -> Option<SpecClause> {
    match kw {
        Some(k) => Some(SpecClause {
            parts: seq![
                (" and ("@ + col_a + " ilike "@, BindSpec::Text(contains_pattern(k@))),
                (" or "@ + col_b + " ilike "@, BindSpec::Text(contains_pattern(k@))),
            ],
            tail: ")"@,
        }),
        None => None,
    }
}

pub open spec fn bind_parts(st: QueryState, parts: Seq<(Seq<char>, BindSpec)>) -> QueryState
    decreases parts.len(),
{
    if parts.len() == 0 {
        st
    } else {
        let p = parts.last();
        bind_part(bind_parts(st, parts.drop_last()), p.0, p.1)
    }
}

pub open spec fn add_clause(st: QueryState, c: SpecClause) -> QueryState {
    let s = bind_parts(st, c.parts);
    (s.0 + c.tail, s.1)
}

pub open spec fn add_filters(st: QueryState, fs: Seq<Option<SpecClause>>) -> QueryState
    decreases fs.len(),
{
    if fs.len() == 0 {
        st
    } else {
        let s = add_filters(st, fs.drop_last());
        match fs.last() {
            Some(c) => add_clause(s, c),
            None => s,
        }
    }
}

/// The query: `base`, the conditions of the filters that are set, `suffix`.
pub open spec fn built(base: Seq<char>, fs: Seq<Option<SpecClause>>, suffix: Seq<char>) -> QueryState {
    let s = add_filters((base, Seq::empty()), fs);
    (s.0 + suffix, s.1)
}

fn push_bind(q: &mut SqlQuery, text: &str, v: BindValue)
    requires
        old(q).binds@.len() < usize::MAX,
    ensures
        (final(q).sql@, binds_view(final(q).binds@)) == bind_part((old(q).sql@, binds_view(old(q).binds@)), text@, v@),
        final(q).binds@.len() == old(q).binds@.len() + 1,
{
    q.sql.append(text);
    q.sql.append("$");
    let n = q.binds.len() + 1;
    append_decimal(&mut q.sql, n as u64);
    let ghost b0 = q.binds@;
    q.binds.push(v);
    proof {
        reveal_strlit("$");
        assert(binds_view(q.binds@) =~= binds_view(b0).push(v@));
    }
}

fn add_clause_exec(q: &mut SqlQuery, c: Clause)
    requires
        old(q).binds@.len() + c.parts@.len() < usize::MAX,
    ensures
        (final(q).sql@, binds_view(final(q).binds@)) == add_clause((old(q).sql@, binds_view(old(q).binds@)), c@),
        final(q).binds@.len() == old(q).binds@.len() + c.parts@.len(),
{
    let ghost st = (q.sql@, binds_view(q.binds@));
    let ghost parts = c.parts@;
    let ghost sparts = c@.parts;
    let tail = c.tail;
    let mut rest = c.parts;
    let ghost mut done: int = 0;
    while rest.len() > 0
        invariant
            0 <= done <= parts.len(),
            rest@ == parts.skip(done),
            sparts == parts.map_values(|p: (String, BindValue)| (p.0@, p.1@)),
            (q.sql@, binds_view(q.binds@)) == bind_parts(st, sparts.take(done)),
            q.binds@.len() == st.1.len() + done,
            st.1.len() + parts.len() < usize::MAX,
        decreases rest@.len(),
    {
        let (text, v) = rest.remove(0);
        proof {
            assert(sparts.take(done + 1).drop_last() =~= sparts.take(done));
            assert(sparts.take(done + 1).last() == sparts[done]);
            assert((text, v) == parts[done]);
        }
        push_bind(q, text.as_str(), v);
        proof {
            done = done + 1;
            assert(parts.skip(done) =~= parts.skip(done - 1).drop_first());
        }
    }
    proof {
        assert(sparts.take(done) =~= sparts);
    }
    q.sql.append(tail.as_str());
}

/// A condition with at most four bound values.
pub open spec fn small_filter(f: Option<Clause>) -> bool {
    match f {
        Some(c) => c.parts@.len() <= 4,
        None => true,
    }
}

/// Builds the query from its base, the filters in order, and its suffix.
pub fn build_query(base: &str, filters: Vec<Option<Clause>>, suffix: &str) -> (r: SqlQuery)
    requires
        filters@.len() <= 1000,
        forall|i: int| 0 <= i < filters@.len() ==> small_filter(#[trigger] filters@[i]),
    ensures
        (r.sql@, binds_view(r.binds@)) == built(base@, filters_view(filters@), suffix@),
{
    let ghost fs = filters@;
    let ghost sfs = filters_view(filters@);
    let mut q = SqlQuery { sql: base.to_owned(), binds: Vec::new() };
    let mut rest = filters;
    let ghost mut done: int = 0;
    while rest.len() > 0
        invariant
            0 <= done <= fs.len(),
            rest@ == fs.skip(done),
            sfs == filters_view(fs),
            (q.sql@, binds_view(q.binds@)) == add_filters((base@, Seq::empty()), sfs.take(done)),
            q.binds@.len() <= 4 * done,
            fs.len() <= 1000,
            forall|i: int| 0 <= i < fs.len() ==> small_filter(#[trigger] fs[i]),
        decreases rest@.len(),
    {
        let f = rest.remove(0);
        proof {
            assert(fs.take(done + 1).drop_last() =~= fs.take(done));
            assert(fs.take(done + 1).last() == fs[done]);
            assert(sfs.take(done + 1).drop_last() =~= sfs.take(done));
            assert(sfs.take(done + 1).last() == sfs[done]);
            assert(f == fs[done]);
            assert(small_filter(fs[done]));
        }
        match f {
            Some(c) => {
                add_clause_exec(&mut q, c);
            },
            None => {},
        }
        proof {
            done = done + 1;
            assert(fs.skip(done) =~= fs.skip(done - 1).drop_first());
        }
    }
    proof {
        assert(sfs.take(done) =~= sfs);
    }
    q.sql.append(suffix);
    q
}

fn single(text: &str, v: BindValue) -> (r: Clause)
    ensures
        r@ == eq_clause(text@, v@),
        r.parts@.len() == 1,
{
    let mut parts: Vec<(String, BindValue)> = Vec::new();
    parts.push((text.to_owned(), v));
    let r = Clause { parts, tail: String::new() };
    proof {
        assert(r@.parts =~= seq![(text@, v@)]);
    }
    r
}

/// The condition `text $N` on a text value, when it is set.
pub fn text_filter(text: &str, v: &Option<String>) -> (r: Option<Clause>)
    ensures
        view_filter(r) == eq_filter(text@, text_spec(*v)),
        small_filter(r),
{
    match v {
        Some(s) => Some(single(text, BindValue::Text(s.clone()))),
        None => None,
    }
}

/// The condition `text $N` on an integer, when it is set.
pub fn int_filter(text: &str, v: Option<i64>) -> (r: Option<Clause>)
    ensures
        view_filter(r) == eq_filter(text@, int_spec(v)),
        small_filter(r),
{
    match v {
        Some(i) => Some(single(text, BindValue::Int(i))),
        None => None,
    }
}

/// The condition `text $N` on a flag, when it is set.
pub fn bool_filter(text: &str, v: Option<bool>) -> (r: Option<Clause>)
    ensures
        view_filter(r) == eq_filter(text@, bool_spec(v)),
        small_filter(r),
{
    match v {
        Some(b) => Some(single(text, BindValue::Bool(b))),
        None => None,
    }
}

/// The condition `text $N` on a day, when it is set.
pub fn day_filter(text: &str, v: Option<Day>) -> (r: Option<Clause>)
    ensures
        view_filter(r) == eq_filter(text@, day_spec(v)),
        small_filter(r),
{
    match v {
        Some(d) => Some(single(text, BindValue::Date(d))),
        None => None,
    }
}

fn pattern(kw: &str) -> (r: String)
    ensures
        r@ == contains_pattern(kw@),
{
    let mut r = String::new();
    r.append("%");
    r.append(kw);
    r.append("%");
    proof {
        reveal_strlit("%");
    }
    r
}

/// The keyword condition on two columns, when a keyword is set.
pub fn keyword_clause(col_a: &str, col_b: &str, kw: &Option<String>) -> (r: Option<Clause>)
    ensures
        view_filter(r) == keyword_filter(col_a@, col_b@, *kw),
        small_filter(r),
{
    match kw {
        Some(k) => {
            let mut first = String::new();
            first.append(" and (");
            first.append(col_a);
            first.append(" ilike ");
            let mut second = String::new();
            second.append(" or ");
            second.append(col_b);
            second.append(" ilike ");
            let mut parts: Vec<(String, BindValue)> = Vec::new();
            parts.push((first, BindValue::Text(pattern(k.as_str()))));
            parts.push((second, BindValue::Text(pattern(k.as_str()))));
            let mut tail = String::new();
            tail.append(")");
            let c = Clause { parts, tail };
            proof {
                reveal_strlit(" and (");
                reveal_strlit(" ilike ");
                reveal_strlit(" or ");
                reveal_strlit(")");
                let want = keyword_filter(col_a@, col_b@, *kw)->0;
                assert(c@.parts =~= want.parts);
            }
            Some(c)
        },
        None => None,
    }
}

/// The rows of page `page` of `size` rows, as `(limit, offset)`: pages count
/// from 1, page 0 reads as the first page, and an offset past the largest
/// `i64` is cut to it.
pub fn page_window(page: u32, size: u32) -> (r: (i64, i64))
    ensures
        r.0 == size,
        r.1 == (if page == 0 {
            0
        } else if (page - 1) * size > i64::MAX {
            i64::MAX as int
        } else {
            (page - 1) * size
        }),
{
    let first: u64 = if page == 0 { 0 } else { (page - 1) as u64 };
    assert(first * (size as u64) <= 0xffff_ffff * 0xffff_ffff) by (nonlinear_arith)
        requires
            first <= 0xffff_ffff,
            size <= 0xffff_ffff,
    ;
    let offset: u64 = first * (size as u64);
    let capped: u64 = if offset > 0x7fff_ffff_ffff_ffff { 0x7fff_ffff_ffff_ffff } else { offset };
    (size as i64, capped as i64)
}

} // verus!
