//! The error-code table, read from source text.
//!
//! A code is defined by a line of one of two shapes:
//! `pub const NAME: ErrorCode = ErrorCode::custom(NNNNN);` or
//! `pub const NAME: Self = Self(NNNNN);`. The `///` lines right above it
//! describe it. Codes are grouped by thousands into segments, one per module.

use vstd::prelude::*;
use crate::text::{
    lemma_seq_lt_irreflexive, lemma_seq_lt_total, lemma_seq_lt_transitive, seq_lt, str_lt,
    append_decimal, chars_of, decimal_chars, digit_char, find, find_in, parse_int, parse_int_spec, starts_with, starts_with_str, string_from, trim, trim_bounds,
};

verus! {

/// One entry of the table.
#[derive(Debug, Clone, PartialEq, Eq)]
pub struct ErrorEntry {
    pub code: u32,
    pub name: String,
    /// `NNxxx`: the code's thousands followed by `xxx`.
    pub segment: String,
    pub segment_name: String,
    pub crate_name: String,
    pub description: String,
}

/// The module that owns the codes of segment `seg`.
pub open spec fn segment_name_of(seg: nat) -> Seq<char> {
    if seg == 10 { "通用"@ }
    else if seg == 11 { "身份 identity"@ }
    else if seg == 20 { "库存 inventory"@ }
    else if seg == 21 { "仓库 warehouse"@ }
    else if seg == 22 { "主数据 catalog"@ }
    else if seg == 30 { "入库 inbound"@ }
    else if seg == 31 { "出库 outbound"@ }
    else if seg == 33 { "异常先发 preissue"@ }
    else if seg == 40 { "不良 defect"@ }
    else if seg == 41 { "拆解 recovery"@ }
    else if seg == 42 { "报废 scrap"@ }
    else if seg == 44 { "客退 customer-return"@ }
    else if seg == 45 { "退供 supplier-return"@ }
    else if seg == 46 { "委外 pmc"@ }
    else if seg == 47 { "盘点 stocktake"@ }
    else { "未分类"@ }
}

pub open spec fn segment_of(code: u32) -> Seq<char> {
    decimal_chars((code / 1000) as nat) + "xxx"@
}

/// The segment of a code and the module it belongs to.
pub fn classify(code: u32) -> (r: (String, String))
    ensures
        r.0@ == segment_of(code),
        r.1@ == segment_name_of((code / 1000) as nat),
{
    let seg = code / 1000;
    let mut seg_str = String::new();
    append_decimal(&mut seg_str, seg as u64);
    seg_str.append("xxx");
    let name = if seg == 10 { "通用" }
        else if seg == 11 { "身份 identity" }
        else if seg == 20 { "库存 inventory" }
        else if seg == 21 { "仓库 warehouse" }
        else if seg == 22 { "主数据 catalog" }
        else if seg == 30 { "入库 inbound" }
        else if seg == 31 { "出库 outbound" }
        else if seg == 33 { "异常先发 preissue" }
        else if seg == 40 { "不良 defect" }
        else if seg == 41 { "拆解 recovery" }
        else if seg == 42 { "报废 scrap" }
        else if seg == 44 { "客退 customer-return" }
        else if seg == 45 { "退供 supplier-return" }
        else if seg == 46 { "委外 pmc" }
        else if seg == 47 { "盘点 stocktake" }
        else { "未分类" };
    (seg_str, name.to_owned())
}

/// The lines of `doc` joined by single spaces.
pub open spec fn join_space(doc: Seq<Seq<char>>) -> Seq<char>
    decreases doc.len(),
{
    if doc.len() == 0 {
        Seq::empty()
    } else if doc.len() == 1 {
        doc[0]
    } else {
        join_space(doc.drop_last()) + " "@ + doc.last()
    }
}

pub open spec fn doc_view(doc: Seq<String>) -> Seq<Seq<char>> {
    doc.map_values(|d: String| d@)
}

fn join_doc(doc: &Vec<String>) -> (r: String)
    ensures
        r@ == join_space(doc_view(doc@)),
{
    let mut out = String::new();
    let mut i: usize = 0;
    while i < doc.len()
        invariant
            i <= doc@.len(),
            out@ == join_space(doc_view(doc@.take(i as int))),
        decreases doc@.len() - i,
    {
        proof {
            assert(doc_view(doc@.take(i + 1)).drop_last() =~= doc_view(doc@.take(i as int)));
            assert(doc_view(doc@.take(i + 1)).last() == doc@[i as int]@);
        }
        if i > 0 {
            out.append(" ");
        }
        out.append(doc[i].as_str());
        proof {
            if i == 0 {
                assert(out@ =~= doc_view(doc@.take(1))[0]);
            }
        }
        i += 1;
    }
    assert(doc@.take(doc@.len() as int) =~= doc@);
    out
}

/// `e` is the entry for `code` named `name` in crate `krate`, described by
/// the doc lines joined by spaces and trimmed.
pub open spec fn entry_of(e: ErrorEntry, code: u32, name: Seq<char>, krate: Seq<char>, doc: Seq<String>) -> bool {
    entry_of_lines(e, code, name, krate, doc_view(doc))
}

pub open spec fn entry_of_lines(e: ErrorEntry, code: u32, name: Seq<char>, krate: Seq<char>, doc: Seq<Seq<char>>) -> bool {
    &&& e.code == code
    &&& e.name@ == name
    &&& e.segment@ == segment_of(code)
    &&& e.segment_name@ == segment_name_of((code / 1000) as nat)
    &&& e.crate_name@ == krate
    &&& e.description@ == trim(join_space(doc))
}

/// The entry for a parsed definition.
pub fn make_entry(code: u32, name: String, crate_name: &str, doc: &Vec<String>) -> (e: ErrorEntry)
    ensures
        entry_of(e, code, name@, crate_name@, doc@),
{
    let (segment, segment_name) = classify(code);
    let joined = chars_of(join_doc(doc).as_str());
    let (a, b) = trim_bounds(&joined, 0, joined.len());
    proof {
        assert(joined@.subrange(0, joined@.len() as int) =~= joined@);
    }
    let description = string_from(&joined, a, b);
    ErrorEntry { code, name, segment, segment_name, crate_name: crate_name.to_owned(), description }
}

/// `(code, name)` read from a line `pub const NAME: ErrorCode = ErrorCode::custom(NNNNN);`:
/// after the prefix, the name is what precedes the first `:` (trimmed), the
/// code what lies between the first `::custom(` after it and the next `)`
/// (trimmed, a `u32` as `FromStr` reads it).
pub open spec fn custom_definition(line: Seq<char>) -> Option<(u32, Seq<char>)> {
    if !starts_with(line, "pub const "@) {
        None
    } else {
        let s = line.skip(10);
        match find(s, ":"@) {
            None => None,
            Some(colon) => {
                let rest = s.skip(colon);
                match find(rest, "::custom("@) {
                    None => None,
                    Some(st) => {
                        let tail = rest.skip(st + 9);
                        match find(tail, ")"@) {
                            None => None,
                            Some(end) => match parse_int_spec(trim(tail.take(end)), false, 4294967295, 0) {
                                Ok(c) => Some((c as u32, trim(s.take(colon)))),
                                Err(_) => None,
                            },
                        }
                    },
                }
            },
        }
    }
}

/// `(code, name)` read from a line `pub const NAME: Self = Self(NNNNN);`:
/// after the prefix the rest must hold `: Self`; the name is what precedes
/// the first `:` (trimmed), the code what lies between the first `Self(` and
/// the next `)` (trimmed, a `u32`).
pub open spec fn self_definition(line: Seq<char>) -> Option<(u32, Seq<char>)> {
    if !starts_with(line, "pub const "@) {
        None
    } else {
        let s = line.skip(10);
        if find(s, ": Self"@) is None {
            None
        } else {
            match find(s, ":"@) {
                None => None,
                Some(colon) => match find(s, "Self("@) {
                    None => None,
                    Some(st) => {
                        let tail = s.skip(st + 5);
                        match find(tail, ")"@) {
                            None => None,
                            Some(end) => match parse_int_spec(trim(tail.take(end)), false, 4294967295, 0) {
                                Ok(c) => Some((c as u32, trim(s.take(colon)))),
                                Err(_) => None,
                            },
                        }
                    },
                },
            }
        }
    }
}

proof fn lemma_find_bounds(s: Seq<char>, p: Seq<char>)
    ensures
        find(s, p) matches Some(k) ==> 0 <= k && k + p.len() <= s.len(),
{
    lemma_find_from_bounds_pub(s, p, 0);
}

proof fn lemma_find_from_bounds_pub(s: Seq<char>, p: Seq<char>, i: int)
    ensures
        crate::text::find_from(s, p, i) matches Some(k) ==> i <= k && k + p.len() <= s.len(),
    decreases s.len() + 1 - i,
{
    if !(i < 0 || i + p.len() > s.len()) && !crate::text::matches_at(s, p, i) {
        lemma_find_from_bounds_pub(s, p, i + 1);
    }
}

/// Reads the code between `from` and `to`, trimmed, as a `u32`.
fn read_code(cs: &Vec<char>, from: usize, to: usize) -> (r: Option<u32>)
    requires
        from <= to <= cs@.len(),
    ensures
        match parse_int_spec(trim(cs@.subrange(from as int, to as int)), false, 4294967295, 0) {
            Ok(c) => r == Some(c as u32),
            Err(_) => r is None,
        },
{
    let (a, b) = trim_bounds(cs, from, to);
    let digits = string_from(cs, a, b);
    match parse_int(digits.as_str(), false, 4294967295, 0) {
        Ok(v) => Some(v as u32),
        Err(_) => None,
    }
}

/// Parses a `pub const NAME: ErrorCode = ErrorCode::custom(NNNNN);` line.
pub fn parse_custom(line: &str, crate_name: &str, doc: &Vec<String>) -> (r: Option<ErrorEntry>)
    ensures
        match custom_definition(line@) {
            None => r is None,
            Some((code, name)) => r matches Some(e) && entry_of(e, code, name, crate_name@, doc@),
        },
{
    let cs = chars_of(line);
    let n = cs.len();
    proof {
        reveal_strlit("pub const ");
    }
    if !starts_with_str(&cs, "pub const ") {
        return None;
    }
    proof {
        assert(cs@.subrange(10, n as int) =~= line@.skip(10));
    }
    let ghost s = line@.skip(10);
    let colon = match find_in(&cs, 10, n, ":") {
        Some(c) => c,
        None => return None,
    };
    proof { lemma_find_bounds(s, ":"@); reveal_strlit(":"); }
    let c_abs = 10 + colon;
    proof {
        assert(cs@.subrange(c_abs as int, n as int) =~= s.skip(colon as int));
    }
    let st = match find_in(&cs, c_abs, n, "::custom(") {
        Some(x) => x,
        None => return None,
    };
    proof { lemma_find_bounds(s.skip(colon as int), "::custom("@); reveal_strlit("::custom("); }
    let t_abs = c_abs + st + 9;
    proof {
        assert(cs@.subrange(t_abs as int, n as int) =~= s.skip(colon as int).skip(st + 9));
    }
    let end = match find_in(&cs, t_abs, n, ")") {
        Some(x) => x,
        None => return None,
    };
    proof {
        lemma_find_bounds(s.skip(colon as int).skip(st + 9), ")"@);
        reveal_strlit(")");
        assert(cs@.subrange(t_abs as int, (t_abs + end) as int) =~= s.skip(colon as int).skip(st + 9).take(end as int));
    }
    let code = match read_code(&cs, t_abs, t_abs + end) {
        Some(c) => c,
        None => return None,
    };
    let (a, b) = trim_bounds(&cs, 10, c_abs);
    proof {
        assert(cs@.subrange(10, c_abs as int) =~= s.take(colon as int));
    }
    let name = string_from(&cs, a, b);
    Some(make_entry(code, name, crate_name, doc))
}

/// Parses a `pub const NAME: Self = Self(NNNNN);` line.
pub fn parse_self(line: &str, crate_name: &str, doc: &Vec<String>) -> (r: Option<ErrorEntry>)
    ensures
        match self_definition(line@) {
            None => r is None,
            Some((code, name)) => r matches Some(e) && entry_of(e, code, name, crate_name@, doc@),
        },
{
    let cs = chars_of(line);
    let n = cs.len();
    proof {
        reveal_strlit("pub const ");
    }
    if !starts_with_str(&cs, "pub const ") {
        return None;
    }
    proof {
        assert(cs@.subrange(10, n as int) =~= line@.skip(10));
    }
    let ghost s = line@.skip(10);
    if find_in(&cs, 10, n, ": Self").is_none() {
        return None;
    }
    let colon = match find_in(&cs, 10, n, ":") {
        Some(c) => c,
        None => return None,
    };
    proof { lemma_find_bounds(s, ":"@); reveal_strlit(":"); }
    let st = match find_in(&cs, 10, n, "Self(") {
        Some(x) => x,
        None => return None,
    };
    proof { lemma_find_bounds(s, "Self("@); reveal_strlit("Self("); }
    let t_abs = 10 + st + 5;
    proof {
        assert(cs@.subrange(t_abs as int, n as int) =~= s.skip(st + 5));
    }
    let end = match find_in(&cs, t_abs, n, ")") {
        Some(x) => x,
        None => return None,
    };
    proof {
        lemma_find_bounds(s.skip(st + 5), ")"@);
        reveal_strlit(")");
        assert(cs@.subrange(t_abs as int, (t_abs + end) as int) =~= s.skip(st + 5).take(end as int));
    }
    let code = match read_code(&cs, t_abs, t_abs + end) {
        Some(c) => c,
        None => return None,
    };
    let c_abs = 10 + colon;
    let (a, b) = trim_bounds(&cs, 10, c_abs);
    proof {
        assert(cs@.subrange(10, c_abs as int) =~= s.take(colon as int));
    }
    let name = string_from(&cs, a, b);
    Some(make_entry(code, name, crate_name, doc))
}

// -- scanning a source file --------------------------------------------------

/// The pieces of `t` between line feeds, the last one possibly empty. (A
/// carriage return before a line feed stays in its piece; every piece is
/// trimmed before use, which removes it.)
pub open spec fn split_nl(t: Seq<char>) -> Seq<Seq<char>>
    decreases t.len(),
{
    if t.len() == 0 {
        seq![Seq::<char>::empty()]
    } else {
        let p = split_nl(t.drop_last());
        if t.last() == '\n' {
            p.push(Seq::empty())
        } else {
            p.update(p.len() - 1, p.last().push(t.last()))
        }
    }
}

proof fn lemma_split_nl_nonempty(t: Seq<char>)
    ensures
        split_nl(t).len() >= 1,
    decreases t.len(),
{
    if t.len() > 0 {
        lemma_split_nl_nonempty(t.drop_last());
    }
}

/// Index of the first character from `i` on that is not '/'.
pub open spec fn slash_end(s: Seq<char>, i: int) -> int
    decreases s.len() - i,
{
    if i >= s.len() || s[i] != '/' { i } else { slash_end(s, i + 1) }
}

/// A definition found while scanning: code, name and the lines that
/// describe it.
pub type Definition = (u32, Seq<char>, Seq<Seq<char>>);

/// The lines that describe a definition on `line`: the doc lines above it,
/// or, when there are none, the comment that ends the line (the text after
/// its first `//` and the slashes that follow, trimmed), if it has one.
pub open spec fn description_lines(pending: Seq<Seq<char>>, line: Seq<char>) -> Seq<Seq<char>> {
    if pending.len() == 0 && find(line, "//"@) is Some {
        let k = find(line, "//"@)->0;
        seq![trim(line.skip(slash_end(line, k)))]
    } else {
        pending
    }
}

/// Reading one line, with the doc lines collected so far and the
/// definitions found so far:
/// - a `///` line adds its text, without the slashes and trimmed, to the doc lines;
/// - an empty line or a `//` comment drops the doc lines;
/// - a definition of either shape is found with its description lines (the
///   doc lines, else its own trailing comment), and the doc lines are dropped;
/// - an attribute line (`#...`) keeps them, any other line drops them.
pub open spec fn scan_step(st: (Seq<Seq<char>>, Seq<Definition>), raw: Seq<char>) -> (Seq<Seq<char>>, Seq<Definition>) {
    let pending = st.0;
    let out = st.1;
    let line = trim(raw);
    if starts_with(line, "///"@) {
        (pending.push(trim(line.skip(slash_end(line, 0)))), out)
    } else if line.len() == 0 || starts_with(line, "//"@) {
        (Seq::empty(), out)
    } else if custom_definition(line) is Some {
        let d = custom_definition(line)->0;
        (Seq::empty(), out.push((d.0, d.1, description_lines(pending, line))))
    } else if self_definition(line) is Some {
        let d = self_definition(line)->0;
        (Seq::empty(), out.push((d.0, d.1, description_lines(pending, line))))
    } else if starts_with(line, "#"@) {
        (pending, out)
    } else {
        (Seq::empty(), out)
    }
}

pub open spec fn scan_lines(lines: Seq<Seq<char>>) -> (Seq<Seq<char>>, Seq<Definition>)
    decreases lines.len(),
{
    if lines.len() == 0 {
        (Seq::empty(), Seq::empty())
    } else {
        scan_step(scan_lines(lines.drop_last()), lines.last())
    }
}

/// The definitions in a source text, in order.
pub open spec fn definitions(text: Seq<char>) -> Seq<Definition> {
    scan_lines(split_nl(text)).1
}

fn sub_vec(s: &Vec<char>, from: usize, to: usize) -> (r: Vec<char>)
    requires
        from <= to <= s@.len(),
    ensures
        r@ == s@.subrange(from as int, to as int),
{
    let mut v: Vec<char> = Vec::new();
    let mut i = from;
    while i < to
        invariant
            from <= i <= to <= s@.len(),
            v@ == s@.subrange(from as int, i as int),
        decreases to - i,
    {
        v.push(s[i]);
        assert(s@.subrange(from as int, i + 1) =~= s@.subrange(from as int, i as int).push(s@[i as int]));
        i += 1;
    }
    v
}

pub open spec fn entries_match(out: Seq<ErrorEntry>, defs: Seq<Definition>, krate: Seq<char>) -> bool {
    &&& out.len() == defs.len()
    &&& forall|i: int| 0 <= i < out.len() ==> #[trigger] entry_of_lines(out[i], defs[i].0, defs[i].1, krate, defs[i].2)
}

/// The description lines of a definition on `line`, per `description_lines`.
fn describing_lines(line: &Vec<char>, pending: &Vec<String>) -> (r: Vec<String>)
    ensures
        doc_view(r@) == description_lines(doc_view(pending@), line@),
{
    if pending.len() > 0 {
        return pending.clone();
    }
    let n = line.len();
    proof {
        assert(line@.subrange(0, n as int) =~= line@);
        reveal_strlit("//");
    }
    match find_in(line, 0, n, "//") {
        None => Vec::new(),
        Some(k) => {
            proof { lemma_find_bounds(line@, "//"@); }
            let mut j = k;
            while j < n && line[j] == '/'
                invariant
                    k <= j <= n,
                    n == line@.len(),
                    slash_end(line@, j as int) == slash_end(line@, k as int),
                decreases n - j,
            {
                j += 1;
            }
            let (a, b) = trim_bounds(line, j, n);
            proof {
                assert(line@.subrange(j as int, n as int) =~= line@.skip(j as int));
            }
            let mut r: Vec<String> = Vec::new();
            r.push(string_from(line, a, b));
            proof {
                assert(doc_view(r@) =~= description_lines(doc_view(pending@), line@));
            }
            r
        },
    }
}

/// Reads one line into the scanning state.
fn scan_line(
    cs: &Vec<char>,
    start: usize,
    end: usize,
    crate_name: &str,
    pending: &mut Vec<String>,
    out: &mut Vec<ErrorEntry>,
)
    requires
        start <= end <= cs@.len(),
    ensures
        ({
            let st = scan_step((doc_view(old(pending)@), Seq::empty()), cs@.subrange(start as int, end as int));
            &&& doc_view(final(pending)@) == st.0
            &&& final(out)@.len() == old(out)@.len() + st.1.len()
            &&& forall|i: int| 0 <= i < old(out)@.len() ==> #[trigger] final(out)@[i] == old(out)@[i]
            &&& forall|i: int| 0 <= i < st.1.len() ==> #[trigger] entry_of_lines(final(out)@[old(out)@.len() + i], st.1[i].0, st.1[i].1, crate_name@, st.1[i].2)
        }),
{
    let (a, b) = trim_bounds(cs, start, end);
    let line = sub_vec(cs, a, b);
    let ghost prev_out = out@;
    proof {
        reveal_strlit("///");
        reveal_strlit("//");
        reveal_strlit("#");
    }
    if starts_with_str(&line, "///") {
        let mut k: usize = 0;
        while k < line.len() && line[k] == '/'
            invariant
                k <= line@.len(),
                slash_end(line@, k as int) == slash_end(line@, 0),
            decreases line@.len() - k,
        {
            k += 1;
        }
        let (c, d) = trim_bounds(&line, k, line.len());
        proof {
            assert(line@.subrange(k as int, line@.len() as int) =~= line@.skip(k as int));
        }
        let text = string_from(&line, c, d);
        let ghost pv = doc_view(pending@);
        pending.push(text);
        proof {
            assert(doc_view(pending@) =~= pv.push(text@));
        }
        return;
    }
    if line.len() == 0 || starts_with_str(&line, "//") {
        pending.clear();
        proof { assert(doc_view(pending@) =~= Seq::<Seq<char>>::empty()); }
        return;
    }
    let text = string_from(&line, 0, line.len());
    proof { assert(line@.subrange(0, line@.len() as int) =~= line@); }
    let described = describing_lines(&line, pending);
    if let Some(e) = parse_custom(text.as_str(), crate_name, &described) {
        out.push(e);
        pending.clear();
        proof { assert(doc_view(pending@) =~= Seq::<Seq<char>>::empty()); }
        return;
    }
    if let Some(e) = parse_self(text.as_str(), crate_name, &described) {
        out.push(e);
        pending.clear();
        proof { assert(doc_view(pending@) =~= Seq::<Seq<char>>::empty()); }
        return;
    }
    if !starts_with_str(&line, "#") {
        pending.clear();
        proof { assert(doc_view(pending@) =~= Seq::<Seq<char>>::empty()); }
    }
}

proof fn lemma_scan_step_out(p: Seq<Seq<char>>, o: Seq<Definition>, raw: Seq<char>)
    ensures
        scan_step((p, o), raw).0 == scan_step((p, Seq::empty()), raw).0,
        scan_step((p, o), raw).1 == o + scan_step((p, Seq::empty()), raw).1,
{
    let e = Seq::<Definition>::empty();
    let q = description_lines(p, trim(raw));
    if custom_definition(trim(raw)) is Some {
        let d = custom_definition(trim(raw))->0;
        assert(o.push((d.0, d.1, q)) =~= o + e.push((d.0, d.1, q)));
    } else if self_definition(trim(raw)) is Some {
        let d = self_definition(trim(raw))->0;
        assert(o.push((d.0, d.1, q)) =~= o + e.push((d.0, d.1, q)));
    }
    assert(o =~= o + e);
}

/// Scans a source text for error-code definitions: what `definitions` finds,
/// as table entries of crate `crate_name`.
pub fn scan_text(text: &str, crate_name: &str) -> (r: Vec<ErrorEntry>)
    ensures
        entries_match(r@, definitions(text@), crate_name@),
{
    let cs = chars_of(text);
    let n = cs.len();
    let mut pending: Vec<String> = Vec::new();
    let mut out: Vec<ErrorEntry> = Vec::new();
    let mut start: usize = 0;
    let mut i: usize = 0;
    let ghost mut done: Seq<Seq<char>> = Seq::empty();
    proof {
        assert(cs@.take(0) =~= Seq::<char>::empty());
        assert(split_nl(cs@.take(0)) =~= done.push(cs@.subrange(0, 0)));
        assert(doc_view(pending@) =~= Seq::<Seq<char>>::empty());
    }
    while i < n
        invariant
            n == cs@.len(),
            cs@ == text@,
            start <= i <= n,
            split_nl(cs@.take(i as int)) == done.push(cs@.subrange(start as int, i as int)),
            doc_view(pending@) == scan_lines(done).0,
            entries_match(out@, scan_lines(done).1, crate_name@),
        decreases n - i,
    {
        let c = cs[i];
        proof {
            assert(cs@.take(i + 1).drop_last() =~= cs@.take(i as int));
            assert(cs@.take(i + 1).last() == c);
        }
        if c == '\n' {
            let ghost old_out = out@;
            let ghost st0 = scan_lines(done);
            scan_line(&cs, start, i, crate_name, &mut pending, &mut out);
            proof {
                let piece = cs@.subrange(start as int, i as int);
                lemma_scan_step_out(st0.0, st0.1, piece);
                let nd = done.push(piece);
                assert(nd.drop_last() =~= done);
                assert(scan_lines(nd) == scan_step(st0, piece));
                let st1 = scan_step((st0.0, Seq::empty()), piece);
                assert forall|k: int| 0 <= k < out@.len() implies #[trigger] entry_of_lines(out@[k], scan_lines(nd).1[k].0, scan_lines(nd).1[k].1, crate_name@, scan_lines(nd).1[k].2) by {
                    if k < old_out.len() {
                        assert(out@[k] == old_out[k]);
                        assert(scan_lines(nd).1[k] == st0.1[k]);
                        assert(entry_of_lines(old_out[k], st0.1[k].0, st0.1[k].1, crate_name@, st0.1[k].2));
                    } else {
                        let j = k - old_out.len();
                        assert(scan_lines(nd).1[k] == st1.1[j]);
                        assert(entry_of_lines(out@[old_out.len() + j], st1.1[j].0, st1.1[j].1, crate_name@, st1.1[j].2));
                    }
                }
                done = nd;
                assert(cs@.subrange((i + 1) as int, (i + 1) as int) =~= Seq::<char>::empty());
            }
            start = i + 1;
        } else {
            proof {
                let p = split_nl(cs@.take(i as int));
                assert(cs@.subrange(start as int, i + 1) =~= cs@.subrange(start as int, i as int).push(c));
                assert(p.update(p.len() - 1, p.last().push(c)) =~= done.push(cs@.subrange(start as int, i + 1)));
            }
        }
        i += 1;
    }
    let ghost old_out = out@;
    let ghost st0 = scan_lines(done);
    scan_line(&cs, start, n, crate_name, &mut pending, &mut out);
    proof {
        assert(cs@.take(n as int) =~= cs@);
        let piece = cs@.subrange(start as int, n as int);
        lemma_scan_step_out(st0.0, st0.1, piece);
        let nd = done.push(piece);
        assert(nd.drop_last() =~= done);
        assert(split_nl(text@) == nd);
        assert(scan_lines(nd) == scan_step(st0, piece));
        let st1 = scan_step((st0.0, Seq::empty()), piece);
        assert forall|k: int| 0 <= k < out@.len() implies #[trigger] entry_of_lines(out@[k], scan_lines(nd).1[k].0, scan_lines(nd).1[k].1, crate_name@, scan_lines(nd).1[k].2) by {
            if k < old_out.len() {
                assert(out@[k] == old_out[k]);
                assert(scan_lines(nd).1[k] == st0.1[k]);
                assert(entry_of_lines(old_out[k], st0.1[k].0, st0.1[k].1, crate_name@, st0.1[k].2));
            } else {
                let j = k - old_out.len();
                assert(scan_lines(nd).1[k] == st1.1[j]);
                assert(entry_of_lines(out@[old_out.len() + j], st1.1[j].0, st1.1[j].1, crate_name@, st1.1[j].2));
            }
        }
    }
    out
}

// -- ordering and grouping the table -----------------------------------------

/// The first position of `s` whose code is above `code`.
pub open spec fn first_above(s: Seq<ErrorEntry>, code: u32) -> int
    decreases s.len(),
{
    if s.len() == 0 {
        0
    } else if s[0].code > code {
        0
    } else {
        1 + first_above(s.drop_first(), code)
    }
}

/// `e` placed after every entry whose code is not above its own.
pub open spec fn insert_by_code(s: Seq<ErrorEntry>, e: ErrorEntry) -> Seq<ErrorEntry> {
    let p = first_above(s, e.code);
    s.take(p).push(e) + s.skip(p)
}

/// The entries ordered by code, entries with equal codes kept in their
/// order (`sort_by_key`, which is stable).
pub open spec fn sort_by_code(s: Seq<ErrorEntry>) -> Seq<ErrorEntry>
    decreases s.len(),
{
    if s.len() == 0 {
        s
    } else {
        insert_by_code(sort_by_code(s.drop_last()), s.last())
    }
}

pub open spec fn sorted_by_code(s: Seq<ErrorEntry>) -> bool {
    forall|i: int, j: int| 0 <= i <= j < s.len() ==> s[i].code <= s[j].code
}

proof fn lemma_first_above(s: Seq<ErrorEntry>, code: u32)
    requires
        sorted_by_code(s),
    ensures
        0 <= first_above(s, code) <= s.len(),
        forall|i: int| 0 <= i < first_above(s, code) ==> s[i].code <= code,
        forall|i: int| first_above(s, code) <= i < s.len() ==> s[i].code > code,
    decreases s.len(),
{
    if s.len() > 0 && s[0].code <= code {
        let t = s.drop_first();
        assert(sorted_by_code(t)) by {
            assert forall|i: int, j: int| 0 <= i <= j < t.len() implies t[i].code <= t[j].code by {
                assert(t[i] == s[i + 1] && t[j] == s[j + 1]);
            }
        }
        lemma_first_above(t, code);
        assert forall|i: int| 0 <= i < first_above(s, code) implies s[i].code <= code by {
            if i > 0 {
                assert(s[i] == t[i - 1]);
            }
        }
        assert forall|i: int| first_above(s, code) <= i < s.len() implies s[i].code > code by {
            assert(s[i] == t[i - 1]);
        }
    }
}

proof fn lemma_insert_sorted(s: Seq<ErrorEntry>, e: ErrorEntry)
    requires
        sorted_by_code(s),
    ensures
        sorted_by_code(insert_by_code(s, e)),
        insert_by_code(s, e).to_multiset() == s.to_multiset().insert(e),
        insert_by_code(s, e).len() == s.len() + 1,
{
    lemma_first_above(s, e.code);
    let p = first_above(s, e.code);
    let r = insert_by_code(s, e);
    assert forall|i: int| 0 <= i < r.len() implies #[trigger] r[i] == (if i < p { s[i] } else if i == p { e } else { s[i - 1] }) by {
    }
    assert forall|i: int, j: int| 0 <= i <= j < r.len() implies r[i].code <= r[j].code by {
        assert(r[i] == (if i < p { s[i] } else if i == p { e } else { s[i - 1] }));
        assert(r[j] == (if j < p { s[j] } else if j == p { e } else { s[j - 1] }));
    }
    vstd::seq_lib::lemma_multiset_commutative(s.take(p).push(e), s.skip(p));
    vstd::seq_lib::lemma_multiset_commutative(s.take(p), s.skip(p));
    assert(s.take(p) + s.skip(p) =~= s);
    assert(s.take(p).push(e).to_multiset() == s.take(p).to_multiset().insert(e)) by {
        s.take(p).to_multiset_ensures();
    }
}

/// Sorting keeps every entry and orders them by code.
pub proof fn law_sort_by_code(s: Seq<ErrorEntry>)
    ensures
        sorted_by_code(sort_by_code(s)),
        sort_by_code(s).to_multiset() == s.to_multiset(),
    decreases s.len(),
{
    if s.len() == 0 {
    } else {
        law_sort_by_code(s.drop_last());
        lemma_insert_sorted(sort_by_code(s.drop_last()), s.last());
        assert(s.drop_last().push(s.last()) =~= s);
        s.drop_last().to_multiset_ensures();
    }
}

/// Orders the entries by code, keeping the order of entries with equal codes.
pub fn sort_entries(entries: Vec<ErrorEntry>) -> (r: Vec<ErrorEntry>)
    ensures
        r@ == sort_by_code(entries@),
{
    let ghost input = entries@;
    let mut rest = entries;
    let mut out: Vec<ErrorEntry> = Vec::new();
    let ghost mut taken: int = 0;
    while rest.len() > 0
        invariant
            0 <= taken <= input.len(),
            rest@ == input.skip(taken),
            out@ == sort_by_code(input.take(taken)),
            sorted_by_code(out@),
        decreases rest@.len(),
    {
        let e = rest.remove(0);
        proof {
            assert(e == input[taken]);
            assert(input.take(taken + 1).drop_last() =~= input.take(taken));
            assert(input.take(taken + 1).last() == e);
            lemma_first_above(out@, e.code);
        }
        let mut p: usize = 0;
        while p < out.len() && out[p].code <= e.code
            invariant
                p <= out@.len(),
                sorted_by_code(out@),
                forall|i: int| 0 <= i < p ==> out@[i].code <= e.code,
            decreases out@.len() - p,
        {
            p += 1;
        }
        proof {
            lemma_first_above(out@, e.code);
            let fa = first_above(out@, e.code);
            if p < fa {
                assert(out@[p as int].code <= e.code);
            }
            if p > fa {
                assert(out@[fa].code <= e.code);
            }
            assert(p == fa);
            lemma_insert_sorted(out@, e);
        }
        out.insert(p, e);
        proof {
            assert(out@ =~= insert_by_code(sort_by_code(input.take(taken)), e));
            taken = taken + 1;
            assert(input.skip(taken) =~= input.skip(taken - 1).drop_first());
        }
    }
    proof {
        assert(input.take(taken) =~= input);
    }
    out
}

/// The entries of one segment.
#[derive(Debug, Clone, PartialEq, Eq)]
pub struct SegmentGroup {
    pub segment: String,
    pub entries: Vec<ErrorEntry>,
}

pub open spec fn in_segment(k: Seq<char>) -> spec_fn(ErrorEntry) -> bool {
    |e: ErrorEntry| e.segment@ == k
}

/// `gs` groups `s` by segment as a map ordered by segment text: one group
/// per segment that occurs, in ascending order of segment, each holding the
/// entries of that segment in their order in `s`.
pub open spec fn segment_groups(s: Seq<ErrorEntry>, gs: Seq<SegmentGroup>) -> bool {
    &&& forall|i: int, j: int| 0 <= i < j < gs.len() ==> seq_lt(gs[i].segment@, gs[j].segment@)
    &&& forall|g: int| 0 <= g < gs.len() ==> #[trigger] gs[g].entries@ == s.filter(in_segment(gs[g].segment@))
    &&& forall|g: int| 0 <= g < gs.len() ==> #[trigger] gs[g].entries@.len() > 0
    &&& forall|i: int| 0 <= i < s.len() ==> exists|g: int| 0 <= g < gs.len() && #[trigger] gs[g].segment@ == (#[trigger] s[i]).segment@
}

proof fn lemma_filter_step(s: Seq<ErrorEntry>, i: int, k: Seq<char>)
    requires
        0 <= i < s.len(),
    ensures
        s.take(i + 1).filter(in_segment(k)) == (if s[i].segment@ == k {
            s.take(i).filter(in_segment(k)).push(s[i])
        } else {
            s.take(i).filter(in_segment(k))
        }),
{
    reveal(Seq::filter);
    assert(s.take(i + 1).drop_last() =~= s.take(i));
    assert(s.take(i + 1).last() == s[i]);
}

/// Groups the entries by segment, segments in ascending order (the order of
/// a `BTreeMap` keyed by segment), entries in their given order.
pub fn group_by_segment(entries: Vec<ErrorEntry>) -> (r: Vec<SegmentGroup>)
    ensures
        segment_groups(entries@, r@),
{
    let ghost input = entries@;
    let mut rest = entries;
    let mut groups: Vec<SegmentGroup> = Vec::new();
    let ghost mut taken: int = 0;
    proof {
        reveal(Seq::filter);
    }
    while rest.len() > 0
        invariant
            0 <= taken <= input.len(),
            rest@ == input.skip(taken),
            segment_groups(input.take(taken), groups@),
        decreases rest@.len(),
    {
        let e = rest.remove(0);
        let ghost prev = groups@;
        let ghost t = input.take(taken);
        proof {
            assert(e == input[taken]);
            assert(input.take(taken + 1) =~= t.push(e));
            assert forall|k: Seq<char>| #[trigger] input.take(taken + 1).filter(in_segment(k)) == (if e.segment@ == k {
                t.filter(in_segment(k)).push(e)
            } else {
                t.filter(in_segment(k))
            }) by {
                lemma_filter_step(input, taken, k);
            }
        }
        let ng = groups.len();
        let mut g: usize = 0;
        let mut found = false;
        while g < ng && !found
            invariant
                groups@ == prev,
                ng == groups@.len(),
                g <= ng,
                found ==> g < ng && groups@[g as int].segment@ == e.segment@,
                !found ==> forall|h: int| 0 <= h < g ==> groups@[h].segment@ != e.segment@,
            decreases ng - g + (if found { 0int } else { 1int }),
        {
            if groups[g].segment == e.segment {
                found = true;
            } else {
                g += 1;
            }
        }
        if found {
            let mut grp = SegmentGroup { segment: String::new(), entries: Vec::new() };
            std::mem::swap(&mut grp, &mut groups[g]);
            grp.entries.push(e);
            std::mem::swap(&mut grp, &mut groups[g]);
            proof {
                let nt = input.take(taken + 1);
                assert forall|h: int| 0 <= h < groups@.len() implies #[trigger] groups@[h].entries@ == nt.filter(in_segment(groups@[h].segment@)) by {
                    assert(nt.filter(in_segment(groups@[h].segment@)) == (if e.segment@ == groups@[h].segment@ {
                        t.filter(in_segment(groups@[h].segment@)).push(e)
                    } else {
                        t.filter(in_segment(groups@[h].segment@))
                    }));
                    if h != g {
                        assert(groups@[h] == prev[h]);
                        if e.segment@ == groups@[h].segment@ {
                            assert(prev[h].segment@ == prev[g as int].segment@);
                            lemma_seq_lt_irreflexive(prev[h].segment@);
                            if h < g { assert(seq_lt(prev[h].segment@, prev[g as int].segment@)); }
                            else { assert(seq_lt(prev[g as int].segment@, prev[h].segment@)); }
                        }
                    }
                }
                assert forall|i: int, j: int| 0 <= i < j < groups@.len() implies seq_lt(groups@[i].segment@, groups@[j].segment@) by {
                    assert(groups@[i].segment@ == prev[i].segment@);
                    assert(groups@[j].segment@ == prev[j].segment@);
                }
                assert forall|i: int| 0 <= i < nt.len() implies exists|h: int| 0 <= h < groups@.len() && #[trigger] groups@[h].segment@ == (#[trigger] nt[i]).segment@ by {
                    if i < taken {
                        assert(nt[i] == t[i]);
                        let h = choose|h: int| 0 <= h < prev.len() && #[trigger] prev[h].segment@ == (#[trigger] t[i]).segment@;
                        assert(groups@[h].segment@ == prev[h].segment@);
                    } else {
                        assert(nt[i] == e);
                        assert(groups@[g as int].segment@ == e.segment@);
                    }
                }
                assert forall|h: int| 0 <= h < groups@.len() implies #[trigger] groups@[h].entries@.len() > 0 by {
                    if h != g { assert(groups@[h] == prev[h]); }
                }
                assert(segment_groups(nt, groups@));
            }
        } else {
            // the new segment goes before the first greater one
            let mut p: usize = 0;
            while p < ng && !str_lt(e.segment.as_str(), groups[p].segment.as_str())
                invariant
                    groups@ == prev,
                    ng == groups@.len(),
                    p <= ng,
                    forall|h: int| 0 <= h < p ==> !seq_lt(e.segment@, #[trigger] groups@[h].segment@),
                decreases ng - p,
            {
                p += 1;
            }
            proof {
                reveal(Seq::filter);
                assert forall|h: int| 0 <= h < prev.len() implies #[trigger] seq_lt(prev[h].segment@, e.segment@) || h >= p by {
                    if h < p {
                        lemma_seq_lt_total(prev[h].segment@, e.segment@);
                    }
                }
                // no earlier entry has this segment
                assert(t.all(|x: ErrorEntry| !in_segment(e.segment@)(x))) by {
                    assert forall|i: int| 0 <= i < t.len() implies !in_segment(e.segment@)(#[trigger] t[i]) by {
                        let h = choose|h: int| 0 <= h < prev.len() && #[trigger] prev[h].segment@ == (#[trigger] t[i]).segment@;
                    }
                }
                t.lemma_all_neg_filter_empty(in_segment(e.segment@));
            }
            let mut v: Vec<ErrorEntry> = Vec::new();
            let seg = e.segment.clone();
            v.push(e);
            groups.insert(p, SegmentGroup { segment: seg, entries: v });
            proof {
                let nt = input.take(taken + 1);
                assert(t.filter(in_segment(e.segment@)) =~= Seq::<ErrorEntry>::empty());
                assert forall|h: int| 0 <= h < groups@.len() implies #[trigger] groups@[h] == (if h < p { prev[h] } else if h == p { SegmentGroup { segment: seg, entries: v } } else { prev[h - 1] }) by {}
                assert forall|h: int| 0 <= h < groups@.len() implies #[trigger] groups@[h].entries@ == nt.filter(in_segment(groups@[h].segment@)) by {
                    assert(nt.filter(in_segment(groups@[h].segment@)) == (if e.segment@ == groups@[h].segment@ {
                        t.filter(in_segment(groups@[h].segment@)).push(e)
                    } else {
                        t.filter(in_segment(groups@[h].segment@))
                    }));
                    if h == p {
                        assert(groups@[h].entries@ =~= seq![e]);
                        assert(t.filter(in_segment(e.segment@)).push(e) =~= seq![e]);
                    } else {
                        let q = if h < p { h } else { h - 1 };
                        assert(groups@[h] == prev[q]);
                        assert(prev[q].segment@ != e.segment@);
                    }
                }
                assert forall|i: int, j: int| 0 <= i < j < groups@.len() implies seq_lt(groups@[i].segment@, groups@[j].segment@) by {
                    let gi = groups@[i].segment@;
                    let gj = groups@[j].segment@;
                    if i < p && j < p {
                    } else if i < p && j == p {
                        assert(seq_lt(prev[i].segment@, e.segment@) || i >= p);
                    } else if i < p && j > p {
                        assert(seq_lt(prev[i].segment@, prev[j - 1].segment@));
                    } else if i == p {
                        // e comes before groups@[p + 1..]
                        assert(p < ng);
                        assert(seq_lt(e.segment@, prev[p as int].segment@));
                        if j - 1 > p {
                            assert(seq_lt(prev[p as int].segment@, prev[j - 1].segment@));
                            lemma_seq_lt_transitive(e.segment@, prev[p as int].segment@, prev[j - 1].segment@);
                        }
                    } else {
                        assert(seq_lt(prev[i - 1].segment@, prev[j - 1].segment@));
                    }
                }
                assert forall|i: int| 0 <= i < nt.len() implies exists|h: int| 0 <= h < groups@.len() && #[trigger] groups@[h].segment@ == (#[trigger] nt[i]).segment@ by {
                    if i < taken {
                        assert(nt[i] == t[i]);
                        let h = choose|h: int| 0 <= h < prev.len() && #[trigger] prev[h].segment@ == (#[trigger] t[i]).segment@;
                        if h < p {
                            assert(groups@[h].segment@ == prev[h].segment@);
                        } else {
                            assert(groups@[h + 1].segment@ == prev[h].segment@);
                        }
                    } else {
                        assert(nt[i] == e);
                        assert(groups@[p as int].segment@ == e.segment@);
                    }
                }
                assert forall|h: int| 0 <= h < groups@.len() implies #[trigger] groups@[h].entries@.len() > 0 by {
                    if h < p { assert(groups@[h] == prev[h]); }
                    else if h > p { assert(groups@[h] == prev[h - 1]); }
                }
                assert(segment_groups(nt, groups@));
            }
        }
        proof {
            taken = taken + 1;
            assert(input.skip(taken) =~= input.skip(taken - 1).drop_first());
        }
    }
    proof {
        assert(input.take(taken) =~= input);
    }
    groups
}

// -- the Markdown table ------------------------------------------------------

pub open spec fn md_header(n: nat) -> Seq<char> {
    "# 错误码表\n\n"@ + "> 自动生成自源码,共 "@ + decimal_chars(n) + " 条。手动修改无效。\n\n"@ + "## 约定\n\n"@
        + "- 业务错误 → HTTP 200 + `code != 0`\n"@ + "- 系统错误 → HTTP 4xx/5xx + `code`\n"@
        + "- 前端应按 `code` 做统一拦截,而非 HTTP 状态\n\n"@ + "## 段位划分\n\n"@ + "| 段位 | 模块 |\n|---|---|\n"@
}

pub open spec fn md_index_row(g: SegmentGroup) -> Seq<char> {
    if g.entries@.len() > 0 {
        "| `"@ + g.segment@ + "` | "@ + g.entries@[0].segment_name@ + " |\n"@
    } else {
        Seq::empty()
    }
}

pub open spec fn md_index(gs: Seq<SegmentGroup>) -> Seq<char>
    decreases gs.len(),
{
    if gs.len() == 0 { Seq::empty() } else { md_index(gs.drop_last()) + md_index_row(gs.last()) }
}

pub open spec fn md_row(c: ErrorEntry) -> Seq<char> {
    "| `"@ + decimal_chars(c.code as nat) + "` | `"@ + c.name@ + "` | `"@ + c.crate_name@ + "` | "@ + (if c.description@.len()
        == 0 { "—"@ } else { c.description@ }) + " |\n"@
}

pub open spec fn md_rows(es: Seq<ErrorEntry>) -> Seq<char>
    decreases es.len(),
{
    if es.len() == 0 { Seq::empty() } else { md_rows(es.drop_last()) + md_row(es.last()) }
}

pub open spec fn md_section(g: SegmentGroup) -> Seq<char> {
    if g.entries@.len() > 0 {
        "\n## "@ + g.segment@ + " — "@ + g.entries@[0].segment_name@ + "\n\n"@ + "| 码 | 常量名 | 来源 | 含义 |\n|---|---|---|---|\n"@
            + md_rows(g.entries@)
    } else {
        Seq::empty()
    }
}

pub open spec fn md_sections(gs: Seq<SegmentGroup>) -> Seq<char>
    decreases gs.len(),
{
    if gs.len() == 0 { Seq::empty() } else { md_sections(gs.drop_last()) + md_section(gs.last()) }
}

/// The Markdown error-code table: a header with the number of codes, an
/// index of the segments, then one table per segment.
pub open spec fn markdown(total: nat, gs: Seq<SegmentGroup>) -> Seq<char> {
    md_header(total) + md_index(gs) + "\n"@ + md_sections(gs)
}

fn append_row(md: &mut String, c: &ErrorEntry)
    ensures
        final(md)@ == old(md)@ + md_row(*c),
{
    md.append("| `");
    append_decimal(md, c.code as u64);
    md.append("` | `");
    md.append(c.name.as_str());
    md.append("` | `");
    md.append(c.crate_name.as_str());
    md.append("` | ");
    if c.description.as_str().is_empty() {
        md.append("—");
    } else {
        md.append(c.description.as_str());
    }
    md.append(" |\n");
    proof {
        assert(final(md)@ =~= old(md)@ + md_row(*c));
    }
}

/// Renders the Markdown table of `total` codes grouped as `groups`.
pub fn render_markdown(total: usize, groups: &Vec<SegmentGroup>) -> (r: String)
    ensures
        r@ == markdown(total as nat, groups@),
{
    let mut md = String::new();
    md.append("# 错误码表\n\n");
    md.append("> 自动生成自源码,共 ");
    append_decimal(&mut md, total as u64);
    md.append(" 条。手动修改无效。\n\n");
    md.append("## 约定\n\n");
    md.append("- 业务错误 → HTTP 200 + `code != 0`\n");
    md.append("- 系统错误 → HTTP 4xx/5xx + `code`\n");
    md.append("- 前端应按 `code` 做统一拦截,而非 HTTP 状态\n\n");
    md.append("## 段位划分\n\n");
    md.append("| 段位 | 模块 |\n|---|---|\n");
    proof {
        assert(md@ =~= md_header(total as nat));
    }
    let ghost head = md@;
    let n = groups.len();
    let mut i: usize = 0;
    while i < n
        invariant
            n == groups@.len(),
            i <= n,
            md@ == head + md_index(groups@.take(i as int)),
        decreases n - i,
    {
        let g = &groups[i];
        let ghost before = md@;
        if g.entries.len() > 0 {
            md.append("| `");
            md.append(g.segment.as_str());
            md.append("` | ");
            md.append(g.entries[0].segment_name.as_str());
            md.append(" |\n");
        }
        proof {
            assert(groups@.take(i + 1).drop_last() =~= groups@.take(i as int));
            assert(md@ =~= before + md_index_row(groups@[i as int]));
        }
        i += 1;
    }
    proof { assert(groups@.take(n as int) =~= groups@); }
    md.append("\n");
    let ghost mid = md@;
    proof { assert(groups@.take(0) =~= Seq::<SegmentGroup>::empty()); }
    let mut i: usize = 0;
    while i < n
        invariant
            n == groups@.len(),
            i <= n,
            md@ == mid + md_sections(groups@.take(i as int)),
        decreases n - i,
    {
        let g = &groups[i];
        let ghost before = md@;
        if g.entries.len() > 0 {
            md.append("\n## ");
            md.append(g.segment.as_str());
            md.append(" — ");
            md.append(g.entries[0].segment_name.as_str());
            md.append("\n\n");
            md.append("| 码 | 常量名 | 来源 | 含义 |\n|---|---|---|---|\n");
            let ghost rows_start = md@;
            let m = g.entries.len();
            let mut j: usize = 0;
            while j < m
                invariant
                    m == g.entries@.len(),
                    j <= m,
                    md@ == rows_start + md_rows(g.entries@.take(j as int)),
                decreases m - j,
            {
                append_row(&mut md, &g.entries[j]);
                proof {
                    assert(g.entries@.take(j + 1).drop_last() =~= g.entries@.take(j as int));
                    assert(md@ =~= rows_start + md_rows(g.entries@.take(j + 1)));
                }
                j += 1;
            }
            proof {
                assert(g.entries@.take(m as int) =~= g.entries@);
                assert(md@ =~= before + md_section(*g));
            }
        }
        proof {
            assert(groups@.take(i + 1).drop_last() =~= groups@.take(i as int));
            assert(md@ =~= mid + md_sections(groups@.take(i + 1)));
        }
        i += 1;
    }
    proof {
        assert(groups@.take(n as int) =~= groups@);
        assert(md@ =~= markdown(total as nat, groups@));
    }
    md
}

/// The module of each segment, as the table's index and headings show it:
/// 10xxx shared, 11xxx identity, 20xxx inventory, 21xxx warehouse, 22xxx
/// catalog, 30xxx inbound, 31xxx outbound, 33xxx preissue, 40xxx defect,
/// 41xxx recovery, 42xxx scrap, 44xxx customer return, 45xxx supplier
/// return, 46xxx pmc, 47xxx stocktake; any other segment is unclassified.
/// No two known segments share a module.
pub proof fn law_segment_modules(seg: nat, other: nat)
    ensures
        segment_name_of(10) == "通用"@,
        segment_name_of(11) == "身份 identity"@,
        segment_name_of(20) == "库存 inventory"@,
        segment_name_of(21) == "仓库 warehouse"@,
        segment_name_of(22) == "主数据 catalog"@,
        segment_name_of(30) == "入库 inbound"@,
        segment_name_of(31) == "出库 outbound"@,
        segment_name_of(33) == "异常先发 preissue"@,
        segment_name_of(40) == "不良 defect"@,
        segment_name_of(41) == "拆解 recovery"@,
        segment_name_of(42) == "报废 scrap"@,
        segment_name_of(44) == "客退 customer-return"@,
        segment_name_of(45) == "退供 supplier-return"@,
        segment_name_of(46) == "委外 pmc"@,
        segment_name_of(47) == "盘点 stocktake"@,
        (seg != 10 && seg != 11 && seg != 20 && seg != 21 && seg != 22 && seg != 30 && seg != 31 && seg != 33 && seg != 40 && seg != 41 && seg != 42 && seg != 44 && seg != 45 && seg != 46 && seg != 47) ==> segment_name_of(seg) == "未分类"@,
        (segment_name_of(seg) != "未分类"@ && segment_name_of(other) != "未分类"@ && seg != other)
            ==> segment_name_of(seg) != segment_name_of(other),
{
    reveal_strlit("通用");
    reveal_strlit("身份 identity");
    reveal_strlit("库存 inventory");
    reveal_strlit("仓库 warehouse");
    reveal_strlit("主数据 catalog");
    reveal_strlit("入库 inbound");
    reveal_strlit("出库 outbound");
    reveal_strlit("异常先发 preissue");
    reveal_strlit("不良 defect");
    reveal_strlit("拆解 recovery");
    reveal_strlit("报废 scrap");
    reveal_strlit("客退 customer-return");
    reveal_strlit("退供 supplier-return");
    reveal_strlit("委外 pmc");
    reveal_strlit("盘点 stocktake");
    reveal_strlit("未分类");
    assert("通用"@[0] == '通');
    assert("身份 identity"@[0] == '身');
    assert("库存 inventory"@[0] == '库');
    assert("仓库 warehouse"@[0] == '仓');
    assert("主数据 catalog"@[0] == '主');
    assert("入库 inbound"@[0] == '入');
    assert("出库 outbound"@[0] == '出');
    assert("异常先发 preissue"@[0] == '异');
    assert("不良 defect"@[0] == '不');
    assert("拆解 recovery"@[0] == '拆');
    assert("报废 scrap"@[0] == '报');
    assert("客退 customer-return"@[0] == '客');
    assert("退供 supplier-return"@[0] == '退');
    assert("委外 pmc"@[0] == '委');
    assert("盘点 stocktake"@[0] == '盘');
    assert(segment_name_of(seg).len() > 0);
    assert(segment_name_of(other).len() > 0);
}

/// A five-digit code's segment is its first two digits followed by `xxx`:
/// 31001 is in `31xxx`.
pub proof fn law_segment_text(code: u32)
    requires
        10000 <= code <= 99999,
    ensures
        segment_of(code) == seq![digit_char((code / 10000) as nat), digit_char(((code / 1000) % 10) as nat)] + "xxx"@,
{
    let n = (code / 1000) as nat;
    assert(10 <= n < 100);
    assert(n / 10 == code / 10000);
    assert(decimal_chars(n / 10) == seq![digit_char(n / 10)]);
    assert(decimal_chars(n) == decimal_chars(n / 10).push(digit_char(n % 10)));
    assert(decimal_chars(n) =~= seq![digit_char((code / 10000) as nat), digit_char(((code / 1000) % 10) as nat)]);
}

} // verus!
