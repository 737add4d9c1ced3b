//! Customer returns.
//!
//! A return is created as DRAFT with its lines, may have each line judged
//! (RETURN_TO_STOCK / TO_DEFECT / TO_SCRAP / TO_SUPPLIER_RETURN / TO_CHECK),
//! and on submit its lines are put back into stock, one IN transaction per
//! judgement:
//! - RETURN_TO_STOCK: QUALIFIED at the return location;
//! - TO_DEFECT: BAD at the defect location;
//! - TO_SCRAP: SCRAPPED at the scrap location;
//! - TO_SUPPLIER_RETURN: BAD at the defect location, else the return location;
//! - not judged (or TO_CHECK): TO_CHECK at the return location.

use vstd::prelude::*;
use crate::error::{business_err, fails_validation, fails_with, validation_err, AppError, ErrorCode};
use crate::inventory::{
    CommitTxnCommand, IoFlag, Qty, StockStatus, TxnLineInput, TxnSideInput, TxnType,
};
use crate::query::{
    add_filters, bind_parts, binds_view, build_query, built, day_filter, day_spec, eq_filter, filters_view,
    int_filter, int_spec, small_filter, text_filter, text_spec, BindSpec, Clause, Day, SpecClause,
    SqlQuery,
};
use crate::status::{is_open, law_status_text_round_trip, status_of_text, status_text, DocStatus};
use crate::validation::{length_check, names_if_outside, validation_failure, LengthViolation};
use crate::text::{append_int, decimal_chars, concat_str, int_chars, length_within, str_eq};

verus! {

// 44xxx
pub const CR_INVALID_JUDGE: u32 = 44101;
pub const CR_EMPTY_LINES: u32 = 44102;
pub const CR_INVALID_TRANSITION: u32 = 44103;

/// The judgements: RETURN_TO_STOCK, TO_DEFECT, TO_SCRAP, TO_SUPPLIER_RETURN, TO_CHECK.
pub open spec fn is_judge_method(v: Seq<char>) -> bool {
    v == "RETURN_TO_STOCK"@ || v == "TO_DEFECT"@ || v == "TO_SCRAP"@ || v == "TO_SUPPLIER_RETURN"@
        || v == "TO_CHECK"@
}

pub fn is_valid_judge_method(v: &str) -> (r: bool)
    ensures
        r == is_judge_method(v@),
{
    str_eq(v, "RETURN_TO_STOCK") || str_eq(v, "TO_DEFECT") || str_eq(v, "TO_SCRAP") || str_eq(
        v,
        "TO_SUPPLIER_RETURN",
    ) || str_eq(v, "TO_CHECK")
}

pub open spec fn invalid_judge_message(v: Seq<char>) -> Seq<char> {
    "未知判定: "@ + v
}

fn invalid_judge(v: &str) -> (e: AppError)
    ensures
        business_err(e, CR_INVALID_JUDGE, invalid_judge_message(v@)),
{
    AppError::business(ErrorCode::custom(CR_INVALID_JUDGE), concat_str("未知判定: ", v))
}

// -- create ------------------------------------------------------------------

#[derive(Debug, Clone, PartialEq, Eq)]
pub struct CreateCustomerReturnLine {
    pub line_no: i32,
    pub material_id: i64,
    pub batch_no: String,
    pub qty: Qty,
    pub unit: String,
    pub return_reason: String,
    pub judge_method: Option<String>,
    pub judge_note: Option<String>,
    pub note: Option<String>,
}

#[derive(Debug, Clone, PartialEq, Eq)]
pub struct CreateCustomerReturnCommand {
    pub customer_id: i64,
    /// The day of the return.
    pub return_date: Day,
    pub original_doc_no: Option<String>,
    pub remark: Option<String>,
    /// Where unjudged lines wait for checking.
    pub return_wh_id: i64,
    pub return_loc_id: i64,
    /// Where TO_DEFECT lines go.
    pub defect_wh_id: Option<i64>,
    pub defect_loc_id: Option<i64>,
    /// Where TO_SCRAP lines go.
    pub scrap_wh_id: Option<i64>,
    pub scrap_loc_id: Option<i64>,
    pub lines: Vec<CreateCustomerReturnLine>,
}

/// Unit 1..=30 and reason 1..=200 characters.
pub open spec fn return_line_fields_ok(l: CreateCustomerReturnLine) -> bool {
    length_within(l.unit@, 1, 30) && length_within(l.return_reason@, 1, 200)
}

pub open spec fn return_line_ok(l: CreateCustomerReturnLine) -> bool {
    &&& return_line_fields_ok(l)
    &&& l.qty.spec_positive()
    &&& l.judge_method matches Some(j) ==> is_judge_method(j@)
}

pub open spec fn return_lines_ok_upto(lines: Seq<CreateCustomerReturnLine>, n: int) -> bool {
    forall|i: int| 0 <= i < n ==> #[trigger] return_line_ok(lines[i])
}

/// The error of a refused line: field lengths first, then the quantity, then
/// the judgement.
pub open spec fn return_line_error(l: CreateCustomerReturnLine, e: AppError) -> bool {
    if !return_line_fields_ok(l) {
        e is Validation && names_if_outside(e, "unit"@, l.unit@, 1, 30) && names_if_outside(e, "return_reason"@, l.return_reason@, 1, 200)
    } else if !l.qty.spec_positive() {
        validation_err(e, "数量必须 > 0"@)
    } else {
        business_err(e, CR_INVALID_JUDGE, invalid_judge_message(l.judge_method->0@))
    }
}

/// Whether a customer return may be created: at least one line, then every
/// line with unit 1..=30 and reason 1..=200 characters, a quantity above zero
/// and, when judged, a known judgement; the first failing line decides the
/// error.
pub fn check_create_customer_return(cmd: &CreateCustomerReturnCommand) -> (r: Result<(), AppError>)
    ensures
        cmd.lines@.len() == 0 ==> fails_with(r, CR_EMPTY_LINES, "客户退货行不能为空"@),
        cmd.lines@.len() > 0 ==> (r is Ok <==> return_lines_ok_upto(
            cmd.lines@,
            cmd.lines@.len() as int,
        )),
        forall|i: int|
            0 <= i < cmd.lines@.len() && return_lines_ok_upto(cmd.lines@, i) && !return_line_ok(
                cmd.lines@[i],
            ) ==> #[trigger] return_line_error(cmd.lines@[i], r->Err_0),
{
    let n = cmd.lines.len();
    if n == 0 {
        return Err(AppError::business(ErrorCode::custom(CR_EMPTY_LINES), "客户退货行不能为空".to_owned()));
    }
    let ghost lines = cmd.lines@;
    let mut i: usize = 0;
    while i < n
        invariant
            n == lines.len(),
            lines == cmd.lines@,
            i <= n,
            return_lines_ok_upto(lines, i as int),
        decreases n - i,
    {
        let l = &cmd.lines[i];
        let mut violations: Vec<LengthViolation> = Vec::new();
        length_check(&mut violations, "unit", &l.unit, 1, 30);
        length_check(&mut violations, "return_reason", &l.return_reason, 1, 200);
        if violations.len() > 0 {
            proof { lemma_first_bad_return_line(lines, i as int); }
            return Err(validation_failure(&violations));
        }
        if !l.qty.is_positive() {
            proof { lemma_first_bad_return_line(lines, i as int); }
            return Err(AppError::validation("数量必须 > 0".to_owned()));
        }
        if let Some(j) = &l.judge_method {
            if !is_valid_judge_method(j.as_str()) {
                proof { lemma_first_bad_return_line(lines, i as int); }
                return Err(invalid_judge(j.as_str()));
            }
        }
        i += 1;
    }
    Ok(())
}

proof fn lemma_first_bad_return_line(lines: Seq<CreateCustomerReturnLine>, i: int)
    requires
        0 <= i < lines.len(),
        return_lines_ok_upto(lines, i),
        !return_line_ok(lines[i]),
    ensures
        forall|k: int|
            0 <= k < lines.len() && return_lines_ok_upto(lines, k) && !return_line_ok(lines[k])
                ==> k == i,
        !return_lines_ok_upto(lines, lines.len() as int),
{
    assert forall|k: int|
        0 <= k < lines.len() && return_lines_ok_upto(lines, k) && !return_line_ok(
            lines[k],
        ) implies k == i by {
        if k < i {
            assert(return_line_ok(lines[k]));
        } else if k > i {
            assert(return_line_ok(lines[i]));
        }
    }
}

// -- judge -------------------------------------------------------------------

#[derive(Debug, Clone, PartialEq, Eq)]
pub struct JudgeLineCommand {
    pub line_id: i64,
    pub judge_method: String,
    pub judge_note: Option<String>,
}

/// Judgements may be stored when every one is known; the first unknown one
/// is reported.
pub fn check_judge(lines: &Vec<JudgeLineCommand>) -> (r: Result<(), AppError>)
    ensures
        r is Ok <==> forall|i: int| 0 <= i < lines@.len() ==> is_judge_method(#[trigger] lines@[i].judge_method@),
        forall|i: int|
            0 <= i < lines@.len() && (forall|k: int| 0 <= k < i ==> is_judge_method(#[trigger] lines@[k].judge_method@))
                && !is_judge_method(lines@[i].judge_method@) ==> fails_with(
                r,
                CR_INVALID_JUDGE,
                #[trigger] invalid_judge_message(lines@[i].judge_method@),
            ),
{
    let n = lines.len();
    let mut i: usize = 0;
    while i < n
        invariant
            n == lines@.len(),
            i <= n,
            forall|k: int| 0 <= k < i ==> is_judge_method(#[trigger] lines@[k].judge_method@),
        decreases n - i,
    {
        if !is_valid_judge_method(lines[i].judge_method.as_str()) {
            let e = invalid_judge(lines[i].judge_method.as_str());
            proof {
                assert forall|j: int|
                    0 <= j < lines@.len() && (forall|k: int| 0 <= k < j ==> is_judge_method(#[trigger] lines@[k].judge_method@))
                        && !is_judge_method(lines@[j].judge_method@) implies j == i by {
                    if j < i {
                    } else if j > i {
                        assert(is_judge_method(lines@[i as int].judge_method@));
                    }
                }
            }
            return Err(e);
        }
        i += 1;
    }
    Ok(())
}

// -- submit ------------------------------------------------------------------

/// The stored locations of a customer return.
#[derive(Debug, Clone, Copy, PartialEq, Eq)]
pub struct ReturnLocations {
    pub return_wh: i64,
    pub return_loc: i64,
    pub defect_wh: Option<i64>,
    pub defect_loc: Option<i64>,
    pub scrap_wh: Option<i64>,
    pub scrap_loc: Option<i64>,
}

/// The six location fields kept with a customer return: return warehouse
/// and location, defect warehouse and location, scrap warehouse and location.
pub type ReturnLocationFields = (Option<i64>, Option<i64>, Option<i64>, Option<i64>, Option<i64>, Option<i64>);

/// The locations as read back from the kept fields; the return location is
/// required, and a missing part is named in the error.
pub open spec fn return_locations_read(f: ReturnLocationFields) -> Result<ReturnLocations, Seq<char>> {
    match (f.0, f.1) {
        (None, _) => Err("return_wh_id 缺失"@),
        (Some(_), None) => Err("return_loc_id 缺失"@),
        (Some(w), Some(l)) => Ok(ReturnLocations {
            return_wh: w,
            return_loc: l,
            defect_wh: f.2,
            defect_loc: f.3,
            scrap_wh: f.4,
            scrap_loc: f.5,
        }),
    }
}

/// The location fields a new customer return keeps, from its command.
pub open spec fn stored_return_locations(cmd: CreateCustomerReturnCommand) -> ReturnLocationFields {
    (Some(cmd.return_wh_id), Some(cmd.return_loc_id), cmd.defect_wh_id, cmd.defect_loc_id, cmd.scrap_wh_id, cmd.scrap_loc_id)
}

/// The location fields to keep with a new customer return.
pub fn return_location_fields(cmd: &CreateCustomerReturnCommand) -> (r: ReturnLocationFields)
    ensures
        r == stored_return_locations(*cmd),
{
    (Some(cmd.return_wh_id), Some(cmd.return_loc_id), cmd.defect_wh_id, cmd.defect_loc_id, cmd.scrap_wh_id, cmd.scrap_loc_id)
}

/// The locations read back from storage; the return location is required.
pub fn read_return_locations(
    return_wh: Option<i64>,
    return_loc: Option<i64>,
    defect_wh: Option<i64>,
    defect_loc: Option<i64>,
    scrap_wh: Option<i64>,
    scrap_loc: Option<i64>,
) -> (r: Result<ReturnLocations, AppError>)
    ensures
        match return_locations_read((return_wh, return_loc, defect_wh, defect_loc, scrap_wh, scrap_loc)) {
            Ok(l) => r == Ok::<ReturnLocations, AppError>(l),
            Err(msg) => fails_validation(r, msg),
        },
{
    let return_wh = match return_wh {
        Some(v) => v,
        None => return Err(AppError::validation("return_wh_id 缺失".to_owned())),
    };
    let return_loc = match return_loc {
        Some(v) => v,
        None => return Err(AppError::validation("return_loc_id 缺失".to_owned())),
    };
    Ok(ReturnLocations { return_wh, return_loc, defect_wh, defect_loc, scrap_wh, scrap_loc })
}

/// A stored customer-return line, as submit reads it.
#[derive(Debug, Clone, PartialEq, Eq)]
pub struct CustomerReturnLineView {
    pub id: i64,
    pub line_no: i32,
    pub material_id: i64,
    pub material_code: Option<String>,
    pub batch_no: String,
    pub qty: Qty,
    pub unit: String,
    pub return_reason: String,
    pub judge_method: Option<String>,
    pub judge_note: Option<String>,
    pub note: Option<String>,
}

/// A stored customer return, as submit reads it.
#[derive(Debug, Clone, PartialEq, Eq)]
pub struct CustomerReturnHead {
    pub id: i64,
    pub return_no: String,
    pub customer_id: i64,
    pub original_doc_no: Option<String>,
    pub doc_status: String,
    pub remark: Option<String>,
    pub lines: Vec<CustomerReturnLineView>,
}

/// What a submit reports.
#[derive(Debug, Clone, PartialEq, Eq)]
pub struct SubmitCustomerReturnResult {
    pub return_id: i64,
    pub return_no: String,
    pub txn_no: String,
    pub doc_status: String,
}

/// The judgement a line is grouped under: its own, TO_CHECK when unjudged.
pub open spec fn judge_key(l: CustomerReturnLineView) -> Seq<char> {
    match l.judge_method {
        Some(j) => j@,
        None => "TO_CHECK"@,
    }
}

/// The positions, among the first `n` lines, of the lines judged `k`, in order.
pub open spec fn key_positions(lines: Seq<CustomerReturnLineView>, n: nat, k: Seq<char>) -> Seq<usize>
    decreases n,
{
    if n == 0 {
        Seq::empty()
    } else {
        let p = key_positions(lines, (n - 1) as nat, k);
        if judge_key(lines[n - 1]) == k {
            p.push((n - 1) as usize)
        } else {
            p
        }
    }
}

/// The lines that go into one IN transaction: those with one judgement.
#[derive(Debug, Clone, PartialEq, Eq)]
pub struct JudgeGroup {
    pub method: String,
    /// Positions of the lines in the document, in document order.
    pub lines: Vec<usize>,
}

/// `groups` splits the lines by judgement: one group per judgement that
/// occurs, none twice, each holding exactly the positions of its lines.
pub open spec fn groups_partition(lines: Seq<CustomerReturnLineView>, n: nat, groups: Seq<JudgeGroup>) -> bool {
    &&& forall|g: int, h: int| 0 <= g < h < groups.len() ==> groups[g].method@ != groups[h].method@
    &&& forall|g: int| 0 <= g < groups.len() ==> #[trigger] groups[g].lines@ == key_positions(lines, n, groups[g].method@)
    &&& forall|g: int| 0 <= g < groups.len() ==> #[trigger] groups[g].lines@.len() > 0
    &&& forall|i: int| 0 <= i < n ==> exists|g: int| 0 <= g < groups.len() && #[trigger] groups[g].method@ == judge_key(#[trigger] lines[i])
}

proof fn lemma_key_positions_bounded(lines: Seq<CustomerReturnLineView>, n: nat, k: Seq<char>)
    requires
        n <= usize::MAX,
    ensures
        forall|j: int| 0 <= j < key_positions(lines, n, k).len() ==> #[trigger] key_positions(lines, n, k)[j] < n
            && judge_key(lines[key_positions(lines, n, k)[j] as int]) == k,
    decreases n,
{
    if n > 0 {
        let p = key_positions(lines, (n - 1) as nat, k);
        lemma_key_positions_bounded(lines, (n - 1) as nat, k);
        if judge_key(lines[n - 1]) == k {
            assert forall|j: int| 0 <= j < p.push((n - 1) as usize).len() implies #[trigger] p.push((n - 1) as usize)[j] < n
                && judge_key(lines[p.push((n - 1) as usize)[j] as int]) == k by {
                if j < p.len() {
                    assert(p.push((n - 1) as usize)[j] == p[j]);
                }
            }
        }
    }
}

proof fn lemma_push_contains(p: Seq<usize>, x: usize, y: usize)
    ensures
        p.push(x).contains(y) <==> (p.contains(y) || x == y),
{
    if p.push(x).contains(y) {
        let j = choose|j: int| 0 <= j < p.len() + 1 && #[trigger] p.push(x)[j] == y;
        if j < p.len() {
            assert(p[j] == y);
        }
    }
    if p.contains(y) {
        let j = choose|j: int| 0 <= j < p.len() && #[trigger] p[j] == y;
        assert(p.push(x)[j] == y);
    }
    if x == y {
        assert(p.push(x)[p.len() as int] == y);
    }
}

/// Every line lands in the group of its own judgement and in no other: the
/// groups of a submit split the document's lines.
pub proof fn law_each_line_in_exactly_its_group(
    lines: Seq<CustomerReturnLineView>,
    groups: Seq<JudgeGroup>,
    i: int,
    g: int,
)
    requires
        groups_partition(lines, lines.len(), groups),
        lines.len() <= usize::MAX,
        0 <= i < lines.len(),
        0 <= g < groups.len(),
    ensures
        groups[g].lines@.contains(i as usize) <==> groups[g].method@ == judge_key(lines[i]),
{
    lemma_key_positions_contains(lines, lines.len(), groups[g].method@, i);
}

/// Every line of a submitted return goes into stock through exactly one of
/// its IN transactions: one group holds it, and no other does.
pub proof fn law_each_line_in_one_group(lines: Seq<CustomerReturnLineView>, groups: Seq<JudgeGroup>, i: int)
    requires
        groups_partition(lines, lines.len(), groups),
        lines.len() <= usize::MAX,
        0 <= i < lines.len(),
    ensures
        exists|g: int| 0 <= g < groups.len() && #[trigger] groups[g].lines@.contains(i as usize),
        forall|g: int, h: int|
            0 <= g < groups.len() && 0 <= h < groups.len() && #[trigger] groups[g].lines@.contains(i as usize)
                && #[trigger] groups[h].lines@.contains(i as usize) ==> g == h,
{
    let g0 = choose|g: int| 0 <= g < groups.len() && #[trigger] groups[g].method@ == judge_key(lines[i]);
    law_each_line_in_exactly_its_group(lines, groups, i, g0);
    assert forall|g: int, h: int|
        0 <= g < groups.len() && 0 <= h < groups.len() && #[trigger] groups[g].lines@.contains(i as usize)
            && #[trigger] groups[h].lines@.contains(i as usize) implies g == h by {
        law_each_line_in_exactly_its_group(lines, groups, i, g);
        law_each_line_in_exactly_its_group(lines, groups, i, h);
        if g < h {
            assert(groups[g].method@ != groups[h].method@);
        } else if h < g {
            assert(groups[h].method@ != groups[g].method@);
        }
    }
}

proof fn lemma_key_positions_contains(lines: Seq<CustomerReturnLineView>, n: nat, k: Seq<char>, i: int)
    requires
        0 <= i < n,
        n <= usize::MAX,
    ensures
        key_positions(lines, n, k).contains(i as usize) <==> judge_key(lines[i]) == k,
    decreases n,
{
    let p = key_positions(lines, (n - 1) as nat, k);
    lemma_key_positions_bounded(lines, (n - 1) as nat, k);
    lemma_push_contains(p, (n - 1) as usize, i as usize);
    if i < n - 1 {
        lemma_key_positions_contains(lines, (n - 1) as nat, k, i);
    } else {
        if p.contains(i as usize) {
            let j = choose|j: int| 0 <= j < p.len() && #[trigger] p[j] == i as usize;
            assert(p[j] < n - 1);
        }
    }
}

fn line_key(l: &CustomerReturnLineView) -> (k: String)
    ensures
        k@ == judge_key(*l),
{
    match &l.judge_method {
        Some(j) => j.clone(),
        None => "TO_CHECK".to_owned(),
    }
}

/// Splits the lines by judgement (unjudged lines under TO_CHECK), groups in
/// the order their judgement first occurs.
pub fn group_by_judge(lines: &Vec<CustomerReturnLineView>) -> (groups: Vec<JudgeGroup>)
    ensures
        groups_partition(lines@, lines@.len(), groups@),
{
    let n = lines.len();
    let mut groups: Vec<JudgeGroup> = Vec::new();
    let mut i: usize = 0;
    while i < n
        invariant
            n == lines@.len(),
            i <= n,
            groups_partition(lines@, i as nat, groups@),
        decreases n - i,
    {
        let key = line_key(&lines[i]);
        let ghost prev = groups@;
        let mut g: usize = 0;
        let mut found = false;
        let ng = groups.len();
        while g < ng && !found
            invariant
                groups@ == prev,
                ng == groups@.len(),
                g <= ng,
                found ==> g < ng && groups@[g as int].method@ == key@,
                !found ==> forall|h: int| 0 <= h < g ==> groups@[h].method@ != key@,
            decreases ng - g + (if found { 0int } else { 1int }),
        {
            if groups[g].method == key {
                found = true;
            } else {
                g += 1;
            }
        }
        assert(key_positions(lines@, (i + 1) as nat, key@) == key_positions(lines@, i as nat, key@).push(i));
        if found {
            let mut grp = JudgeGroup { method: "".to_owned(), lines: Vec::new() };
            std::mem::swap(&mut grp, &mut groups[g]);
            grp.lines.push(i);
            std::mem::swap(&mut grp, &mut groups[g]);
            proof {
                assert forall|h: int| 0 <= h < groups@.len() && h != g implies #[trigger] groups@[h].lines@
                    == key_positions(lines@, (i + 1) as nat, groups@[h].method@) by {
                    assert(groups@[h] == prev[h]);
                    assert(key_positions(lines@, (i + 1) as nat, groups@[h].method@) == key_positions(lines@, i as nat, groups@[h].method@));
                }
                assert forall|j: int| 0 <= j < i + 1 implies exists|h: int| 0 <= h < groups@.len() && #[trigger] groups@[h].method@ == judge_key(#[trigger] lines@[j]) by {
                    if j < i {
                        let h = choose|h: int| 0 <= h < prev.len() && #[trigger] prev[h].method@ == judge_key(lines@[j]);
                        assert(groups@[h].method@ == prev[h].method@);
                    } else {
                        assert(groups@[g as int].method@ == judge_key(lines@[j]));
                    }
                }
            }
        } else {
            let mut v: Vec<usize> = Vec::new();
            v.push(i);
            proof {
                reveal_with_fuel(key_positions, 2);
                lemma_key_positions_absent(lines@, i as nat, key@, prev);
            }
            groups.push(JudgeGroup { method: key, lines: v });
            proof {
                assert forall|h: int| 0 <= h < groups@.len() implies #[trigger] groups@[h].lines@
                    == key_positions(lines@, (i + 1) as nat, groups@[h].method@) by {
                    if h < prev.len() {
                        assert(groups@[h] == prev[h]);
                        assert(key_positions(lines@, (i + 1) as nat, groups@[h].method@) == key_positions(lines@, i as nat, groups@[h].method@));
                    } else {
                        assert(groups@[h].lines@ =~= seq![i]);
                    }
                }
                assert forall|j: int| 0 <= j < i + 1 implies exists|h: int| 0 <= h < groups@.len() && #[trigger] groups@[h].method@ == judge_key(#[trigger] lines@[j]) by {
                    if j < i {
                        let h = choose|h: int| 0 <= h < prev.len() && #[trigger] prev[h].method@ == judge_key(lines@[j]);
                        assert(groups@[h].method@ == prev[h].method@);
                    } else {
                        assert(groups@[prev.len() as int].method@ == judge_key(lines@[j]));
                    }
                }
                assert forall|a: int, b: int| 0 <= a < b < groups@.len() implies groups@[a].method@ != groups@[b].method@ by {
                    if b < prev.len() {
                        assert(groups@[a] == prev[a]);
                        assert(groups@[b] == prev[b]);
                    } else {
                        assert(groups@[a] == prev[a]);
                    }
                }
            }
        }
        i += 1;
    }
    groups
}

/// When no group carries judgement `k`, none of the first `n` lines has it.
proof fn lemma_key_positions_absent(lines: Seq<CustomerReturnLineView>, n: nat, k: Seq<char>, groups: Seq<JudgeGroup>)
    requires
        groups_partition(lines, n, groups),
        n <= usize::MAX,
        forall|h: int| 0 <= h < groups.len() ==> groups[h].method@ != k,
    ensures
        key_positions(lines, n, k) == Seq::<usize>::empty(),
{
    lemma_key_positions_bounded(lines, n, k);
    if key_positions(lines, n, k).len() > 0 {
        let j = key_positions(lines, n, k)[0];
        assert(judge_key(lines[j as int]) == k);
        let h = choose|h: int| 0 <= h < groups.len() && #[trigger] groups[h].method@ == judge_key(lines[j as int]);
    }
}

/// Where the lines of one judgement go, and in which stock status.
#[derive(Debug, Clone, Copy, PartialEq, Eq)]
pub struct ReturnTarget {
    pub wh_id: i64,
    pub loc_id: i64,
    pub status: StockStatus,
}

/// The target of judgement `m`, or the message of the error when a needed
/// location is missing.
pub open spec fn return_target(m: Seq<char>, l: ReturnLocations) -> Result<ReturnTarget, Seq<char>> {
    if m == "RETURN_TO_STOCK"@ {
        Ok(ReturnTarget { wh_id: l.return_wh, loc_id: l.return_loc, status: StockStatus::Qualified })
    } else if m == "TO_DEFECT"@ {
        if l.defect_wh is None {
            Err("TO_DEFECT 需要 defect_wh_id/loc_id"@)
        } else if l.defect_loc is None {
            Err("TO_DEFECT 需要 defect_loc_id"@)
        } else {
            Ok(ReturnTarget { wh_id: l.defect_wh->0, loc_id: l.defect_loc->0, status: StockStatus::Bad })
        }
    } else if m == "TO_SCRAP"@ {
        if l.scrap_wh is None {
            Err("TO_SCRAP 需要 scrap_wh_id"@)
        } else if l.scrap_loc is None {
            Err("TO_SCRAP 需要 scrap_loc_id"@)
        } else {
            Ok(ReturnTarget { wh_id: l.scrap_wh->0, loc_id: l.scrap_loc->0, status: StockStatus::Scrapped })
        }
    } else if m == "TO_SUPPLIER_RETURN"@ {
        Ok(ReturnTarget {
            wh_id: if l.defect_wh is Some { l.defect_wh->0 } else { l.return_wh },
            loc_id: if l.defect_loc is Some { l.defect_loc->0 } else { l.return_loc },
            status: StockStatus::Bad,
        })
    } else {
        Ok(ReturnTarget { wh_id: l.return_wh, loc_id: l.return_loc, status: StockStatus::ToCheck })
    }
}

pub open spec fn target_result(m: Seq<char>, l: ReturnLocations, r: Result<ReturnTarget, AppError>) -> bool {
    match return_target(m, l) {
        Ok(t) => r == Ok::<ReturnTarget, AppError>(t),
        Err(msg) => fails_validation(r, msg),
    }
}

/// Where the lines judged `method` go.
pub fn resolve_return_target(method: &str, locs: &ReturnLocations) -> (r: Result<ReturnTarget, AppError>)
    ensures
        target_result(method@, *locs, r),
{
    if str_eq(method, "RETURN_TO_STOCK") {
        Ok(ReturnTarget { wh_id: locs.return_wh, loc_id: locs.return_loc, status: StockStatus::Qualified })
    } else if str_eq(method, "TO_DEFECT") {
        let w = match locs.defect_wh {
            Some(w) => w,
            None => return Err(AppError::validation("TO_DEFECT 需要 defect_wh_id/loc_id".to_owned())),
        };
        let l = match locs.defect_loc {
            Some(l) => l,
            None => return Err(AppError::validation("TO_DEFECT 需要 defect_loc_id".to_owned())),
        };
        Ok(ReturnTarget { wh_id: w, loc_id: l, status: StockStatus::Bad })
    } else if str_eq(method, "TO_SCRAP") {
        let w = match locs.scrap_wh {
            Some(w) => w,
            None => return Err(AppError::validation("TO_SCRAP 需要 scrap_wh_id".to_owned())),
        };
        let l = match locs.scrap_loc {
            Some(l) => l,
            None => return Err(AppError::validation("TO_SCRAP 需要 scrap_loc_id".to_owned())),
        };
        Ok(ReturnTarget { wh_id: w, loc_id: l, status: StockStatus::Scrapped })
    } else if str_eq(method, "TO_SUPPLIER_RETURN") {
        let w = match locs.defect_wh {
            Some(w) => w,
            None => locs.return_wh,
        };
        let l = match locs.defect_loc {
            Some(l) => l,
            None => locs.return_loc,
        };
        Ok(ReturnTarget { wh_id: w, loc_id: l, status: StockStatus::Bad })
    } else {
        Ok(ReturnTarget { wh_id: locs.return_wh, loc_id: locs.return_loc, status: StockStatus::ToCheck })
    }
}

/// Line `i` of the IN transaction of one judgement, from document line `d`.
pub open spec fn return_line_matches(d: CustomerReturnLineView, t: TxnLineInput, i: int, st: StockStatus) -> bool {
    &&& t.line_no == i + 1
    &&& t.material_id == d.material_id
    &&& t.batch_no@ == d.batch_no@
    &&& t.qty == d.qty
    &&& t.unit@ == d.unit@
    &&& t.io_flag == IoFlag::In
    &&& t.source_material_id is None
    &&& t.target_material_id is None
    &&& t.stock_status == Some(st)
    &&& !t.status_change_flag
    &&& !t.location_change_flag
    &&& !t.item_change_flag
    &&& !t.recoverable_flag
    &&& t.scrap_flag == (st == StockStatus::Scrapped)
    &&& t.note == d.note
}

/// `c` is the IN transaction that puts the lines at `positions`, judged
/// `m`, into stock at target `t`: every judgement but RETURN_TO_STOCK is
/// recorded as an exception of that type.
pub open spec fn return_command(
    head: CustomerReturnHead,
    m: Seq<char>,
    positions: Seq<usize>,
    t: ReturnTarget,
    c: CommitTxnCommand,
) -> bool {
    &&& c.txn_type == TxnType::In
    &&& c.scene_code@ == "CUSTOMER_RETURN_IN"@
    &&& c.scene_name matches Some(n) && n@ == "客户退货 ("@ + m + ")"@
    &&& c.doc_type@ == "CUSTOMER_RETURN"@
    &&& c.doc_no@ == head.return_no@
    &&& c.source_object_type is None
    &&& c.source_object_id is None
    &&& c.target_object_type matches Some(o) && o@ == "CUSTOMER"@
    &&& c.target_object_id == Some(head.customer_id)
    &&& c.source is None
    &&& c.target == Some(TxnSideInput { wh_id: t.wh_id, loc_id: t.loc_id, status: Some(t.status) })
    &&& c.lines@.len() == positions.len()
    &&& forall|i: int| 0 <= i < positions.len() ==> #[trigger] return_line_matches(
        head.lines@[positions[i] as int],
        c.lines@[i],
        i,
        t.status,
    )
    &&& c.is_exception == (m != "RETURN_TO_STOCK"@)
    &&& (if m != "RETURN_TO_STOCK"@ {
        c.exception_type matches Some(x) && x@ == m
    } else {
        c.exception_type is None
    })
    &&& c.related_doc_no == head.original_doc_no
    &&& c.snapshot is None
    &&& c.remark == head.remark
}

fn return_line(d: &CustomerReturnLineView, line_no: i32, st: StockStatus) -> (t: TxnLineInput)
    ensures
        return_line_matches(*d, t, line_no - 1, st),
{
    TxnLineInput {
        line_no,
        material_id: d.material_id,
        batch_no: d.batch_no.clone(),
        qty: d.qty,
        unit: d.unit.clone(),
        io_flag: IoFlag::In,
        source_material_id: None,
        target_material_id: None,
        stock_status: Some(st),
        status_change_flag: false,
        location_change_flag: false,
        item_change_flag: false,
        recoverable_flag: false,
        scrap_flag: st == StockStatus::Scrapped,
        note: d.note.clone(),
    }
}

/// Plans the IN transaction of the lines judged `method`.
pub fn plan_return_txn(
    head: &CustomerReturnHead,
    method: &String,
    positions: &Vec<usize>,
    target: ReturnTarget,
) -> (c: CommitTxnCommand)
    requires
        positions@.len() < 0x7fff_ffff,
        forall|i: int| 0 <= i < positions@.len() ==> #[trigger] positions@[i] < head.lines@.len(),
    ensures
        return_command(*head, method@, positions@, target, c),
{
    let n = positions.len();
    let mut lines: Vec<TxnLineInput> = Vec::new();
    let mut i: usize = 0;
    while i < n
        invariant
            n == positions@.len(),
            n < 0x7fff_ffff,
            i <= n,
            forall|j: int| 0 <= j < positions@.len() ==> #[trigger] positions@[j] < head.lines@.len(),
            lines@.len() == i,
            forall|j: int| 0 <= j < i ==> #[trigger] return_line_matches(
                head.lines@[positions@[j] as int],
                lines@[j],
                j,
                target.status,
            ),
        decreases n - i,
    {
        let p = positions[i];
        let t = return_line(&head.lines[p], (i + 1) as i32, target.status);
        let ghost prev = lines@;
        lines.push(t);
        proof {
            assert forall|j: int| 0 <= j < i + 1 implies #[trigger] return_line_matches(
                head.lines@[positions@[j] as int],
                lines@[j],
                j,
                target.status,
            ) by {
                if j < i {
                    assert(lines@[j] == prev[j]);
                }
            }
        }
        i += 1;
    }
    let exceptional = !str_eq(method.as_str(), "RETURN_TO_STOCK");
    let mut scene = "客户退货 (".to_owned();
    scene.append(method.as_str());
    scene.append(")");
    CommitTxnCommand {
        txn_type: TxnType::In,
        scene_code: "CUSTOMER_RETURN_IN".to_owned(),
        scene_name: Some(scene),
        doc_type: "CUSTOMER_RETURN".to_owned(),
        doc_no: head.return_no.clone(),
        source_object_type: None,
        source_object_id: None,
        target_object_type: Some("CUSTOMER".to_owned()),
        target_object_id: Some(head.customer_id),
        source: None,
        target: Some(TxnSideInput { wh_id: target.wh_id, loc_id: target.loc_id, status: Some(target.status) }),
        lines,
        is_exception: exceptional,
        exception_type: if exceptional { Some(method.clone()) } else { None },
        related_doc_no: head.original_doc_no.clone(),
        snapshot: None,
        remark: head.remark.clone(),
    }
}

// -- the submit conversation -------------------------------------------------

/// Where a customer-return submit stands.
#[derive(Debug, Clone, PartialEq, Eq)]
pub enum ReturnSubmitState {
    /// The document `id` has been asked for.
    AwaitHead { id: i64 },
    /// Its stored locations have been asked for.
    AwaitLocations { id: i64, head: CustomerReturnHead },
    /// The IN transaction of group `next` has been handed to the inventory
    /// engine; `last` is the number of the transaction committed before it.
    AwaitCommit {
        id: i64,
        head: CustomerReturnHead,
        locs: ReturnLocations,
        groups: Vec<JudgeGroup>,
        next: usize,
        last: String,
    },
    /// The document is being marked COMPLETED.
    AwaitStatusUpdate { id: i64, head: CustomerReturnHead, txn_no: String },
    /// The submit has answered.
    Done,
}

/// What the storage or the inventory engine answered.
#[derive(Debug, Clone, PartialEq, Eq)]
pub enum ReturnSubmitEvent {
    HeadLoaded(CustomerReturnHead),
    LocationsLoaded {
        return_wh: Option<i64>,
        return_loc: Option<i64>,
        defect_wh: Option<i64>,
        defect_loc: Option<i64>,
        scrap_wh: Option<i64>,
        scrap_loc: Option<i64>,
    },
    /// No document has this id.
    Missing,
    /// The last requested transaction was committed under this number.
    Committed(String),
    /// The new status was stored.
    StatusUpdated,
    /// The storage or the inventory engine failed.
    Failed(AppError),
}

/// What to do next.
#[derive(Debug, Clone, PartialEq, Eq)]
pub enum ReturnSubmitAction {
    LoadHead(i64),
    LoadLocations(i64),
    Commit(CommitTxnCommand),
    UpdateStatus { id: i64, status: DocStatus },
    Finish(SubmitCustomerReturnResult),
    Fail(AppError),
}

pub open spec fn return_not_found_message(id: i64) -> Seq<char> {
    "客户退货单 id="@ + int_chars(id as int) + " 不存在"@
}

fn return_not_found(id: i64) -> (e: AppError)
    ensures
        e matches AppError::NotFound(m) && m@ == return_not_found_message(id),
{
    let mut m = "客户退货单 id=".to_owned();
    append_int(&mut m, id);
    m.append(" 不存在");
    AppError::not_found(m)
}

pub open spec fn return_head_open(head: CustomerReturnHead) -> bool {
    status_of_text(head.doc_status@) matches Some(st) && is_open(st)
}

/// What holds in every state a submit passes through: only documents whose
/// status allows a submit go past the first step, and the groups being
/// committed split the document's lines.
pub open spec fn return_submit_inv(s: ReturnSubmitState) -> bool {
    match s {
        ReturnSubmitState::AwaitLocations { head, .. } => return_head_open(head) && head.lines@.len() < 0x7fff_ffff,
        ReturnSubmitState::AwaitCommit { head, groups, next, .. } => {
            &&& return_head_open(head)
            &&& head.lines@.len() < 0x7fff_ffff
            &&& groups_partition(head.lines@, head.lines@.len(), groups@)
            &&& next < groups@.len()
        },
        ReturnSubmitState::AwaitStatusUpdate { head, .. } => return_head_open(head),
        _ => true,
    }
}

pub open spec fn ret_fails_validation(a: ReturnSubmitAction, msg: Seq<char>) -> bool {
    a matches ReturnSubmitAction::Fail(e) && validation_err(e, msg)
}

pub open spec fn ret_fails_business(a: ReturnSubmitAction, code: u32, msg: Seq<char>) -> bool {
    a matches ReturnSubmitAction::Fail(e) && business_err(e, code, msg)
}

pub open spec fn ret_fails_invalid(a: ReturnSubmitAction) -> bool {
    a matches ReturnSubmitAction::Fail(e) && e is Validation
}

pub open spec fn ret_fails_not_found(a: ReturnSubmitAction, msg: Seq<char>) -> bool {
    a matches ReturnSubmitAction::Fail(AppError::NotFound(m)) && m@ == msg
}

pub open spec fn ret_fails_internal(a: ReturnSubmitAction) -> bool {
    a matches ReturnSubmitAction::Fail(AppError::Internal(_))
}

pub open spec fn ret_commits(
    a: ReturnSubmitAction,
    head: CustomerReturnHead,
    m: Seq<char>,
    positions: Seq<usize>,
    t: ReturnTarget,
) -> bool {
    a matches ReturnSubmitAction::Commit(c) && return_command(head, m, positions, t, c)
}

pub open spec fn ret_finishes(a: ReturnSubmitAction, id: i64, head: CustomerReturnHead, txn_no: String) -> bool {
    a matches ReturnSubmitAction::Finish(res) && res.return_id == id && res.return_no@ == head.return_no@
        && res.txn_no == txn_no && res.doc_status@ == status_text(DocStatus::Completed)
}

/// From group `k` on: commit the next group, or, when all are committed,
/// mark the document COMPLETED.
pub open spec fn advanced(
    id: i64,
    head: CustomerReturnHead,
    locs: ReturnLocations,
    groups: Vec<JudgeGroup>,
    k: int,
    last: String,
    r: (ReturnSubmitState, ReturnSubmitAction),
) -> bool {
    if k >= groups@.len() {
        r.0 == (ReturnSubmitState::AwaitStatusUpdate { id, head, txn_no: last }) && r.1
            == (ReturnSubmitAction::UpdateStatus { id, status: DocStatus::Completed })
    } else {
        match return_target(groups@[k].method@, locs) {
            Err(msg) => r.0 is Done && ret_fails_validation(r.1, msg),
            Ok(t) => r.0 == (ReturnSubmitState::AwaitCommit { id, head, locs, groups, next: k as usize, last })
                && ret_commits(r.1, head, groups@[k].method@, groups@[k].lines@, t),
        }
    }
}

fn advance(
    id: i64,
    head: CustomerReturnHead,
    locs: ReturnLocations,
    groups: Vec<JudgeGroup>,
    k: usize,
    last: String,
) -> (r: (ReturnSubmitState, ReturnSubmitAction))
    requires
        k <= groups@.len(),
        head.lines@.len() < 0x7fff_ffff,
        groups_partition(head.lines@, head.lines@.len(), groups@),
    ensures
        advanced(id, head, locs, groups, k as int, last, r),
{
    if k == groups.len() {
        return (
            ReturnSubmitState::AwaitStatusUpdate { id, head, txn_no: last },
            ReturnSubmitAction::UpdateStatus { id, status: DocStatus::Completed },
        );
    }
    match resolve_return_target(groups[k].method.as_str(), &locs) {
        Err(e) => (ReturnSubmitState::Done, ReturnSubmitAction::Fail(e)),
        Ok(t) => {
            proof {
                lemma_key_positions_bounded(head.lines@, head.lines@.len(), groups@[k as int].method@);
                lemma_key_positions_len(head.lines@, head.lines@.len(), groups@[k as int].method@);
            }
            let c = plan_return_txn(&head, &groups[k].method, &groups[k].lines, t);
            (ReturnSubmitState::AwaitCommit { id, head, locs, groups, next: k, last }, ReturnSubmitAction::Commit(c))
        },
    }
}

proof fn lemma_key_positions_len(lines: Seq<CustomerReturnLineView>, n: nat, k: Seq<char>)
    ensures
        key_positions(lines, n, k).len() <= n,
    decreases n,
{
    if n > 0 {
        lemma_key_positions_len(lines, (n - 1) as nat, k);
    }
}

/// What one step of the conversation does, by state and answer.
pub open spec fn step_return_submit_spec(state: ReturnSubmitState, event: ReturnSubmitEvent, r: (ReturnSubmitState, ReturnSubmitAction)) -> bool {
    match (state, event) {
        (ReturnSubmitState::AwaitHead { id }, ReturnSubmitEvent::HeadLoaded(h)) => match status_of_text(h.doc_status@) {
            None => r.0 is Done && ret_fails_invalid(r.1),
            Some(st) => if !is_open(st) {
                r.0 is Done && ret_fails_business(
                    r.1,
                    CR_INVALID_TRANSITION,
                    "当前状态 "@ + h.doc_status@ + " 不允许 submit"@,
                )
            } else {
                r.0 == (ReturnSubmitState::AwaitLocations { id, head: h }) && r.1
                    == ReturnSubmitAction::LoadLocations(id)
            },
        },
        (ReturnSubmitState::AwaitHead { id }, ReturnSubmitEvent::Missing) => r.0 is Done
            && ret_fails_not_found(r.1, return_not_found_message(id)),
        (ReturnSubmitState::AwaitLocations { id, .. }, ReturnSubmitEvent::Missing) => r.0 is Done
            && ret_fails_not_found(r.1, return_not_found_message(id)),
        (
            ReturnSubmitState::AwaitLocations { id, head },
            ReturnSubmitEvent::LocationsLoaded { return_wh, return_loc, defect_wh, defect_loc, scrap_wh, scrap_loc },
        ) => if return_wh is None {
            r.0 is Done && ret_fails_validation(r.1, "return_wh_id 缺失"@)
        } else if return_loc is None {
            r.0 is Done && ret_fails_validation(r.1, "return_loc_id 缺失"@)
        } else {
            exists|groups: Vec<JudgeGroup>, empty: String|
                groups_partition(head.lines@, head.lines@.len(), groups@) && empty@ == Seq::<char>::empty() && #[trigger] advanced(
                    id,
                    head,
                    ReturnLocations {
                        return_wh: return_wh->0,
                        return_loc: return_loc->0,
                        defect_wh,
                        defect_loc,
                        scrap_wh,
                        scrap_loc,
                    },
                    groups,
                    0,
                    empty,
                    r,
                )
        },
        (ReturnSubmitState::AwaitCommit { id, head, locs, groups, next, .. }, ReturnSubmitEvent::Committed(t)) =>
            advanced(id, head, locs, groups, next + 1, t, r),
        (ReturnSubmitState::AwaitStatusUpdate { id, head, txn_no }, ReturnSubmitEvent::StatusUpdated) => r.0 is Done
            && ret_finishes(r.1, id, head, txn_no),
        (ReturnSubmitState::Done, _) => r.0 is Done && ret_fails_internal(r.1),
        (_, ReturnSubmitEvent::Failed(e)) => r == (ReturnSubmitState::Done, ReturnSubmitAction::Fail(e)),
        _ => r.0 is Done && ret_fails_internal(r.1),
    }
}

/// One step of a customer-return submit: from the state and what was
/// answered, the next state and what to do.
///
/// The stored status must be DRAFT or SUBMITTED; the return location must be
/// stored; the lines are split by judgement and each group is committed as
/// one IN transaction at its target, in turn; a group whose target location
/// is missing stops the submit there. Then the document becomes COMPLETED and
/// the result reports the number of the last transaction (empty when the
/// document has no lines). Any failure answers at once; an answer that does
/// not fit the state fails as an internal error.
fn step_return_submit(state: ReturnSubmitState, event: ReturnSubmitEvent) -> (r: (ReturnSubmitState, ReturnSubmitAction))
    requires
        event matches ReturnSubmitEvent::HeadLoaded(h) ==> h.lines@.len() < 0x7fff_ffff,
        state matches ReturnSubmitState::AwaitLocations { head, .. } ==> head.lines@.len() < 0x7fff_ffff,
        return_submit_inv(state),
    ensures
        return_submit_inv(r.0),
        r.1 is Commit ==> r.0 is AwaitCommit,
        r.1 is UpdateStatus ==> r.0 is AwaitStatusUpdate && r.1->status == DocStatus::Completed,
        (r.1 is Finish || r.1 is Fail) <==> r.0 is Done,
        (event matches ReturnSubmitEvent::Failed(e) && !(state is Done)) ==> r == (ReturnSubmitState::Done, ReturnSubmitAction::Fail(event->Failed_0)),
        step_return_submit_spec(state, event, r),

{
    match (state, event) {
        (ReturnSubmitState::AwaitHead { id }, ReturnSubmitEvent::HeadLoaded(h)) => {
            let st = match DocStatus::parse(h.doc_status.as_str()) {
                Ok(st) => st,
                Err(e) => return (ReturnSubmitState::Done, ReturnSubmitAction::Fail(e)),
            };
            if !st.can_void() {
                let mut m = "当前状态 ".to_owned();
                m.append(h.doc_status.as_str());
                m.append(" 不允许 submit");
                return (
                    ReturnSubmitState::Done,
                    ReturnSubmitAction::Fail(AppError::business(ErrorCode::custom(CR_INVALID_TRANSITION), m)),
                );
            }
            (ReturnSubmitState::AwaitLocations { id, head: h }, ReturnSubmitAction::LoadLocations(id))
        },
        (ReturnSubmitState::AwaitHead { id }, ReturnSubmitEvent::Missing) => {
            (ReturnSubmitState::Done, ReturnSubmitAction::Fail(return_not_found(id)))
        },
        (ReturnSubmitState::AwaitLocations { id, .. }, ReturnSubmitEvent::Missing) => {
            (ReturnSubmitState::Done, ReturnSubmitAction::Fail(return_not_found(id)))
        },
        (
            ReturnSubmitState::AwaitLocations { id, head },
            ReturnSubmitEvent::LocationsLoaded { return_wh, return_loc, defect_wh, defect_loc, scrap_wh, scrap_loc },
        ) => {
            let locs = match read_return_locations(return_wh, return_loc, defect_wh, defect_loc, scrap_wh, scrap_loc) {
                Ok(l) => l,
                Err(e) => return (ReturnSubmitState::Done, ReturnSubmitAction::Fail(e)),
            };
            let groups = group_by_judge(&head.lines);
            let empty = String::new();
            let r = advance(id, head, locs, groups, 0, empty);
            proof {
                assert(groups_partition(head.lines@, head.lines@.len(), groups@) && empty@ == Seq::<char>::empty() && advanced(id, head, locs, groups, 0, empty, r));
            }
            r
        },
        (ReturnSubmitState::AwaitCommit { id, head, locs, groups, next, .. }, ReturnSubmitEvent::Committed(t)) => {
            let ng = groups.len();
            assert(next < ng);
            advance(id, head, locs, groups, next + 1, t)
        },
        (ReturnSubmitState::AwaitStatusUpdate { id, head, txn_no }, ReturnSubmitEvent::StatusUpdated) => {
            let res = SubmitCustomerReturnResult {
                return_id: id,
                return_no: head.return_no,
                txn_no,
                doc_status: DocStatus::Completed.as_str().to_owned(),
            };
            (ReturnSubmitState::Done, ReturnSubmitAction::Finish(res))
        },
        (ReturnSubmitState::Done, ev) => {
            (ReturnSubmitState::Done, ReturnSubmitAction::Fail(AppError::Internal("submit 已结束".to_owned())))
        },
        (_, ReturnSubmitEvent::Failed(e)) => (ReturnSubmitState::Done, ReturnSubmitAction::Fail(e)),
        _ => (ReturnSubmitState::Done, ReturnSubmitAction::Fail(AppError::Internal("submit 收到不匹配的回应".to_owned()))),
    }
}

/// Whether a return in this stored status may be voided: only DRAFT or
/// SUBMITTED; the status it then takes is VOIDED.
pub fn check_void_return(doc_status: &str) -> (r: Result<DocStatus, AppError>)
    ensures
        status_of_text(doc_status@) is None ==> r matches Err(AppError::Validation(_)),
        status_of_text(doc_status@) matches Some(st) && is_open(st) ==> r == Ok::<DocStatus, AppError>(DocStatus::Voided),
        (status_of_text(doc_status@) matches Some(st) && !is_open(st)) ==> fails_with(
            r,
            CR_INVALID_TRANSITION,
            "当前状态 "@ + doc_status@ + " 不允许作废"@,
        ),
{
    let st = DocStatus::parse(doc_status)?;
    if !st.can_void() {
        let mut m = "当前状态 ".to_owned();
        m.append(doc_status);
        m.append(" 不允许作废");
        return Err(AppError::business(ErrorCode::custom(CR_INVALID_TRANSITION), m));
    }
    Ok(DocStatus::Voided)
}

/// A submit in progress. Its state is kept whole by the type: the app can
/// only feed it answers and carry out what it asks.
pub struct ReturnSubmission {
    state: ReturnSubmitState,
}

impl View for ReturnSubmission {
    type V = ReturnSubmitState;

    closed spec fn view(&self) -> ReturnSubmitState {
        self.state
    }
}

impl ReturnSubmission {
    #[verifier::type_invariant]
    spec fn well_formed(self) -> bool {
        return_submit_inv(self.state)
    }

    /// Opens a submit of document `id`: ask for it.
    pub fn start(id: i64) -> (r: (ReturnSubmission, ReturnSubmitAction))
        ensures
            r.0@ == (ReturnSubmitState::AwaitHead { id }),
            r.1 == ReturnSubmitAction::LoadHead(id),
    {
        (ReturnSubmission { state: ReturnSubmitState::AwaitHead { id } }, ReturnSubmitAction::LoadHead(id))
    }

    /// Feeds the answer to the last action; gives the next action.
    pub fn step(self, event: ReturnSubmitEvent) -> (r: (ReturnSubmission, ReturnSubmitAction))
        requires
            event matches ReturnSubmitEvent::HeadLoaded(h) ==> h.lines@.len() < 0x7fff_ffff,
        ensures
            step_return_submit_spec(self@, event, (r.0@, r.1)),
            r.1 is Commit ==> r.0@ is AwaitCommit,
            r.1 is UpdateStatus ==> r.0@ is AwaitStatusUpdate && r.1->status == DocStatus::Completed,
            (r.1 is Finish || r.1 is Fail) <==> r.0@ is Done,
    {
        proof { use_type_invariant(&self); }
        let (st, a) = step_return_submit(self.state, event);
        (ReturnSubmission { state: st }, a)
    }

    /// Whether the submit has answered.
    pub fn is_done(&self) -> (r: bool)
        ensures
            r == self@ is Done,
    {
        matches!(self.state, ReturnSubmitState::Done)
    }
}

/// The locations a customer return keeps on create are those its submit
/// reads back: the return location is always there, and nothing changes.
pub proof fn law_return_locations_read_back(cmd: CreateCustomerReturnCommand)
    ensures
        return_locations_read(stored_return_locations(cmd)) == Ok::<ReturnLocations, Seq<char>>(
            ReturnLocations {
                return_wh: cmd.return_wh_id,
                return_loc: cmd.return_loc_id,
                defect_wh: cmd.defect_wh_id,
                defect_loc: cmd.defect_loc_id,
                scrap_wh: cmd.scrap_wh_id,
                scrap_loc: cmd.scrap_loc_id,
            },
        ),
{
}

/// A search for customer returns; each field that is set narrows it.
#[derive(Debug, Clone, PartialEq, Eq)]
pub struct QueryCustomerReturns {
    pub return_no: Option<String>,
    pub customer_id: Option<i64>,
    pub doc_status: Option<String>,
    pub date_from: Option<Day>,
    pub date_to: Option<Day>,
}

pub const CUSTOMER_RETURN_LIST: &'static str = "\n            select h.id, h.return_no, h.customer_id, c.customer_name,\n                   h.return_date, h.original_doc_no, h.operator_id,\n                   h.doc_status, h.remark, h.created_at, h.updated_at\n              from wms.wms_customer_return_h h\n              left join mdm.mdm_customer c on c.id = h.customer_id\n             where 1 = 1\n            ";

/// The conditions of a return search, in the order they are added; the
/// dates bound the return date, both ends included.
pub open spec fn customer_return_filters(q: QueryCustomerReturns) -> Seq<Option<SpecClause>> {
    seq![
        eq_filter(" and h.return_no = "@, text_spec(q.return_no)),
        eq_filter(" and h.customer_id = "@, int_spec(q.customer_id)),
        eq_filter(" and h.doc_status = "@, text_spec(q.doc_status)),
        eq_filter(" and h.return_date >= "@, day_spec(q.date_from)),
        eq_filter(" and h.return_date <= "@, day_spec(q.date_to)),
    ]
}

/// The customer returns that match, latest return date first, at most 500.
pub fn customer_return_list_query(q: &QueryCustomerReturns) -> (r: SqlQuery)
    ensures
        (r.sql@, binds_view(r.binds@)) == built(CUSTOMER_RETURN_LIST@, customer_return_filters(*q), " order by h.return_date desc, h.id desc limit 500"@),
{
    let mut fs: Vec<Option<Clause>> = Vec::new();
    fs.push(text_filter(" and h.return_no = ", &q.return_no));
    fs.push(int_filter(" and h.customer_id = ", q.customer_id));
    fs.push(text_filter(" and h.doc_status = ", &q.doc_status));
    fs.push(day_filter(" and h.return_date >= ", q.date_from));
    fs.push(day_filter(" and h.return_date <= ", q.date_to));
    proof {
        assert(filters_view(fs@) =~= customer_return_filters(*q));
        assert forall|i: int| 0 <= i < fs@.len() implies small_filter(#[trigger] fs@[i]) by {
        }
    }
    build_query(CUSTOMER_RETURN_LIST, fs, " order by h.return_date desc, h.id desc limit 500")
}

/// A document that a submit has completed is not submitted twice: a submit
/// finishes by storing COMPLETED, and a later submit that reads that status
/// is refused with the transition error, without any transaction being
/// handed to the inventory engine.
pub proof fn law_completed_return_not_resubmitted(id: i64, h: CustomerReturnHead, r: (ReturnSubmitState, ReturnSubmitAction))
    requires
        h.doc_status@ == status_text(DocStatus::Completed),
        step_return_submit_spec(ReturnSubmitState::AwaitHead { id }, ReturnSubmitEvent::HeadLoaded(h), r),
    ensures
        r.0 is Done,
        ret_fails_business(r.1, CR_INVALID_TRANSITION, "当前状态 "@ + h.doc_status@ + " 不允许 submit"@),
        !(r.1 is Commit),
{
    law_status_text_round_trip(DocStatus::Completed);
}

/// Where each judgement puts its lines:
/// - RETURN_TO_STOCK: QUALIFIED at the return location;
/// - TO_DEFECT: BAD at the defect location, refused unless both parts are stored;
/// - TO_SCRAP: SCRAPPED at the scrap location, refused unless both parts are stored;
/// - TO_SUPPLIER_RETURN: BAD at the stored defect warehouse and location,
///   each falling back to the return location's part only when not stored;
/// - TO_CHECK: TO_CHECK at the return location.
pub proof fn law_return_targets(l: ReturnLocations)
    ensures
        return_target("RETURN_TO_STOCK"@, l) == Ok::<ReturnTarget, Seq<char>>(
            ReturnTarget { wh_id: l.return_wh, loc_id: l.return_loc, status: StockStatus::Qualified },
        ),
        (l.defect_wh is Some && l.defect_loc is Some) ==> return_target("TO_DEFECT"@, l)
            == Ok::<ReturnTarget, Seq<char>>(
            ReturnTarget { wh_id: l.defect_wh->0, loc_id: l.defect_loc->0, status: StockStatus::Bad },
        ),
        (l.defect_wh is None || l.defect_loc is None) ==> return_target("TO_DEFECT"@, l) is Err,
        (l.scrap_wh is Some && l.scrap_loc is Some) ==> return_target("TO_SCRAP"@, l)
            == Ok::<ReturnTarget, Seq<char>>(
            ReturnTarget { wh_id: l.scrap_wh->0, loc_id: l.scrap_loc->0, status: StockStatus::Scrapped },
        ),
        (l.scrap_wh is None || l.scrap_loc is None) ==> return_target("TO_SCRAP"@, l) is Err,
        return_target("TO_SUPPLIER_RETURN"@, l) is Ok,
        return_target("TO_SUPPLIER_RETURN"@, l)->Ok_0.status == StockStatus::Bad,
        (l.defect_wh matches Some(w) ==> return_target("TO_SUPPLIER_RETURN"@, l)->Ok_0.wh_id == w),
        (l.defect_wh is None ==> return_target("TO_SUPPLIER_RETURN"@, l)->Ok_0.wh_id == l.return_wh),
        (l.defect_loc matches Some(c) ==> return_target("TO_SUPPLIER_RETURN"@, l)->Ok_0.loc_id == c),
        (l.defect_loc is None ==> return_target("TO_SUPPLIER_RETURN"@, l)->Ok_0.loc_id == l.return_loc),
        return_target("TO_CHECK"@, l) == Ok::<ReturnTarget, Seq<char>>(
            ReturnTarget { wh_id: l.return_wh, loc_id: l.return_loc, status: StockStatus::ToCheck },
        ),
{
    reveal_strlit("RETURN_TO_STOCK");
    reveal_strlit("TO_DEFECT");
    reveal_strlit("TO_SCRAP");
    reveal_strlit("TO_SUPPLIER_RETURN");
    reveal_strlit("TO_CHECK");
    assert("TO_CHECK"@[3] != "TO_SCRAP"@[3]);
    assert("TO_DEFECT"@.len() != "RETURN_TO_STOCK"@.len());
    assert("TO_SCRAP"@.len() != "RETURN_TO_STOCK"@.len());
    assert("TO_SCRAP"@.len() != "TO_DEFECT"@.len());
    assert("TO_SUPPLIER_RETURN"@.len() != "RETURN_TO_STOCK"@.len());
    assert("TO_SUPPLIER_RETURN"@.len() != "TO_DEFECT"@.len());
    assert("TO_SUPPLIER_RETURN"@.len() != "TO_SCRAP"@.len());
    assert("TO_CHECK"@.len() != "RETURN_TO_STOCK"@.len());
    assert("TO_CHECK"@.len() != "TO_DEFECT"@.len());
    assert("TO_CHECK"@.len() != "TO_SUPPLIER_RETURN"@.len());
}

/// The dates of a customer-return search bound the return date, both ends
/// included: `date_from` adds the condition ` and h.return_date >= $N` (a
/// lower bound) and `date_to` the condition ` and h.return_date <= $N` (an
/// upper bound), each binding its day, and each only when set.
pub proof fn law_return_date_bounds(q: QueryCustomerReturns)
    ensures
        customer_return_filters(q).len() == 5,
        customer_return_filters(q)[3] == (match q.date_from {
            Some(d) => Some(SpecClause { parts: seq![(" and h.return_date >= "@, BindSpec::Date(d))], tail: Seq::empty() }),
            None => None,
        }),
        customer_return_filters(q)[4] == (match q.date_to {
            Some(d) => Some(SpecClause { parts: seq![(" and h.return_date <= "@, BindSpec::Date(d))], tail: Seq::empty() }),
            None => None,
        }),
{
}

/// A search by start date alone reads: the list, ` and h.return_date >= $1`,
/// the ordering; its one value is the day.
pub proof fn law_return_search_from_date(d: Day)
    ensures
        built(
            CUSTOMER_RETURN_LIST@,
            customer_return_filters(QueryCustomerReturns {
                return_no: None,
                customer_id: None,
                doc_status: None,
                date_from: Some(d),
                date_to: None,
            }),
            " order by h.return_date desc, h.id desc limit 500"@,
        ) == (
            CUSTOMER_RETURN_LIST@ + " and h.return_date >= $1"@ + " order by h.return_date desc, h.id desc limit 500"@,
            seq![BindSpec::Date(d)],
        ),
{
    let q = QueryCustomerReturns { return_no: None, customer_id: None, doc_status: None, date_from: Some(d), date_to: None };
    let fs = customer_return_filters(q);
    let st0 = (CUSTOMER_RETURN_LIST@, Seq::<BindSpec>::empty());
    let c = SpecClause { parts: seq![(" and h.return_date >= "@, BindSpec::Date(d))], tail: Seq::<char>::empty() };
    assert(fs[3] == Some(c));
    assert(fs.drop_last() =~= fs.take(4));
    assert(fs.take(4).drop_last() =~= fs.take(3));
    assert(fs.take(3).drop_last() =~= fs.take(2));
    assert(fs.take(2).drop_last() =~= fs.take(1));
    assert(fs.take(1).drop_last() =~= fs.take(0));
    assert(add_filters(st0, fs.take(0)) == st0);
    assert(add_filters(st0, fs.take(1)) == st0);
    assert(add_filters(st0, fs.take(2)) == st0);
    assert(add_filters(st0, fs.take(3)) == st0);
    assert(c.parts.drop_last() =~= Seq::<(Seq<char>, BindSpec)>::empty());
    assert(bind_parts(st0, c.parts.drop_last()) == st0);
    assert(decimal_chars(1) =~= seq!['1']);
    reveal_strlit(" and h.return_date >= ");
    reveal_strlit(" and h.return_date >= $1");
    reveal_strlit("$");
    let a = CUSTOMER_RETURN_LIST@ + " and h.return_date >= "@ + "$"@ + decimal_chars(1);
    assert(bind_parts(st0, c.parts) == (a, seq![BindSpec::Date(d)]));
    assert(add_filters(st0, fs.take(4)) == (a + Seq::<char>::empty(), seq![BindSpec::Date(d)]));
    assert(add_filters(st0, fs) == add_filters(st0, fs.take(4)));
    assert(a + Seq::<char>::empty() =~= CUSTOMER_RETURN_LIST@ + " and h.return_date >= $1"@);
}

/// The judgements a customer-return line may carry: RETURN_TO_STOCK,
/// TO_DEFECT, TO_SCRAP, TO_SUPPLIER_RETURN and TO_CHECK, nothing else; an
/// unjudged line is grouped as TO_CHECK.
pub proof fn law_judge_vocabulary(v: Seq<char>, l: CustomerReturnLineView)
    ensures
        is_judge_method(v) <==> (v == "RETURN_TO_STOCK"@ || v == "TO_DEFECT"@ || v == "TO_SCRAP"@
            || v == "TO_SUPPLIER_RETURN"@ || v == "TO_CHECK"@),
        l.judge_method is None ==> judge_key(l) == "TO_CHECK"@,
        l.judge_method matches Some(j) ==> judge_key(l) == j@,
{
}

} // verus!
