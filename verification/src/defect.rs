//! Defect documents.
//!
//! Defects found at FOG/TP/ASM stage are registered here rather than
//! returned as ordinary material. Four process methods exist:
//! - `TO_BAD_STOCK`: on submit, one transfer moves the stock from
//!   QUALIFIED at its location to BAD at the target location, amounts unchanged;
//! - `TO_DISMANTLE`, `TO_SCRAP`, `TO_REWORK`: submit only completes the
//!   document; the stock moves with the downstream documents.

use vstd::prelude::*;
use crate::error::{business_err, fails_validation, fails_with, validation_err, AppError, ErrorCode};
use crate::inventory::{
    CommitTxnCommand, IoFlag, Qty, StockStatus, TxnLineInput, TxnSideInput, TxnType,
};
use crate::query::{
    binds_view, build_query, built, day_filter, day_spec, eq_filter, filters_view,
    small_filter, text_filter, text_spec, BindSpec, Clause, Day, SpecClause, SqlQuery,
};
use crate::status::{is_open, law_status_text_round_trip, status_of_text, status_text, DocStatus};
use crate::validation::{length_check, names_if_outside, validation_failure, LengthViolation};
use crate::text::{append_int, concat_str, int_chars, length_within, str_eq};

verus! {

// 40xxx
pub const DEF_INVALID_SOURCE: u32 = 40101;
pub const DEF_INVALID_METHOD: u32 = 40102;
pub const DEF_INVALID_STAGE: u32 = 40103;
pub const DEF_EMPTY_LINES: u32 = 40104;
pub const DEF_INVALID_TRANSITION: u32 = 40105;

/// Where a defect was found: IQC, PROD, CUSTOMER_RETURN, OUTSOURCE.
pub open spec fn is_defect_source(v: Seq<char>) -> bool {
    v == "IQC"@ || v == "PROD"@ || v == "CUSTOMER_RETURN"@ || v == "OUTSOURCE"@
}

/// Product stages: RAW, FOG, TP, ASM.
pub open spec fn is_product_stage(v: Seq<char>) -> bool {
    v == "RAW"@ || v == "FOG"@ || v == "TP"@ || v == "ASM"@
}

/// Process methods: TO_BAD_STOCK, TO_DISMANTLE, TO_SCRAP, TO_REWORK.
pub open spec fn is_process_method(v: Seq<char>) -> bool {
    v == "TO_BAD_STOCK"@ || v == "TO_DISMANTLE"@ || v == "TO_SCRAP"@ || v == "TO_REWORK"@
}

pub fn is_valid_source(v: &str) -> (r: bool)
    ensures
        r == is_defect_source(v@),
{
    str_eq(v, "IQC") || str_eq(v, "PROD") || str_eq(v, "CUSTOMER_RETURN") || str_eq(v, "OUTSOURCE")
}

pub fn is_valid_stage(v: &str) -> (r: bool)
    ensures
        r == is_product_stage(v@),
{
    str_eq(v, "RAW") || str_eq(v, "FOG") || str_eq(v, "TP") || str_eq(v, "ASM")
}

pub fn is_valid_method(v: &str) -> (r: bool)
    ensures
        r == is_process_method(v@),
{
    str_eq(v, "TO_BAD_STOCK") || str_eq(v, "TO_DISMANTLE") || str_eq(v, "TO_SCRAP") || str_eq(
        v,
        "TO_REWORK",
    )
}

/// Constructors of the defect module's business errors.
pub struct DefectError;

impl DefectError {
    pub fn invalid_source(v: &str) -> (r: AppError)
        ensures
            business_err(r, DEF_INVALID_SOURCE, "未知不良来源: "@ + v@),
    {
        AppError::business(ErrorCode::custom(DEF_INVALID_SOURCE), concat_str("未知不良来源: ", v))
    }

    pub fn invalid_method(v: &str) -> (r: AppError)
        ensures
            business_err(r, DEF_INVALID_METHOD, "未知不良处理方式: "@ + v@),
    {
        AppError::business(ErrorCode::custom(DEF_INVALID_METHOD), concat_str("未知不良处理方式: ", v))
    }

    pub fn invalid_stage(v: &str) -> (r: AppError)
        ensures
            business_err(r, DEF_INVALID_STAGE, "未知产品阶段: "@ + v@),
    {
        AppError::business(ErrorCode::custom(DEF_INVALID_STAGE), concat_str("未知产品阶段: ", v))
    }

    pub fn empty_lines() -> (r: AppError)
        ensures
            business_err(r, DEF_EMPTY_LINES, "不良行不能为空"@),
    {
        AppError::business(ErrorCode::custom(DEF_EMPTY_LINES), "不良行不能为空".to_owned())
    }

    pub fn invalid_transition(from: &str, action: &str) -> (r: AppError)
        ensures
            business_err(
                r,
                DEF_INVALID_TRANSITION,
                "不良单当前状态 "@ + from@ + " 不允许 "@ + action@,
            ),
    {
        let mut m = "不良单当前状态 ".to_owned();
        m.append(from);
        m.append(" 不允许 ");
        m.append(action);
        AppError::business(ErrorCode::custom(DEF_INVALID_TRANSITION), m)
    }
}

// -- create ------------------------------------------------------------------

#[derive(Debug, Clone, PartialEq, Eq)]
pub struct CreateDefectLine {
    pub line_no: i32,
    pub material_id: i64,
    pub batch_no: String,
    pub qty: Qty,
    pub unit: String,
    pub defect_reason: String,
    pub defect_desc: Option<String>,
    pub source_doc_type: Option<String>,
    pub source_doc_no: Option<String>,
    pub note: Option<String>,
}

#[derive(Debug, Clone, PartialEq, Eq)]
pub struct CreateDefectCommand {
    pub defect_source: String,
    pub work_order_no: Option<String>,
    pub process_name: Option<String>,
    pub product_stage: String,
    /// The day the defect was found.
    pub found_date: Day,
    pub finder_name: Option<String>,
    pub process_method: String,
    pub remark: Option<String>,
    /// Where the material stands now; submit moves it out of there.
    pub source_wh_id: i64,
    pub source_loc_id: i64,
    /// Where `TO_BAD_STOCK` moves the material.
    pub target_wh_id: Option<i64>,
    pub target_loc_id: Option<i64>,
    pub lines: Vec<CreateDefectLine>,
}

/// Unit 1..=30 and reason 1..=50 characters.
pub open spec fn defect_line_fields_ok(l: CreateDefectLine) -> bool {
    length_within(l.unit@, 1, 30) && length_within(l.defect_reason@, 1, 50)
}

pub open spec fn defect_line_ok(l: CreateDefectLine) -> bool {
    defect_line_fields_ok(l) && l.qty.spec_positive()
}

pub open spec fn defect_lines_ok_upto(lines: Seq<CreateDefectLine>, n: int) -> bool {
    forall|i: int| 0 <= i < n ==> #[trigger] defect_line_ok(lines[i])
}

/// The error of a refused line.
pub open spec fn defect_line_error(l: CreateDefectLine, e: AppError) -> bool {
    if !defect_line_fields_ok(l) {
        e is Validation && names_if_outside(e, "unit"@, l.unit@, 1, 30) && names_if_outside(e, "defect_reason"@, l.defect_reason@, 1, 50)
    } else {
        validation_err(e, "数量必须 > 0"@)
    }
}

/// Whether a defect document may be created. In order: a known source, a
/// known stage, a known method, at least one line, then every line with unit
/// 1..=30 and reason 1..=50 characters and a quantity above zero; the first
/// failing check decides the error.
pub fn check_create_defect(cmd: &CreateDefectCommand) -> (r: Result<(), AppError>)
    ensures
        !is_defect_source(cmd.defect_source@) ==> fails_with(
            r,
            DEF_INVALID_SOURCE,
            "未知不良来源: "@ + cmd.defect_source@,
        ),
        is_defect_source(cmd.defect_source@) && !is_product_stage(cmd.product_stage@) ==> fails_with(
            r,
            DEF_INVALID_STAGE,
            "未知产品阶段: "@ + cmd.product_stage@,
        ),
        is_defect_source(cmd.defect_source@) && is_product_stage(cmd.product_stage@)
            && !is_process_method(cmd.process_method@) ==> fails_with(
            r,
            DEF_INVALID_METHOD,
            "未知不良处理方式: "@ + cmd.process_method@,
        ),
        is_defect_source(cmd.defect_source@) && is_product_stage(cmd.product_stage@)
            && is_process_method(cmd.process_method@) && cmd.lines@.len() == 0 ==> fails_with(
            r,
            DEF_EMPTY_LINES,
            "不良行不能为空"@,
        ),
        is_defect_source(cmd.defect_source@) && is_product_stage(cmd.product_stage@)
            && is_process_method(cmd.process_method@) && cmd.lines@.len() > 0 ==> {
            &&& (r is Ok <==> defect_lines_ok_upto(cmd.lines@, cmd.lines@.len() as int))
            &&& forall|i: int|
                0 <= i < cmd.lines@.len() && defect_lines_ok_upto(cmd.lines@, i) && !defect_line_ok(
                    cmd.lines@[i],
                ) ==> #[trigger] defect_line_error(cmd.lines@[i], r->Err_0)
        },
{
    if !is_valid_source(cmd.defect_source.as_str()) {
        return Err(DefectError::invalid_source(cmd.defect_source.as_str()));
    }
    if !is_valid_stage(cmd.product_stage.as_str()) {
        return Err(DefectError::invalid_stage(cmd.product_stage.as_str()));
    }
    if !is_valid_method(cmd.process_method.as_str()) {
        return Err(DefectError::invalid_method(cmd.process_method.as_str()));
    }
    let n = cmd.lines.len();
    if n == 0 {
        return Err(DefectError::empty_lines());
    }
    let ghost lines = cmd.lines@;
    let mut i: usize = 0;
    while i < n
        invariant
            n == lines.len(),
            lines == cmd.lines@,
            i <= n,
            is_defect_source(cmd.defect_source@),
            is_product_stage(cmd.product_stage@),
            is_process_method(cmd.process_method@),
            defect_lines_ok_upto(lines, i as int),
        decreases n - i,
    {
        let l = &cmd.lines[i];
        let mut violations: Vec<LengthViolation> = Vec::new();
        length_check(&mut violations, "unit", &l.unit, 1, 30);
        length_check(&mut violations, "defect_reason", &l.defect_reason, 1, 50);
        if violations.len() > 0 {
            proof { lemma_first_bad_defect_line(lines, i as int); }
            return Err(validation_failure(&violations));
        }
        if !l.qty.is_positive() {
            proof { lemma_first_bad_defect_line(lines, i as int); }
            return Err(AppError::validation("数量必须 > 0".to_owned()));
        }
        i += 1;
    }
    Ok(())
}

proof fn lemma_first_bad_defect_line(lines: Seq<CreateDefectLine>, i: int)
    requires
        0 <= i < lines.len(),
        defect_lines_ok_upto(lines, i),
        !defect_line_ok(lines[i]),
    ensures
        forall|k: int|
            0 <= k < lines.len() && defect_lines_ok_upto(lines, k) && !defect_line_ok(lines[k])
                ==> k == i,
        !defect_lines_ok_upto(lines, lines.len() as int),
{
    assert(!defect_line_ok(lines[i]));
    assert forall|k: int|
        0 <= k < lines.len() && defect_lines_ok_upto(lines, k) && !defect_line_ok(
            lines[k],
        ) implies k == i by {
        if k < i {
            assert(defect_line_ok(lines[k]));
        } else if k > i {
            assert(defect_line_ok(lines[i]));
        }
    }
}

// -- submit ------------------------------------------------------------------

/// A stored defect line, as submit reads it.
#[derive(Debug, Clone, PartialEq, Eq)]
pub struct DefectLineView {
    pub id: i64,
    pub line_no: i32,
    pub material_id: i64,
    pub material_code: Option<String>,
    pub batch_no: String,
    pub qty: Qty,
    pub unit: String,
    pub defect_reason: String,
    pub defect_desc: Option<String>,
    pub source_doc_type: Option<String>,
    pub source_doc_no: Option<String>,
    pub target_status: Option<String>,
    pub note: Option<String>,
}

/// A stored defect document, as submit reads it.
#[derive(Debug, Clone, PartialEq, Eq)]
pub struct DefectHead {
    pub id: i64,
    pub defect_no: String,
    pub defect_source: String,
    pub product_stage: String,
    pub process_method: String,
    pub doc_status: String,
    pub remark: Option<String>,
    pub lines: Vec<DefectLineView>,
}

/// What a submit reports.
#[derive(Debug, Clone, PartialEq, Eq)]
pub struct SubmitDefectResult {
    pub defect_id: i64,
    pub defect_no: String,
    pub txn_no: Option<String>,
    pub doc_status: String,
    pub message: String,
}

/// The message reported after a submit, by process method.
pub open spec fn submit_message(method: Seq<char>) -> Seq<char> {
    if method == "TO_BAD_STOCK"@ {
        "库存已转入不良仓"@
    } else if method == "TO_DISMANTLE"@ {
        "已登记,请在拆解回收单中处理"@
    } else if method == "TO_SCRAP"@ {
        "已登记,请在报废单中处理"@
    } else if method == "TO_REWORK"@ {
        "已登记,物料留在原仓位返工"@
    } else {
        "已完成"@
    }
}

pub fn defect_submit_message(method: &str) -> (r: String)
    ensures
        r@ == submit_message(method@),
{
    if str_eq(method, "TO_BAD_STOCK") {
        "库存已转入不良仓".to_owned()
    } else if str_eq(method, "TO_DISMANTLE") {
        "已登记,请在拆解回收单中处理".to_owned()
    } else if str_eq(method, "TO_SCRAP") {
        "已登记,请在报废单中处理".to_owned()
    } else if str_eq(method, "TO_REWORK") {
        "已登记,物料留在原仓位返工".to_owned()
    } else {
        "已完成".to_owned()
    }
}

/// Line `k` of the transfer planned for a defect: for defect line `j`, line
/// `2j` takes the quantity OUT of QUALIFIED and line `2j+1` puts it IN to
/// BAD, with line numbers `2j+1` and `2j+2`.
pub open spec fn transfer_line_matches(d: DefectLineView, t: TxnLineInput, k: int) -> bool {
    &&& t.line_no == k + 1
    &&& t.material_id == d.material_id
    &&& t.batch_no@ == d.batch_no@
    &&& t.qty == d.qty
    &&& t.unit@ == d.unit@
    &&& t.io_flag == (if k % 2 == 0 { IoFlag::Out } else { IoFlag::In })
    &&& t.source_material_id is None
    &&& t.target_material_id is None
    &&& t.stock_status == Some(if k % 2 == 0 { StockStatus::Qualified } else { StockStatus::Bad })
    &&& t.status_change_flag
    &&& t.location_change_flag
    &&& !t.item_change_flag
    &&& !t.recoverable_flag
    &&& !t.scrap_flag
    &&& t.note matches Some(n) && n@ == d.defect_reason@
}

pub open spec fn transfer_lines_match(ds: Seq<DefectLineView>, ts: Seq<TxnLineInput>) -> bool {
    &&& ts.len() == 2 * ds.len()
    &&& forall|k: int| 0 <= k < ts.len() ==> #[trigger] transfer_line_matches(ds[k / 2], ts[k], k)
}

fn transfer_line(d: &DefectLineView, line_no: i32, out: bool) -> (t: TxnLineInput)
    ensures
        t.line_no == line_no,
        t.material_id == d.material_id,
        t.batch_no@ == d.batch_no@,
        t.qty == d.qty,
        t.unit@ == d.unit@,
        t.io_flag == (if out { IoFlag::Out } else { IoFlag::In }),
        t.source_material_id is None,
        t.target_material_id is None,
        t.stock_status == Some(if out { StockStatus::Qualified } else { StockStatus::Bad }),
        t.status_change_flag,
        t.location_change_flag,
        !t.item_change_flag,
        !t.recoverable_flag,
        !t.scrap_flag,
        t.note matches Some(n) && n@ == d.defect_reason@,
{
    TxnLineInput {
        line_no,
        material_id: d.material_id,
        batch_no: d.batch_no.clone(),
        qty: d.qty,
        unit: d.unit.clone(),
        io_flag: if out { IoFlag::Out } else { IoFlag::In },
        source_material_id: None,
        target_material_id: None,
        stock_status: Some(if out { StockStatus::Qualified } else { StockStatus::Bad }),
        status_change_flag: true,
        location_change_flag: true,
        item_change_flag: false,
        recoverable_flag: false,
        scrap_flag: false,
        note: Some(d.defect_reason.clone()),
    }
}

/// The lines of the transfer that moves a defect's stock from QUALIFIED to
/// BAD: an OUT line and an IN line per defect line, same batch, same
/// quantity, numbered from 1.
pub fn transfer_lines(lines: &Vec<DefectLineView>) -> (r: Vec<TxnLineInput>)
    requires
        lines@.len() < 0x4000_0000,
    ensures
        transfer_lines_match(lines@, r@),
{
    let n = lines.len();
    let mut out: Vec<TxnLineInput> = Vec::new();
    let mut i: usize = 0;
    while i < n
        invariant
            n == lines@.len(),
            n < 0x4000_0000,
            i <= n,
            out@.len() == 2 * i,
            forall|k: int| 0 <= k < out@.len() ==> #[trigger] transfer_line_matches(lines@[k / 2], out@[k], k),
        decreases n - i,
    {
        let d = &lines[i];
        let no: i32 = (2 * i + 1) as i32;
        let a = transfer_line(d, no, true);
        let b = transfer_line(d, no + 1, false);
        let ghost prev = out@;
        out.push(a);
        out.push(b);
        proof {
            assert forall|k: int| 0 <= k < out@.len() implies #[trigger] transfer_line_matches(lines@[k / 2], out@[k], k) by {
                if k < 2 * i {
                    assert(out@[k] == prev[k]);
                }
            }
        }
        i += 1;
    }
    out
}

/// The stored locations of a defect document.
#[derive(Debug, Clone, Copy, PartialEq, Eq)]
pub struct DefectLocations {
    pub source_wh_id: i64,
    pub source_loc_id: i64,
    pub target_wh_id: Option<i64>,
    pub target_loc_id: Option<i64>,
}

/// The four location fields kept with a defect document: source warehouse,
/// source location, target warehouse, target location.
pub type LocationFields = (Option<i64>, Option<i64>, Option<i64>, Option<i64>);

/// The locations as read back from the kept fields; the source location is
/// required, and a missing part is named in the error.
pub open spec fn defect_locations_read(f: LocationFields) -> Result<DefectLocations, Seq<char>> {
    match (f.0, f.1) {
        (None, _) => Err("source_wh_id 缺失"@),
        (Some(_), None) => Err("source_loc_id 缺失"@),
        (Some(w), Some(l)) => Ok(DefectLocations { source_wh_id: w, source_loc_id: l, target_wh_id: f.2, target_loc_id: f.3 }),
    }
}

/// The location fields a new defect document keeps, from its command.
pub open spec fn stored_defect_locations(cmd: CreateDefectCommand) -> LocationFields {
    (Some(cmd.source_wh_id), Some(cmd.source_loc_id), cmd.target_wh_id, cmd.target_loc_id)
}

/// The location fields to keep with a new defect document.
pub fn defect_location_fields(cmd: &CreateDefectCommand) -> (r: LocationFields)
    ensures
        r == stored_defect_locations(*cmd),
{
    (Some(cmd.source_wh_id), Some(cmd.source_loc_id), cmd.target_wh_id, cmd.target_loc_id)
}

/// The locations read back from storage; the source location is required.
pub fn read_defect_locations(
    source_wh_id: Option<i64>,
    source_loc_id: Option<i64>,
    target_wh_id: Option<i64>,
    target_loc_id: Option<i64>,
) -> (r: Result<DefectLocations, AppError>)
    ensures
        match defect_locations_read((source_wh_id, source_loc_id, target_wh_id, target_loc_id)) {
            Ok(l) => r == Ok::<DefectLocations, AppError>(l),
            Err(msg) => fails_validation(r, msg),
        },
{
    let source_wh_id = match source_wh_id {
        Some(v) => v,
        None => return Err(AppError::validation("source_wh_id 缺失".to_owned())),
    };
    let source_loc_id = match source_loc_id {
        Some(v) => v,
        None => return Err(AppError::validation("source_loc_id 缺失".to_owned())),
    };
    Ok(DefectLocations { source_wh_id, source_loc_id, target_wh_id, target_loc_id })
}

/// `c` is the transfer of a `TO_BAD_STOCK` defect: from QUALIFIED at the
/// source location to BAD at the target location, one OUT and one IN line
/// per defect line, marked as a DEFECT exception with the source and stage
/// in its snapshot.
pub open spec fn bad_stock_command(head: DefectHead, locs: DefectLocations, c: CommitTxnCommand) -> bool {
    &&& c.txn_type == TxnType::Transfer
    &&& c.scene_code@ == "DEFECT_TO_BAD"@
    &&& c.scene_name matches Some(n) && n@ == "不良转不良库"@
    &&& c.doc_type@ == "DEFECT"@
    &&& c.doc_no@ == head.defect_no@
    &&& c.source_object_type is None
    &&& c.source_object_id is None
    &&& c.target_object_type is None
    &&& c.target_object_id is None
    &&& c.source == Some(TxnSideInput {
        wh_id: locs.source_wh_id,
        loc_id: locs.source_loc_id,
        status: Some(StockStatus::Qualified),
    })
    &&& c.target == Some(TxnSideInput {
        wh_id: locs.target_wh_id->0,
        loc_id: locs.target_loc_id->0,
        status: Some(StockStatus::Bad),
    })
    &&& transfer_lines_match(head.lines@, c.lines@)
    &&& c.is_exception
    &&& c.exception_type matches Some(t) && t@ == "DEFECT"@
    &&& c.related_doc_no is None
    &&& c.snapshot matches Some(kv) && kv@.len() == 2 && kv@[0].0@ == "defect_source"@
        && kv@[0].1@ == head.defect_source@ && kv@[1].0@ == "product_stage"@ && kv@[1].1@
        == head.product_stage@
    &&& c.remark == head.remark
}

/// Plans the transfer of a `TO_BAD_STOCK` defect; the target location must
/// be known.
pub fn plan_bad_stock_transfer(head: &DefectHead, locs: &DefectLocations) -> (r: Result<CommitTxnCommand, AppError>)
    requires
        head.lines@.len() < 0x4000_0000,
    ensures
        locs.target_wh_id is None ==> fails_validation(r, "TO_BAD_STOCK 必须指定 target_wh_id"@,
        ),
        locs.target_wh_id is Some && locs.target_loc_id is None ==> fails_validation(r, "TO_BAD_STOCK 必须指定 target_loc_id"@,
        ),
        locs.target_wh_id is Some && locs.target_loc_id is Some ==> (r matches Ok(c)
            && bad_stock_command(*head, *locs, c)),
{
    let tgt_wh = match locs.target_wh_id {
        Some(v) => v,
        None => return Err(AppError::validation("TO_BAD_STOCK 必须指定 target_wh_id".to_owned())),
    };
    let tgt_loc = match locs.target_loc_id {
        Some(v) => v,
        None => return Err(AppError::validation("TO_BAD_STOCK 必须指定 target_loc_id".to_owned())),
    };
    let lines = transfer_lines(&head.lines);
    let mut snapshot: Vec<(String, String)> = Vec::new();
    snapshot.push(("defect_source".to_owned(), head.defect_source.clone()));
    snapshot.push(("product_stage".to_owned(), head.product_stage.clone()));
    Ok(CommitTxnCommand {
        txn_type: TxnType::Transfer,
        scene_code: "DEFECT_TO_BAD".to_owned(),
        scene_name: Some("不良转不良库".to_owned()),
        doc_type: "DEFECT".to_owned(),
        doc_no: head.defect_no.clone(),
        source_object_type: None,
        source_object_id: None,
        target_object_type: None,
        target_object_id: None,
        source: Some(TxnSideInput {
            wh_id: locs.source_wh_id,
            loc_id: locs.source_loc_id,
            status: Some(StockStatus::Qualified),
        }),
        target: Some(TxnSideInput { wh_id: tgt_wh, loc_id: tgt_loc, status: Some(StockStatus::Bad) }),
        lines,
        is_exception: true,
        exception_type: Some("DEFECT".to_owned()),
        related_doc_no: None,
        snapshot: Some(snapshot),
        remark: head.remark.clone(),
    })
}

// -- the submit conversation -------------------------------------------------

/// Where a defect submit stands.
#[derive(Debug, Clone, PartialEq, Eq)]
pub enum DefectSubmitState {
    /// The document `id` has been asked for.
    AwaitHead { id: i64 },
    /// The stored locations of a `TO_BAD_STOCK` document have been asked for.
    AwaitLocations { id: i64, head: DefectHead },
    /// The transfer has been handed to the inventory engine.
    AwaitCommit { id: i64, head: DefectHead },
    /// The document is being marked COMPLETED.
    AwaitStatusUpdate { head: DefectHead, txn_no: Option<String> },
    /// The submit has answered.
    Done,
}

/// What the storage or the inventory engine answered.
#[derive(Debug, Clone, PartialEq, Eq)]
pub enum DefectSubmitEvent {
    /// The document was read.
    HeadLoaded(DefectHead),
    /// The stored locations were read; any of them may be absent.
    LocationsLoaded {
        source_wh_id: Option<i64>,
        source_loc_id: Option<i64>,
        target_wh_id: Option<i64>,
        target_loc_id: Option<i64>,
    },
    /// No document has this id.
    Missing,
    /// The transfer was committed under this number.
    Committed(String),
    /// The new status was stored.
    StatusUpdated,
    /// The storage or the inventory engine failed.
    Failed(AppError),
}

/// What to do next.
#[derive(Debug, Clone, PartialEq, Eq)]
pub enum DefectSubmitAction {
    LoadHead(i64),
    LoadLocations(i64),
    Commit(CommitTxnCommand),
    UpdateStatus { id: i64, status: DocStatus },
    Finish(SubmitDefectResult),
    Fail(AppError),
}

pub open spec fn not_found_message(id: i64) -> Seq<char> {
    "不良单 id="@ + int_chars(id as int) + " 不存在"@
}

fn not_found(id: i64) -> (e: AppError)
    ensures
        e matches AppError::NotFound(m) && m@ == not_found_message(id),
{
    let mut m = "不良单 id=".to_owned();
    append_int(&mut m, id);
    m.append(" 不存在");
    AppError::not_found(m)
}

/// The head's stored status allows a submit.
pub open spec fn head_open(head: DefectHead) -> bool {
    status_of_text(head.doc_status@) matches Some(st) && is_open(st)
}

/// What holds in every state a submit passes through: only documents whose
/// status allows a submit go past the first step, only `TO_BAD_STOCK`
/// documents reach the transfer, and a transfer number exists exactly for them.
pub open spec fn defect_submit_inv(s: DefectSubmitState) -> bool {
    match s {
        DefectSubmitState::AwaitLocations { head, .. } => head_open(head) && head.process_method@
            == "TO_BAD_STOCK"@ && head.lines@.len() < 0x4000_0000,
        DefectSubmitState::AwaitCommit { head, .. } => head_open(head) && head.process_method@
            == "TO_BAD_STOCK"@,
        DefectSubmitState::AwaitStatusUpdate { head, txn_no } => head_open(head) && (txn_no is Some
            <==> head.process_method@ == "TO_BAD_STOCK"@),
        _ => true,
    }
}

/// The result reported once the status was stored.
pub open spec fn submit_result(head: DefectHead, txn_no: Option<String>, r: SubmitDefectResult) -> bool {
    &&& r.defect_id == head.id
    &&& r.defect_no@ == head.defect_no@
    &&& r.txn_no == txn_no
    &&& r.doc_status@ == status_text(DocStatus::Completed)
    &&& r.message@ == submit_message(head.process_method@)
}

pub open spec fn fails_business(a: DefectSubmitAction, code: u32, msg: Seq<char>) -> bool {
    a matches DefectSubmitAction::Fail(e) && business_err(e, code, msg)
}

pub open spec fn fails_validation_msg(a: DefectSubmitAction, msg: Seq<char>) -> bool {
    a matches DefectSubmitAction::Fail(e) && validation_err(e, msg)
}

pub open spec fn fails_invalid(a: DefectSubmitAction) -> bool {
    a matches DefectSubmitAction::Fail(e) && e is Validation
}

pub open spec fn fails_not_found(a: DefectSubmitAction, msg: Seq<char>) -> bool {
    a matches DefectSubmitAction::Fail(AppError::NotFound(m)) && m@ == msg
}

pub open spec fn fails_internal(a: DefectSubmitAction) -> bool {
    a matches DefectSubmitAction::Fail(AppError::Internal(_))
}

pub open spec fn commits(a: DefectSubmitAction, head: DefectHead, locs: DefectLocations) -> bool {
    a matches DefectSubmitAction::Commit(c) && bad_stock_command(head, locs, c)
}

pub open spec fn finishes(a: DefectSubmitAction, head: DefectHead, txn_no: Option<String>) -> bool {
    a matches DefectSubmitAction::Finish(res) && submit_result(head, txn_no, res)
}

/// What one step of the conversation does, by state and answer.
pub open spec fn step_defect_submit_spec(state: DefectSubmitState, event: DefectSubmitEvent, r: (DefectSubmitState, DefectSubmitAction)) -> bool {
    match (state, event) {
        (DefectSubmitState::AwaitHead { id }, DefectSubmitEvent::HeadLoaded(h)) => match status_of_text(h.doc_status@) {
            None => r.0 is Done && fails_invalid(r.1),
            Some(st) => if !is_open(st) {
                r.0 is Done && fails_business(
                    r.1,
                    DEF_INVALID_TRANSITION,
                    "不良单当前状态 "@ + h.doc_status@ + " 不允许 "@ + "submit"@,
                )
            } else if h.process_method@ == "TO_BAD_STOCK"@ {
                r.0 == (DefectSubmitState::AwaitLocations { id, head: h }) && r.1
                    == DefectSubmitAction::LoadLocations(id)
            } else {
                r.0 == (DefectSubmitState::AwaitStatusUpdate { head: h, txn_no: None }) && r.1
                    == (DefectSubmitAction::UpdateStatus { id: h.id, status: DocStatus::Completed })
            },
        },
        (DefectSubmitState::AwaitHead { id }, DefectSubmitEvent::Missing) => r.0 is Done
            && fails_not_found(r.1, not_found_message(id)),
        (DefectSubmitState::AwaitLocations { id, .. }, DefectSubmitEvent::Missing) => r.0 is Done
            && fails_not_found(r.1, not_found_message(id)),
        (
            DefectSubmitState::AwaitLocations { id, head },
            DefectSubmitEvent::LocationsLoaded { source_wh_id, source_loc_id, target_wh_id, target_loc_id },
        ) => if source_wh_id is None {
            r.0 is Done && fails_validation_msg(r.1, "source_wh_id 缺失"@)
        } else if source_loc_id is None {
            r.0 is Done && fails_validation_msg(r.1, "source_loc_id 缺失"@)
        } else if target_wh_id is None {
            r.0 is Done && fails_validation_msg(
                r.1,
                "TO_BAD_STOCK 必须指定 target_wh_id"@,
            )
        } else if target_loc_id is None {
            r.0 is Done && fails_validation_msg(
                r.1,
                "TO_BAD_STOCK 必须指定 target_loc_id"@,
            )
        } else {
            r.0 == (DefectSubmitState::AwaitCommit { id, head }) && commits(
                r.1,
                head,
                DefectLocations {
                    source_wh_id: source_wh_id->0,
                    source_loc_id: source_loc_id->0,
                    target_wh_id,
                    target_loc_id,
                },
            )
        },
        (DefectSubmitState::AwaitCommit { head, .. }, DefectSubmitEvent::Committed(t)) => r.0
            == (DefectSubmitState::AwaitStatusUpdate { head, txn_no: Some(t) }) && r.1
            == (DefectSubmitAction::UpdateStatus { id: head.id, status: DocStatus::Completed }),
        (DefectSubmitState::AwaitStatusUpdate { head, txn_no }, DefectSubmitEvent::StatusUpdated) => r.0 is Done
            && finishes(r.1, head, txn_no),
        (DefectSubmitState::Done, _) => r.0 is Done && fails_internal(r.1),
        (_, DefectSubmitEvent::Failed(e)) => r == (DefectSubmitState::Done, DefectSubmitAction::Fail(e)),
        _ => r.0 is Done && fails_internal(r.1),
    }
}

/// One step of a defect submit: from the state and what was answered, the
/// next state and what to do.
///
/// The stored status must be DRAFT or SUBMITTED; a `TO_BAD_STOCK` document
/// then reads its locations, needs a target location and commits the
/// QUALIFIED -> BAD transfer; every document then becomes COMPLETED and the
/// result reports the transfer number (none for the other methods) and a
/// message by method. Any failure answers at once; an answer that does not
/// fit the state fails as an internal error.
fn step_defect_submit(state: DefectSubmitState, event: DefectSubmitEvent) -> (r: (DefectSubmitState, DefectSubmitAction))
    requires
        event matches DefectSubmitEvent::HeadLoaded(h) ==> h.lines@.len() < 0x4000_0000,
        state matches DefectSubmitState::AwaitLocations { head, .. } ==> head.lines@.len() < 0x4000_0000,
    ensures
        defect_submit_inv(state) ==> defect_submit_inv(r.0),
        r.1 is Commit ==> r.0 is AwaitCommit,
        r.1 is UpdateStatus ==> r.0 is AwaitStatusUpdate && r.1->status == DocStatus::Completed,
        (r.1 is Finish || r.1 is Fail) <==> r.0 is Done,
        (event matches DefectSubmitEvent::Failed(e) && !(state is Done)) ==> r == (DefectSubmitState::Done, DefectSubmitAction::Fail(event->Failed_0)),
        step_defect_submit_spec(state, event, r),

{
    match (state, event) {
        (DefectSubmitState::AwaitHead { id }, DefectSubmitEvent::HeadLoaded(h)) => {
            let st = match DocStatus::parse(h.doc_status.as_str()) {
                Ok(st) => st,
                Err(e) => return (DefectSubmitState::Done, DefectSubmitAction::Fail(e)),
            };
            if !st.can_void() {
                let e = DefectError::invalid_transition(h.doc_status.as_str(), "submit");
                proof { reveal_strlit("submit"); }
                return (DefectSubmitState::Done, DefectSubmitAction::Fail(e));
            }
            if str_eq(h.process_method.as_str(), "TO_BAD_STOCK") {
                (DefectSubmitState::AwaitLocations { id, head: h }, DefectSubmitAction::LoadLocations(id))
            } else {
                let hid = h.id;
                (
                    DefectSubmitState::AwaitStatusUpdate { head: h, txn_no: None },
                    DefectSubmitAction::UpdateStatus { id: hid, status: DocStatus::Completed },
                )
            }
        },
        (DefectSubmitState::AwaitHead { id }, DefectSubmitEvent::Missing) => {
            (DefectSubmitState::Done, DefectSubmitAction::Fail(not_found(id)))
        },
        (DefectSubmitState::AwaitLocations { id, .. }, DefectSubmitEvent::Missing) => {
            (DefectSubmitState::Done, DefectSubmitAction::Fail(not_found(id)))
        },
        (
            DefectSubmitState::AwaitLocations { id, head },
            DefectSubmitEvent::LocationsLoaded { source_wh_id, source_loc_id, target_wh_id, target_loc_id },
        ) => {
            let locs = match read_defect_locations(source_wh_id, source_loc_id, target_wh_id, target_loc_id) {
                Ok(l) => l,
                Err(e) => return (DefectSubmitState::Done, DefectSubmitAction::Fail(e)),
            };
            match plan_bad_stock_transfer(&head, &locs) {
                Ok(c) => (DefectSubmitState::AwaitCommit { id, head }, DefectSubmitAction::Commit(c)),
                Err(e) => (DefectSubmitState::Done, DefectSubmitAction::Fail(e)),
            }
        },
        (DefectSubmitState::AwaitCommit { head, .. }, DefectSubmitEvent::Committed(t)) => {
            let hid = head.id;
            (
                DefectSubmitState::AwaitStatusUpdate { head, txn_no: Some(t) },
                DefectSubmitAction::UpdateStatus { id: hid, status: DocStatus::Completed },
            )
        },
        (DefectSubmitState::AwaitStatusUpdate { head, txn_no }, DefectSubmitEvent::StatusUpdated) => {
            let message = defect_submit_message(head.process_method.as_str());
            let res = SubmitDefectResult {
                defect_id: head.id,
                defect_no: head.defect_no,
                txn_no,
                doc_status: DocStatus::Completed.as_str().to_owned(),
                message,
            };
            (DefectSubmitState::Done, DefectSubmitAction::Finish(res))
        },
        (DefectSubmitState::Done, ev) => {
            (DefectSubmitState::Done, DefectSubmitAction::Fail(AppError::Internal("submit 已结束".to_owned())))
        },
        (_, DefectSubmitEvent::Failed(e)) => (DefectSubmitState::Done, DefectSubmitAction::Fail(e)),
        _ => (DefectSubmitState::Done, DefectSubmitAction::Fail(AppError::Internal("submit 收到不匹配的回应".to_owned()))),
    }
}

/// A submit in progress. Its state is kept whole by the type: the app can
/// only feed it answers and carry out what it asks.
pub struct DefectSubmission {
    state: DefectSubmitState,
}

impl View for DefectSubmission {
    type V = DefectSubmitState;

    closed spec fn view(&self) -> DefectSubmitState {
        self.state
    }
}

impl DefectSubmission {
    #[verifier::type_invariant]
    spec fn well_formed(self) -> bool {
        defect_submit_inv(self.state)
    }

    /// Opens a submit of document `id`: ask for it.
    pub fn start(id: i64) -> (r: (DefectSubmission, DefectSubmitAction))
        ensures
            r.0@ == (DefectSubmitState::AwaitHead { id }),
            r.1 == DefectSubmitAction::LoadHead(id),
    {
        (DefectSubmission { state: DefectSubmitState::AwaitHead { id } }, DefectSubmitAction::LoadHead(id))
    }

    /// Feeds the answer to the last action; gives the next action.
    pub fn step(self, event: DefectSubmitEvent) -> (r: (DefectSubmission, DefectSubmitAction))
        requires
            event matches DefectSubmitEvent::HeadLoaded(h) ==> h.lines@.len() < 0x4000_0000,
        ensures
            step_defect_submit_spec(self@, event, (r.0@, r.1)),
            r.1 is Commit ==> r.0@ is AwaitCommit,
            r.1 is UpdateStatus ==> r.0@ is AwaitStatusUpdate && r.1->status == DocStatus::Completed,
            (r.1 is Finish || r.1 is Fail) <==> r.0@ is Done,
    {
        proof { use_type_invariant(&self); }
        let (st, a) = step_defect_submit(self.state, event);
        (DefectSubmission { state: st }, a)
    }

    /// Whether the submit has answered.
    pub fn is_done(&self) -> (r: bool)
        ensures
            r == self@ is Done,
    {
        matches!(self.state, DefectSubmitState::Done)
    }
}

/// Whether a defect in this stored status may be voided: only DRAFT or
/// SUBMITTED; the status it then takes is VOIDED.
pub fn check_void_defect(doc_status: &str) -> (r: Result<DocStatus, AppError>)
    ensures
        status_of_text(doc_status@) is None ==> r matches Err(AppError::Validation(_)),
        status_of_text(doc_status@) matches Some(st) && is_open(st) ==> r == Ok::<DocStatus, AppError>(DocStatus::Voided),
        (status_of_text(doc_status@) matches Some(st) && !is_open(st)) ==> fails_with(
            r,
            DEF_INVALID_TRANSITION,
            "不良单当前状态 "@ + doc_status@ + " 不允许 "@ + "void"@,
        ),
{
    let st = DocStatus::parse(doc_status)?;
    if !st.can_void() {
        return Err(DefectError::invalid_transition(doc_status, "void"));
    }
    Ok(DocStatus::Voided)
}

/// What a line moves: material, batch and quantity.
pub open spec fn moved(t: TxnLineInput) -> (i64, Seq<char>, Qty) {
    (t.material_id, t.batch_no@, t.qty)
}

/// What the lines with direction `dir` move, in order.
pub open spec fn moves(ts: Seq<TxnLineInput>, dir: IoFlag) -> Seq<(i64, Seq<char>, Qty)>
    decreases ts.len(),
{
    if ts.len() == 0 {
        Seq::empty()
    } else {
        let p = moves(ts.drop_last(), dir);
        if ts.last().io_flag == dir {
            p.push(moved(ts.last()))
        } else {
            p
        }
    }
}

/// A defect transfer takes out exactly what it puts in: its OUT lines and
/// its IN lines move the same material, batch and quantity, line by line,
/// namely those of the defect lines; the stock changes status and place,
/// never amount.
pub proof fn law_transfer_keeps_quantities(ds: Seq<DefectLineView>, ts: Seq<TxnLineInput>)
    requires
        transfer_lines_match(ds, ts),
    ensures
        moves(ts, IoFlag::Out) == moves(ts, IoFlag::In),
        moves(ts, IoFlag::Out) == ds.map_values(|d: DefectLineView| (d.material_id, d.batch_no@, d.qty)),
    decreases ds.len(),
{
    if ds.len() > 0 {
        let n = ts.len();
        let ds2 = ds.drop_last();
        let ts2 = ts.subrange(0, n - 2);
        assert(transfer_lines_match(ds2, ts2)) by {
            assert forall|k: int| 0 <= k < ts2.len() implies #[trigger] transfer_line_matches(ds2[k / 2], ts2[k], k) by {
                assert(transfer_line_matches(ds[k / 2], ts[k], k));
            }
        }
        law_transfer_keeps_quantities(ds2, ts2);
        assert(transfer_line_matches(ds[(n - 2) / 2], ts[n - 2], n - 2));
        assert(transfer_line_matches(ds[(n - 1) / 2], ts[n - 1], n - 1));
        assert((n - 2) % 2 == 0);
        assert((n - 2) / 2 == ds.len() - 1);
        assert((n - 1) / 2 == ds.len() - 1);
        let t1 = ts.drop_last();
        assert(t1.drop_last() =~= ts2);
        assert(t1.last() == ts[n - 2]);
        assert(ts.last() == ts[n - 1]);
        assert(moves(ts, IoFlag::Out) == moves(t1, IoFlag::Out));
        assert(moves(ts, IoFlag::In) == moves(t1, IoFlag::In).push(moved(ts[n - 1])));
        assert(moves(t1, IoFlag::Out) == moves(ts2, IoFlag::Out).push(moved(ts[n - 2])));
        assert(moves(t1, IoFlag::In) == moves(ts2, IoFlag::In));
        assert(moved(ts[n - 2]) == moved(ts[n - 1]));
        assert(ds.map_values(|d: DefectLineView| (d.material_id, d.batch_no@, d.qty)) =~= ds2.map_values(
            |d: DefectLineView| (d.material_id, d.batch_no@, d.qty),
        ).push((ds.last().material_id, ds.last().batch_no@, ds.last().qty)));
    } else {
        assert(ts.len() == 0);
        assert(ds.map_values(|d: DefectLineView| (d.material_id, d.batch_no@, d.qty)) =~= Seq::empty());
    }
}

/// The locations a defect document keeps on create are those its submit
/// reads back: the source location is always there, and nothing changes.
pub proof fn law_defect_locations_read_back(cmd: CreateDefectCommand)
    ensures
        defect_locations_read(stored_defect_locations(cmd)) == Ok::<DefectLocations, Seq<char>>(
            DefectLocations {
                source_wh_id: cmd.source_wh_id,
                source_loc_id: cmd.source_loc_id,
                target_wh_id: cmd.target_wh_id,
                target_loc_id: cmd.target_loc_id,
            },
        ),
{
}

/// A search for defect documents; each field that is set narrows it.
#[derive(Debug, Clone, PartialEq, Eq)]
pub struct QueryDefects {
    pub defect_no: Option<String>,
    pub defect_source: Option<String>,
    pub product_stage: Option<String>,
    pub process_method: Option<String>,
    pub work_order_no: Option<String>,
    pub doc_status: Option<String>,
    pub date_from: Option<Day>,
    pub date_to: Option<Day>,
}

pub const DEFECT_LIST: &'static str = "\n            select h.id, h.defect_no, h.defect_source, h.work_order_no, h.process_name,\n                   h.product_stage, h.found_date, h.finder_name, h.process_method,\n                   h.operator_id, h.doc_status, h.remark, h.created_at, h.updated_at\n              from wms.wms_defect_h h\n             where 1 = 1\n            ";

/// The conditions of a defect search, in the order they are added; the
/// dates bound the day the defect was found, both ends included.
pub open spec fn defect_filters(q: QueryDefects) -> Seq<Option<SpecClause>> {
    seq![
        eq_filter(" and h.defect_no = "@, text_spec(q.defect_no)),
        eq_filter(" and h.defect_source = "@, text_spec(q.defect_source)),
        eq_filter(" and h.product_stage = "@, text_spec(q.product_stage)),
        eq_filter(" and h.process_method = "@, text_spec(q.process_method)),
        eq_filter(" and h.work_order_no = "@, text_spec(q.work_order_no)),
        eq_filter(" and h.doc_status = "@, text_spec(q.doc_status)),
        eq_filter(" and h.found_date >= "@, day_spec(q.date_from)),
        eq_filter(" and h.found_date <= "@, day_spec(q.date_to)),
    ]
}

/// The defect documents that match, latest found first, at most 500.
pub fn defect_list_query(q: &QueryDefects) -> (r: SqlQuery)
    ensures
        (r.sql@, binds_view(r.binds@)) == built(DEFECT_LIST@, defect_filters(*q), " order by h.found_date desc, h.id desc limit 500"@),
{
    let mut fs: Vec<Option<Clause>> = Vec::new();
    fs.push(text_filter(" and h.defect_no = ", &q.defect_no));
    fs.push(text_filter(" and h.defect_source = ", &q.defect_source));
    fs.push(text_filter(" and h.product_stage = ", &q.product_stage));
    fs.push(text_filter(" and h.process_method = ", &q.process_method));
    fs.push(text_filter(" and h.work_order_no = ", &q.work_order_no));
    fs.push(text_filter(" and h.doc_status = ", &q.doc_status));
    fs.push(day_filter(" and h.found_date >= ", q.date_from));
    fs.push(day_filter(" and h.found_date <= ", q.date_to));
    proof {
        assert(filters_view(fs@) =~= defect_filters(*q));
        assert forall|i: int| 0 <= i < fs@.len() implies small_filter(#[trigger] fs@[i]) by {
        }
    }
    build_query(DEFECT_LIST, fs, " order by h.found_date desc, h.id desc limit 500")
}

/// A document that a submit has completed is not submitted twice: a submit
/// finishes by storing COMPLETED, and a later submit that reads that status
/// is refused with the transition error, without any transaction being
/// handed to the inventory engine.
pub proof fn law_completed_defect_not_resubmitted(id: i64, h: DefectHead, r: (DefectSubmitState, DefectSubmitAction))
    requires
        h.doc_status@ == status_text(DocStatus::Completed),
        step_defect_submit_spec(DefectSubmitState::AwaitHead { id }, DefectSubmitEvent::HeadLoaded(h), r),
    ensures
        r.0 is Done,
        fails_business(r.1, DEF_INVALID_TRANSITION, "不良单当前状态 "@ + h.doc_status@ + " 不允许 "@ + "submit"@),
        !(r.1 is Commit),
{
    law_status_text_round_trip(DocStatus::Completed);
}

/// The dates of a defect search bound the day the defect was found, both
/// ends included: `date_from` adds ` and h.found_date >= $N` (a lower bound)
/// and `date_to` adds ` and h.found_date <= $N` (an upper bound), each
/// binding its day, and each only when set.
pub proof fn law_defect_date_bounds(q: QueryDefects)
    ensures
        defect_filters(q).len() == 8,
        defect_filters(q)[6] == (match q.date_from {
            Some(d) => Some(SpecClause { parts: seq![(" and h.found_date >= "@, BindSpec::Date(d))], tail: Seq::empty() }),
            None => None,
        }),
        defect_filters(q)[7] == (match q.date_to {
            Some(d) => Some(SpecClause { parts: seq![(" and h.found_date <= "@, BindSpec::Date(d))], tail: Seq::empty() }),
            None => None,
        }),
{
}

/// The vocabulary of a defect document: sources IQC, PROD, CUSTOMER_RETURN
/// and OUTSOURCE; stages RAW, FOG, TP and ASM; methods TO_BAD_STOCK,
/// TO_DISMANTLE, TO_SCRAP and TO_REWORK; nothing else.
pub proof fn law_defect_vocabulary(v: Seq<char>)
    ensures
        is_defect_source(v) <==> (v == "IQC"@ || v == "PROD"@ || v == "CUSTOMER_RETURN"@ || v == "OUTSOURCE"@),
        is_product_stage(v) <==> (v == "RAW"@ || v == "FOG"@ || v == "TP"@ || v == "ASM"@),
        is_process_method(v) <==> (v == "TO_BAD_STOCK"@ || v == "TO_DISMANTLE"@ || v == "TO_SCRAP"@ || v == "TO_REWORK"@),
{
}

} // verus!
