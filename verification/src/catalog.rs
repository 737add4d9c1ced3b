//! Master data: materials, suppliers and customers, BOMs, process routes,
//! recovery templates and status-flow queries.
//!
//! The functions here decide whether a create or update request may be
//! stored; storing it is the repository's work.

use vstd::prelude::*;
use crate::error::{business_err, fails_with, AppError, ErrorCode};
use crate::inventory::Qty;
use crate::validation::{length_check, names_if_outside, validation_failure, LengthViolation};
use crate::text::{append_int, concat_str, int_chars, length_within, str_eq};

verus! {

// 22000-22099 generic, 22100-22499 business rules.
pub const CAT_GENERIC: u32 = 22000;
pub const CAT_INVALID_CATEGORY: u32 = 22101;
pub const CAT_INVALID_PROCESS_TYPE: u32 = 22102;
pub const CAT_BOM_EMPTY: u32 = 22103;
pub const CAT_ROUTE_EMPTY: u32 = 22104;
pub const CAT_DUPLICATE_STEP: u32 = 22105;
pub const CAT_RECOVERY_TPL_EMPTY: u32 = 22106;

/// The material categories: RAW, SEMI, FINISHED, PUBLIC, RECOVERY, SCRAP.
pub open spec fn is_material_category(v: Seq<char>) -> bool {
    v == "RAW"@ || v == "SEMI"@ || v == "FINISHED"@ || v == "PUBLIC"@ || v == "RECOVERY"@
        || v == "SCRAP"@
}

/// The process types: GG, GF, TP, ASM, FOG, OTHER.
pub open spec fn is_process_type(v: Seq<char>) -> bool {
    v == "GG"@ || v == "GF"@ || v == "TP"@ || v == "ASM"@ || v == "FOG"@ || v == "OTHER"@
}

pub fn is_valid_category(v: &str) -> (r: bool)
    ensures
        r == is_material_category(v@),
{
    str_eq(v, "RAW") || str_eq(v, "SEMI") || str_eq(v, "FINISHED") || str_eq(v, "PUBLIC")
        || str_eq(v, "RECOVERY") || str_eq(v, "SCRAP")
}

pub fn is_valid_process_type(v: &str) -> (r: bool)
    ensures
        r == is_process_type(v@),
{
    str_eq(v, "GG") || str_eq(v, "GF") || str_eq(v, "TP") || str_eq(v, "ASM") || str_eq(v, "FOG")
        || str_eq(v, "OTHER")
}

/// Constructors of the catalog's business errors.
pub struct CatalogError;

impl CatalogError {
    pub fn invalid_category(v: &str) -> (r: AppError)
        ensures
            business_err(r, CAT_INVALID_CATEGORY, "未知的物料类别: "@ + v@),
    {
        AppError::business(ErrorCode::custom(CAT_INVALID_CATEGORY), concat_str("未知的物料类别: ", v))
    }

    pub fn invalid_process_type(v: &str) -> (r: AppError)
        ensures
            business_err(r, CAT_INVALID_PROCESS_TYPE, "未知的工艺类型: "@ + v@),
    {
        AppError::business(ErrorCode::custom(CAT_INVALID_PROCESS_TYPE), concat_str("未知的工艺类型: ", v))
    }

    pub fn bom_empty() -> (r: AppError)
        ensures
            business_err(r, CAT_BOM_EMPTY, "BOM 行不能为空"@),
    {
        AppError::business(ErrorCode::custom(CAT_BOM_EMPTY), "BOM 行不能为空".to_owned())
    }

    pub fn route_empty() -> (r: AppError)
        ensures
            business_err(r, CAT_ROUTE_EMPTY, "工艺路线必须至少一步"@),
    {
        AppError::business(ErrorCode::custom(CAT_ROUTE_EMPTY), "工艺路线必须至少一步".to_owned())
    }

    pub fn duplicate_step(step_no: i32) -> (r: AppError)
        ensures
            business_err(
                r,
                CAT_DUPLICATE_STEP,
                "工序步骤号 "@ + int_chars(step_no as int) + " 重复"@,
            ),
    {
        let mut m = "工序步骤号 ".to_owned();
        append_int(&mut m, step_no as i64);
        m.append(" 重复");
        AppError::business(ErrorCode::custom(CAT_DUPLICATE_STEP), m)
    }

    pub fn recovery_tpl_empty() -> (r: AppError)
        ensures
            business_err(r, CAT_RECOVERY_TPL_EMPTY, "回收模板行不能为空"@),
    {
        AppError::business(ErrorCode::custom(CAT_RECOVERY_TPL_EMPTY), "回收模板行不能为空".to_owned())
    }
}

/// Default of the material flags that are on unless said otherwise.
pub fn default_true() -> (r: bool)
    ensures
        r,
{
    true
}

// -- materials ---------------------------------------------------------------

/// A request to create a material.
#[derive(Debug, Clone, PartialEq, Eq)]
pub struct CreateMaterialCommand {
    pub material_code: String,
    pub material_name: String,
    pub short_name: Option<String>,
    pub material_category: String,
    pub spec_model: Option<String>,
    pub brand: Option<String>,
    pub unit: String,
    pub process_type: Option<String>,
    pub has_ic_flag: bool,
    pub key_material_flag: bool,
    pub public_material_flag: bool,
    pub batch_required_flag: bool,
    pub status_required_flag: bool,
    pub allow_preissue_flag: bool,
    pub allow_outsource_flag: bool,
    pub allow_recovery_flag: bool,
    pub default_wh_id: Option<i64>,
    pub default_loc_id: Option<i64>,
    pub default_status: Option<String>,
    pub safety_stock: Qty,
    pub min_stock: Qty,
    /// JSON text of the extra attributes, if any.
    pub extra_attrs: Option<String>,
    pub remark: Option<String>,
}

/// A request to update a material.
#[derive(Debug, Clone, PartialEq, Eq)]
pub struct UpdateMaterialCommand {
    pub material_name: String,
    pub short_name: Option<String>,
    pub material_category: String,
    pub spec_model: Option<String>,
    pub brand: Option<String>,
    pub unit: String,
    pub process_type: Option<String>,
    pub has_ic_flag: bool,
    pub key_material_flag: bool,
    pub public_material_flag: bool,
    pub batch_required_flag: bool,
    pub status_required_flag: bool,
    pub allow_preissue_flag: bool,
    pub allow_outsource_flag: bool,
    pub allow_recovery_flag: bool,
    pub default_wh_id: Option<i64>,
    pub default_loc_id: Option<i64>,
    pub default_status: Option<String>,
    pub safety_stock: Qty,
    pub min_stock: Qty,
    pub extra_attrs: Option<String>,
    pub is_active: bool,
    pub remark: Option<String>,
}

/// Filters and paging of the material list.
#[derive(Debug, Clone, PartialEq, Eq)]
pub struct QueryMaterials {
    pub keyword: Option<String>,
    pub material_category: Option<String>,
    pub process_type: Option<String>,
    pub brand: Option<String>,
    pub is_active: Option<bool>,
    pub page: u32,
    pub size: u32,
}

pub open spec fn create_material_fields_ok(c: CreateMaterialCommand) -> bool {
    length_within(c.material_code@, 1, 100) && length_within(c.material_name@, 1, 200)
        && length_within(c.unit@, 1, 30)
}

pub open spec fn update_material_fields_ok(c: UpdateMaterialCommand) -> bool {
    length_within(c.material_name@, 1, 200) && length_within(c.unit@, 1, 30)
}

/// What a material's category and process type are checked against, once
/// its fields have the right lengths.
pub open spec fn material_rule_result(category: Seq<char>, process_type: Option<String>, r: Result<(), AppError>) -> bool {
    if !is_material_category(category) {
        r matches Err(e) && business_err(e, CAT_INVALID_CATEGORY, "未知的物料类别: "@ + category)
    } else if process_type matches Some(pt) && !is_process_type(pt@) {
        r matches Err(e) && business_err(e, CAT_INVALID_PROCESS_TYPE, "未知的工艺类型: "@ + process_type->0@)
    } else {
        r is Ok
    }
}

fn check_material_rules(category: &String, process_type: &Option<String>) -> (r: Result<(), AppError>)
    ensures
        material_rule_result(category@, *process_type, r),
{
    if !is_valid_category(category.as_str()) {
        return Err(CatalogError::invalid_category(category.as_str()));
    }
    if let Some(pt) = process_type {
        if !is_valid_process_type(pt.as_str()) {
            return Err(CatalogError::invalid_process_type(pt.as_str()));
        }
    }
    Ok(())
}

/// Whether a material may be created: code 1..=100, name 1..=200 and unit
/// 1..=30 characters, a known category and, when given, a known process type.
pub fn check_create_material(cmd: &CreateMaterialCommand) -> (r: Result<(), AppError>)
    ensures
        !create_material_fields_ok(*cmd) ==> (r is Err
            && names_if_outside(r->Err_0, "material_code"@, cmd.material_code@, 1, 100)
            && names_if_outside(r->Err_0, "material_name"@, cmd.material_name@, 1, 200)
            && names_if_outside(r->Err_0, "unit"@, cmd.unit@, 1, 30)),
        !create_material_fields_ok(*cmd) ==> r matches Err(AppError::Validation(_)),
        create_material_fields_ok(*cmd) ==> material_rule_result(
            cmd.material_category@,
            cmd.process_type,
            r,
        ),
{
    let mut violations: Vec<LengthViolation> = Vec::new();
    length_check(&mut violations, "material_code", &cmd.material_code, 1, 100);
    length_check(&mut violations, "material_name", &cmd.material_name, 1, 200);
    length_check(&mut violations, "unit", &cmd.unit, 1, 30);
    if violations.len() > 0 {
        return Err(validation_failure(&violations));
    }
    check_material_rules(&cmd.material_category, &cmd.process_type)
}

/// The answer for a material id that no row holds.
pub open spec fn material_missing_message(id: i64) -> Seq<char> {
    "物料 id="@ + int_chars(id as int) + " 不存在"@
}

/// The not-found error for material `id`.
pub fn material_missing(id: i64) -> (r: AppError)
    ensures
        r matches AppError::NotFound(m) && m@ == material_missing_message(id),
{
    let mut m = "物料 id=".to_owned();
    append_int(&mut m, id);
    m.append(" 不存在");
    AppError::not_found(m)
}

/// The outcome of updating material `id`, by the number of rows the update
/// touched: none means no such material.
pub fn material_update_result(id: i64, rows: u64) -> (r: Result<(), AppError>)
    ensures
        rows == 0 ==> (r matches Err(AppError::NotFound(m)) && m@ == material_missing_message(id)),
        rows > 0 ==> r is Ok,
{
    if rows == 0 { Err(material_missing(id)) } else { Ok(()) }
}

/// The extra attributes stored with a material: the JSON text given, else
/// an empty JSON object.
pub fn extra_attrs_or_empty(extra: &Option<String>) -> (r: String)
    ensures
        r@ == (match extra {
            Some(t) => t@,
            None => "{}"@,
        }),
{
    match extra {
        Some(t) => t.clone(),
        None => "{}".to_owned(),
    }
}

/// Whether a material may be updated: name 1..=200 and unit 1..=30
/// characters, a known category and, when given, a known process type.
pub fn check_update_material(cmd: &UpdateMaterialCommand) -> (r: Result<(), AppError>)
    ensures
        !update_material_fields_ok(*cmd) ==> (r is Err
            && names_if_outside(r->Err_0, "material_name"@, cmd.material_name@, 1, 200)
            && names_if_outside(r->Err_0, "unit"@, cmd.unit@, 1, 30)),
        !update_material_fields_ok(*cmd) ==> r matches Err(AppError::Validation(_)),
        update_material_fields_ok(*cmd) ==> material_rule_result(
            cmd.material_category@,
            cmd.process_type,
            r,
        ),
{
    let mut violations: Vec<LengthViolation> = Vec::new();
    length_check(&mut violations, "material_name", &cmd.material_name, 1, 200);
    length_check(&mut violations, "unit", &cmd.unit, 1, 30);
    if violations.len() > 0 {
        return Err(validation_failure(&violations));
    }
    check_material_rules(&cmd.material_category, &cmd.process_type)
}

// -- suppliers and customers -------------------------------------------------

#[derive(Debug, Clone, PartialEq, Eq)]
pub struct CreateSupplierCommand {
    pub supplier_code: String,
    pub supplier_name: String,
    pub contact_name: Option<String>,
    pub contact_phone: Option<String>,
    pub address: Option<String>,
    pub remark: Option<String>,
}

#[derive(Debug, Clone, PartialEq, Eq)]
pub struct UpdateSupplierCommand {
    pub supplier_name: String,
    pub contact_name: Option<String>,
    pub contact_phone: Option<String>,
    pub address: Option<String>,
    pub is_active: bool,
    pub remark: Option<String>,
}

#[derive(Debug, Clone, PartialEq, Eq)]
pub struct QuerySuppliers {
    pub keyword: Option<String>,
    pub is_active: Option<bool>,
}

#[derive(Debug, Clone, PartialEq, Eq)]
pub struct CreateCustomerCommand {
    pub customer_code: String,
    pub customer_name: String,
    pub contact_name: Option<String>,
    pub contact_phone: Option<String>,
    pub address: Option<String>,
    pub remark: Option<String>,
}

#[derive(Debug, Clone, PartialEq, Eq)]
pub struct UpdateCustomerCommand {
    pub customer_name: String,
    pub contact_name: Option<String>,
    pub contact_phone: Option<String>,
    pub address: Option<String>,
    pub is_active: bool,
    pub remark: Option<String>,
}

#[derive(Debug, Clone, PartialEq, Eq)]
pub struct QueryCustomers {
    pub keyword: Option<String>,
    pub is_active: Option<bool>,
}

/// A supplier may be created when its code has 1..=50 and its name 1..=200
/// characters.
pub fn check_create_supplier(cmd: &CreateSupplierCommand) -> (r: Result<(), AppError>)
    ensures
        r is Err ==> (r is Err
            && names_if_outside(r->Err_0, "supplier_code"@, cmd.supplier_code@, 1, 50)
            && names_if_outside(r->Err_0, "supplier_name"@, cmd.supplier_name@, 1, 200)),
        r is Ok <==> (length_within(cmd.supplier_code@, 1, 50) && length_within(cmd.supplier_name@, 1, 200)),
        r matches Err(e) ==> e is Validation,
{
    let mut violations: Vec<LengthViolation> = Vec::new();
    length_check(&mut violations, "supplier_code", &cmd.supplier_code, 1, 50);
    length_check(&mut violations, "supplier_name", &cmd.supplier_name, 1, 200);
    if violations.len() > 0 {
        return Err(validation_failure(&violations));
    }
    Ok(())
}

/// A supplier may be updated when its name has 1..=200 characters.
pub fn check_update_supplier(cmd: &UpdateSupplierCommand) -> (r: Result<(), AppError>)
    ensures
        r is Err ==> (r is Err
            && names_if_outside(r->Err_0, "supplier_name"@, cmd.supplier_name@, 1, 200)),
        r is Ok <==> length_within(cmd.supplier_name@, 1, 200),
        r matches Err(e) ==> e is Validation,
{
    let mut violations: Vec<LengthViolation> = Vec::new();
    length_check(&mut violations, "supplier_name", &cmd.supplier_name, 1, 200);
    if violations.len() > 0 {
        return Err(validation_failure(&violations));
    }
    Ok(())
}

/// A customer may be created when its code has 1..=50 and its name 1..=200
/// characters.
pub fn check_create_customer(cmd: &CreateCustomerCommand) -> (r: Result<(), AppError>)
    ensures
        r is Err ==> (r is Err
            && names_if_outside(r->Err_0, "customer_code"@, cmd.customer_code@, 1, 50)
            && names_if_outside(r->Err_0, "customer_name"@, cmd.customer_name@, 1, 200)),
        r is Ok <==> (length_within(cmd.customer_code@, 1, 50) && length_within(cmd.customer_name@, 1, 200)),
        r matches Err(e) ==> e is Validation,
{
    let mut violations: Vec<LengthViolation> = Vec::new();
    length_check(&mut violations, "customer_code", &cmd.customer_code, 1, 50);
    length_check(&mut violations, "customer_name", &cmd.customer_name, 1, 200);
    if violations.len() > 0 {
        return Err(validation_failure(&violations));
    }
    Ok(())
}

/// A customer may be updated when its name has 1..=200 characters.
pub fn check_update_customer(cmd: &UpdateCustomerCommand) -> (r: Result<(), AppError>)
    ensures
        r is Err ==> (r is Err
            && names_if_outside(r->Err_0, "customer_name"@, cmd.customer_name@, 1, 200)),
        r is Ok <==> length_within(cmd.customer_name@, 1, 200),
        r matches Err(e) ==> e is Validation,
{
    let mut violations: Vec<LengthViolation> = Vec::new();
    length_check(&mut violations, "customer_name", &cmd.customer_name, 1, 200);
    if violations.len() > 0 {
        return Err(validation_failure(&violations));
    }
    Ok(())
}

// -- BOMs --------------------------------------------------------------------

#[derive(Debug, Clone, PartialEq, Eq)]
pub struct CreateBomLine {
    pub line_no: i32,
    pub material_id: i64,
    pub usage_qty: Qty,
    pub loss_rate: Qty,
    pub public_material_flag: bool,
    pub remark: Option<String>,
}

#[derive(Debug, Clone, PartialEq, Eq)]
pub struct CreateBomCommand {
    pub bom_code: String,
    pub bom_version: String,
    pub product_material_id: i64,
    pub route_id: Option<i64>,
    pub remark: Option<String>,
    pub lines: Vec<CreateBomLine>,
}

#[derive(Debug, Clone, PartialEq, Eq)]
pub struct QueryBoms {
    pub bom_code: Option<String>,
    pub product_material_id: Option<i64>,
    pub is_active: Option<bool>,
}

pub open spec fn bom_header_ok(c: CreateBomCommand) -> bool {
    length_within(c.bom_code@, 1, 50) && length_within(c.bom_version@, 1, 30)
}

/// A BOM may be created when its code has 1..=50 and its version 1..=30
/// characters and it has at least one line.
pub fn check_create_bom(cmd: &CreateBomCommand) -> (r: Result<(), AppError>)
    ensures
        !bom_header_ok(*cmd) ==> (r is Err
            && names_if_outside(r->Err_0, "bom_code"@, cmd.bom_code@, 1, 50)
            && names_if_outside(r->Err_0, "bom_version"@, cmd.bom_version@, 1, 30)),
        !bom_header_ok(*cmd) ==> r matches Err(AppError::Validation(_)),
        bom_header_ok(*cmd) && cmd.lines@.len() == 0 ==> fails_with(
            r,
            CAT_BOM_EMPTY,
            "BOM 行不能为空"@,
        ),
        bom_header_ok(*cmd) && cmd.lines@.len() > 0 ==> r is Ok,
{
    let mut violations: Vec<LengthViolation> = Vec::new();
    length_check(&mut violations, "bom_code", &cmd.bom_code, 1, 50);
    length_check(&mut violations, "bom_version", &cmd.bom_version, 1, 30);
    if violations.len() > 0 {
        return Err(validation_failure(&violations));
    }
    if cmd.lines.len() == 0 {
        return Err(CatalogError::bom_empty());
    }
    Ok(())
}

// -- process routes ----------------------------------------------------------

#[derive(Debug, Clone, PartialEq, Eq)]
pub struct CreateRouteStep {
    pub step_no: i32,
    pub process_name: String,
    pub output_material_id: Option<i64>,
    pub semi_finished_flag: bool,
    /// JSON text of the step's rule, if any.
    pub rule_json: Option<String>,
    pub remark: Option<String>,
}

#[derive(Debug, Clone, PartialEq, Eq)]
pub struct CreateRouteCommand {
    pub route_code: String,
    pub route_name: String,
    pub product_material_id: i64,
    pub remark: Option<String>,
    pub steps: Vec<CreateRouteStep>,
}

#[derive(Debug, Clone, PartialEq, Eq)]
pub struct QueryRoutes {
    pub route_code: Option<String>,
    pub product_material_id: Option<i64>,
    pub is_active: Option<bool>,
}

pub open spec fn route_header_ok(c: CreateRouteCommand) -> bool {
    length_within(c.route_code@, 1, 50) && length_within(c.route_name@, 1, 200)
}

/// Step `i` repeats the step number of an earlier step.
pub open spec fn step_repeats(steps: Seq<CreateRouteStep>, i: int) -> bool {
    exists|j: int| 0 <= j < i && steps[j].step_no == steps[i].step_no
}

/// Step `i` has a process name of 1..=100 characters and a new step number.
pub open spec fn step_ok(steps: Seq<CreateRouteStep>, i: int) -> bool {
    length_within(steps[i].process_name@, 1, 100) && !step_repeats(steps, i)
}

pub open spec fn steps_ok_upto(steps: Seq<CreateRouteStep>, n: int) -> bool {
    forall|i: int| 0 <= i < n ==> #[trigger] step_ok(steps, i)
}

/// The error for the first refused step `i`.
pub open spec fn route_step_error(steps: Seq<CreateRouteStep>, i: int, e: AppError) -> bool {
    if !length_within(steps[i].process_name@, 1, 100) {
        e is Validation && names_if_outside(e, "process_name"@, steps[i].process_name@, 1, 100)
    } else {
        business_err(e, CAT_DUPLICATE_STEP, "工序步骤号 "@ + int_chars(steps[i].step_no as int) + " 重复"@)
    }
}

/// A route may be created when its code has 1..=50 and its name 1..=200
/// characters, it has at least one step, and, in order, every step has a
/// process name of 1..=100 characters and a step number no earlier step has.
/// The first step that fails decides the error.
pub fn check_create_route(cmd: &CreateRouteCommand) -> (r: Result<(), AppError>)
    ensures
        !route_header_ok(*cmd) ==> (r is Err
            && names_if_outside(r->Err_0, "route_code"@, cmd.route_code@, 1, 50)
            && names_if_outside(r->Err_0, "route_name"@, cmd.route_name@, 1, 200)),
        !route_header_ok(*cmd) ==> r matches Err(AppError::Validation(_)),
        route_header_ok(*cmd) && cmd.steps@.len() == 0 ==> fails_with(
            r,
            CAT_ROUTE_EMPTY,
            "工艺路线必须至少一步"@,
        ),
        route_header_ok(*cmd) && cmd.steps@.len() > 0 ==> (r is Ok <==> steps_ok_upto(
            cmd.steps@,
            cmd.steps@.len() as int,
        )),
        route_header_ok(*cmd) && cmd.steps@.len() > 0 ==> forall|i: int|
            0 <= i < cmd.steps@.len() && steps_ok_upto(cmd.steps@, i) && !step_ok(cmd.steps@, i)
                ==> #[trigger] route_step_error(cmd.steps@, i, r->Err_0),
{
    let mut violations: Vec<LengthViolation> = Vec::new();
    length_check(&mut violations, "route_code", &cmd.route_code, 1, 50);
    length_check(&mut violations, "route_name", &cmd.route_name, 1, 200);
    if violations.len() > 0 {
        return Err(validation_failure(&violations));
    }
    let n = cmd.steps.len();
    if n == 0 {
        return Err(CatalogError::route_empty());
    }
    let ghost steps = cmd.steps@;
    let mut i: usize = 0;
    while i < n
        invariant
            n == steps.len(),
            steps == cmd.steps@,
            route_header_ok(*cmd),
            i <= n,
            steps_ok_upto(steps, i as int),
        decreases n - i,
    {
        let s = &cmd.steps[i];
        let mut violations: Vec<LengthViolation> = Vec::new();
        length_check(&mut violations, "process_name", &s.process_name, 1, 100);
        if violations.len() > 0 {
            let e = validation_failure(&violations);
            proof { lemma_first_bad_step_unique(steps, i as int); }
            return Err(e);
        }
        let mut j: usize = 0;
        while j < i
            invariant
                n == steps.len(),
                steps == cmd.steps@,
                j <= i < n,
                steps_ok_upto(steps, i as int),
                route_header_ok(*cmd),
                *s == steps[i as int],
                length_within(steps[i as int].process_name@, 1, 100),
                forall|k: int| 0 <= k < j ==> steps[k].step_no != steps[i as int].step_no,
            decreases i - j,
        {
            if cmd.steps[j].step_no == s.step_no {
                let e = CatalogError::duplicate_step(s.step_no);
                proof {
                    assert(steps[j as int].step_no == steps[i as int].step_no);
                    assert(step_repeats(steps, i as int));
                    lemma_first_bad_step_unique(steps, i as int);
                }
                return Err(e);
            }
            j += 1;
        }
        proof {
            assert(!step_repeats(steps, i as int));
            assert forall|k: int| 0 <= k < i + 1 implies #[trigger] step_ok(steps, k) by {
                if k < i {
                    assert(step_ok(steps, k));
                }
            }
        }
        i += 1;
    }
    Ok(())
}

/// Once steps `0..i` pass and step `i` fails, `i` is the only index that is
/// the first failing one.
proof fn lemma_first_bad_step_unique(steps: Seq<CreateRouteStep>, i: int)
    requires
        0 <= i < steps.len(),
        steps_ok_upto(steps, i),
        !step_ok(steps, i),
    ensures
        forall|k: int| 0 <= k < steps.len() && steps_ok_upto(steps, k) && !step_ok(steps, k) ==> k == i,
        !steps_ok_upto(steps, steps.len() as int),
{
    if steps_ok_upto(steps, steps.len() as int) {
        assert(step_ok(steps, i));
    }
    assert forall|k: int| 0 <= k < steps.len() && steps_ok_upto(steps, k) && !step_ok(steps, k) implies k == i by {
        if k < i {
            assert(step_ok(steps, k));
        } else if k > i {
            assert(step_ok(steps, i));
        }
    }
}

/// An accepted route never repeats a step number.
pub proof fn law_accepted_route_has_distinct_steps(steps: Seq<CreateRouteStep>)
    requires
        steps_ok_upto(steps, steps.len() as int),
    ensures
        forall|i: int, j: int|
            0 <= i < steps.len() && 0 <= j < steps.len() && i != j ==> steps[i].step_no
                != steps[j].step_no,
{
    assert forall|i: int, j: int|
        0 <= i < steps.len() && 0 <= j < steps.len() && i != j implies steps[i].step_no
            != steps[j].step_no by {
        if i < j {
            assert(step_ok(steps, j));
            if steps[i].step_no == steps[j].step_no {
                assert(step_repeats(steps, j));
            }
        } else {
            assert(step_ok(steps, i));
            if steps[i].step_no == steps[j].step_no {
                assert(step_repeats(steps, i));
            }
        }
    }
}

// -- recovery templates ------------------------------------------------------

#[derive(Debug, Clone, PartialEq, Eq)]
pub struct CreateRecoveryTplLine {
    pub line_no: i32,
    pub target_material_id: Option<i64>,
    pub default_recovery_qty: Qty,
    pub target_default_status: Option<String>,
    pub scrap_flag: bool,
    pub remark: Option<String>,
}

#[derive(Debug, Clone, PartialEq, Eq)]
pub struct CreateRecoveryTplCommand {
    pub tpl_code: String,
    pub tpl_name: String,
    pub source_material_id: i64,
    pub remark: Option<String>,
    pub lines: Vec<CreateRecoveryTplLine>,
}

#[derive(Debug, Clone, PartialEq, Eq)]
pub struct QueryRecoveryTpls {
    pub tpl_code: Option<String>,
    pub source_material_id: Option<i64>,
    pub is_active: Option<bool>,
}

pub open spec fn recovery_tpl_header_ok(c: CreateRecoveryTplCommand) -> bool {
    length_within(c.tpl_code@, 1, 50) && length_within(c.tpl_name@, 1, 200)
}

/// A recovery template may be created when its code has 1..=50 and its name
/// 1..=200 characters and it has at least one line.
pub fn check_create_recovery_tpl(cmd: &CreateRecoveryTplCommand) -> (r: Result<(), AppError>)
    ensures
        !recovery_tpl_header_ok(*cmd) ==> (r is Err
            && names_if_outside(r->Err_0, "tpl_code"@, cmd.tpl_code@, 1, 50)
            && names_if_outside(r->Err_0, "tpl_name"@, cmd.tpl_name@, 1, 200)),
        !recovery_tpl_header_ok(*cmd) ==> r matches Err(AppError::Validation(_)),
        recovery_tpl_header_ok(*cmd) && cmd.lines@.len() == 0 ==> fails_with(
            r,
            CAT_RECOVERY_TPL_EMPTY,
            "回收模板行不能为空"@,
        ),
        recovery_tpl_header_ok(*cmd) && cmd.lines@.len() > 0 ==> r is Ok,
{
    let mut violations: Vec<LengthViolation> = Vec::new();
    length_check(&mut violations, "tpl_code", &cmd.tpl_code, 1, 50);
    length_check(&mut violations, "tpl_name", &cmd.tpl_name, 1, 200);
    if violations.len() > 0 {
        return Err(validation_failure(&violations));
    }
    if cmd.lines.len() == 0 {
        return Err(CatalogError::recovery_tpl_empty());
    }
    Ok(())
}

// -- status flows ------------------------------------------------------------

#[derive(Debug, Clone, PartialEq, Eq)]
pub struct QueryStatusFlow {
    pub source_status: Option<String>,
    pub scene_code: Option<String>,
    pub is_active: Option<bool>,
}

/// A material's category and process type are accepted exactly when the
/// category is one of RAW, SEMI, FINISHED, PUBLIC, RECOVERY and SCRAP and,
/// whatever the category, a process type that is given is one of GG, GF, TP,
/// ASM, FOG and OTHER; a refusal is a business error.
pub proof fn law_material_rules(category: Seq<char>, process_type: Option<String>, r: Result<(), AppError>)
    requires
        material_rule_result(category, process_type, r),
    ensures
        r is Ok <==> ((category == "RAW"@ || category == "SEMI"@ || category == "FINISHED"@ || category == "PUBLIC"@ || category == "RECOVERY"@ || category == "SCRAP"@)
            && (process_type matches Some(p) ==> (p@ == "GG"@ || p@ == "GF"@ || p@ == "TP"@ || p@ == "ASM"@ || p@ == "FOG"@ || p@ == "OTHER"@))),
        r matches Err(e) ==> e is Business,
{
}

} // verus!
