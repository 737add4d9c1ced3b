use cuba_ims::defect::{
    check_create_defect, check_void_defect, defect_location_fields, defect_submit_message,
    is_valid_method, is_valid_source, is_valid_stage, plan_bad_stock_transfer,
    read_defect_locations, transfer_lines, CreateDefectCommand, CreateDefectLine, DefectError,
    DefectHead, DefectLineView, DefectLocations, DefectSubmission, DefectSubmitAction,
    DefectSubmitEvent, SubmitDefectResult, DEF_EMPTY_LINES, DEF_INVALID_METHOD,
    DEF_INVALID_SOURCE, DEF_INVALID_STAGE, DEF_INVALID_TRANSITION,
};
use cuba_ims::error::AppError;
use cuba_ims::inventory::{IoFlag, Qty, StockStatus, TxnSideInput, TxnType};
use cuba_ims::query::Day;
use cuba_ims::status::DocStatus;

fn qty(m: i128, s: u32) -> Qty {
    Qty { mantissa: m, scale: s }
}

fn line(unit: &str, reason: &str, q: Qty) -> CreateDefectLine {
    CreateDefectLine {
        line_no: 1,
        material_id: 11,
        batch_no: "B1".to_string(),
        qty: q,
        unit: unit.to_string(),
        defect_reason: reason.to_string(),
        defect_desc: None,
        source_doc_type: None,
        source_doc_no: None,
        note: None,
    }
}

fn command(source: &str, stage: &str, method: &str, lines: Vec<CreateDefectLine>) -> CreateDefectCommand {
    CreateDefectCommand {
        defect_source: source.to_string(),
        work_order_no: None,
        process_name: None,
        product_stage: stage.to_string(),
        found_date: Day { year: 2024, month: 5, day: 6 },
        finder_name: None,
        process_method: method.to_string(),
        remark: None,
        source_wh_id: 1,
        source_loc_id: 2,
        target_wh_id: Some(3),
        target_loc_id: Some(4),
        lines,
    }
}

fn view(id: i64, material: i64, batch: &str, q: Qty, reason: &str) -> DefectLineView {
    DefectLineView {
        id,
        line_no: id as i32,
        material_id: material,
        material_code: None,
        batch_no: batch.to_string(),
        qty: q,
        unit: "PCS".to_string(),
        defect_reason: reason.to_string(),
        defect_desc: None,
        source_doc_type: None,
        source_doc_no: None,
        target_status: None,
        note: None,
    }
}

fn head(status: &str, method: &str) -> DefectHead {
    DefectHead {
        id: 77,
        defect_no: "DF-0001".to_string(),
        defect_source: "PROD".to_string(),
        product_stage: "FOG".to_string(),
        process_method: method.to_string(),
        doc_status: status.to_string(),
        remark: Some("划伤".to_string()),
        lines: vec![view(1, 100, "B1", qty(5, 0), "划伤"), view(2, 101, "B2", qty(25, 1), "漏光")],
    }
}

#[test]
fn the_known_sources_stages_and_methods() {
    for s in ["IQC", "PROD", "CUSTOMER_RETURN", "OUTSOURCE"] {
        assert!(is_valid_source(s));
    }
    for s in ["FOG", "TP", "ASM"] {
        assert!(is_valid_stage(s));
    }
    for m in ["TO_BAD_STOCK", "TO_DISMANTLE", "TO_SCRAP", "TO_REWORK"] {
        assert!(is_valid_method(m));
    }
    assert!(!is_valid_source("iqc"));
    assert!(!is_valid_stage("SMT"));
    assert!(!is_valid_method("TO_SELL"));
}

#[test]
fn a_valid_defect_is_accepted() {
    let c = command("PROD", "FOG", "TO_BAD_STOCK", vec![line("PCS", "划伤", qty(1, 0))]);
    assert_eq!(check_create_defect(&c), Ok(()));
}

#[test]
fn the_checks_run_in_order() {
    let c = command("X", "Y", "Z", vec![]);
    assert_eq!(
        check_create_defect(&c),
        Err(AppError::Business { code: DEF_INVALID_SOURCE, message: "未知不良来源: X".to_string() })
    );
    let c = command("IQC", "Y", "Z", vec![]);
    assert_eq!(
        check_create_defect(&c),
        Err(AppError::Business { code: DEF_INVALID_STAGE, message: "未知产品阶段: Y".to_string() })
    );
    let c = command("IQC", "TP", "Z", vec![]);
    assert_eq!(
        check_create_defect(&c),
        Err(AppError::Business { code: DEF_INVALID_METHOD, message: "未知不良处理方式: Z".to_string() })
    );
    let c = command("IQC", "TP", "TO_SCRAP", vec![]);
    assert_eq!(
        check_create_defect(&c),
        Err(AppError::Business { code: DEF_EMPTY_LINES, message: "不良行不能为空".to_string() })
    );
}

#[test]
fn lines_need_a_positive_quantity() {
    let c = command("IQC", "ASM", "TO_REWORK", vec![line("PCS", "a", qty(1, 0)), line("PCS", "b", qty(0, 2))]);
    assert_eq!(check_create_defect(&c), Err(AppError::Validation("数量必须 > 0".to_string())));
    let c = command("IQC", "ASM", "TO_REWORK", vec![line("", "b", qty(-1, 0))]);
    assert!(matches!(check_create_defect(&c), Err(AppError::Validation(m)) if m != "数量必须 > 0"));
}

#[test]
fn submit_messages_by_method() {
    assert_eq!(defect_submit_message("TO_BAD_STOCK"), "库存已转入不良仓");
    assert_eq!(defect_submit_message("TO_DISMANTLE"), "已登记,请在拆解回收单中处理");
    assert_eq!(defect_submit_message("TO_SCRAP"), "已登记,请在报废单中处理");
    assert_eq!(defect_submit_message("TO_REWORK"), "已登记,物料留在原仓位返工");
    assert_eq!(defect_submit_message("OTHER"), "已完成");
}

#[test]
fn every_defect_line_moves_out_then_in() {
    let h = head("DRAFT", "TO_BAD_STOCK");
    let ts = transfer_lines(&h.lines);
    assert_eq!(ts.len(), 4);
    let nos: Vec<i32> = ts.iter().map(|t| t.line_no).collect();
    assert_eq!(nos, vec![1, 2, 3, 4]);
    assert_eq!(ts[0].io_flag, IoFlag::Out);
    assert_eq!(ts[0].stock_status, Some(StockStatus::Qualified));
    assert_eq!(ts[1].io_flag, IoFlag::In);
    assert_eq!(ts[1].stock_status, Some(StockStatus::Bad));
    assert_eq!(ts[2].material_id, 101);
    assert_eq!(ts[3].qty, qty(25, 1));
    assert_eq!(ts[3].note.as_deref(), Some("漏光"));
    let out: Vec<_> = ts.iter().filter(|t| t.io_flag == IoFlag::Out).map(|t| (t.material_id, t.qty)).collect();
    let inn: Vec<_> = ts.iter().filter(|t| t.io_flag == IoFlag::In).map(|t| (t.material_id, t.qty)).collect();
    assert_eq!(out, inn);
}

#[test]
fn the_transfer_needs_a_target_location() {
    let h = head("DRAFT", "TO_BAD_STOCK");
    let locs = DefectLocations { source_wh_id: 1, source_loc_id: 2, target_wh_id: None, target_loc_id: Some(4) };
    assert_eq!(
        plan_bad_stock_transfer(&h, &locs),
        Err(AppError::Validation("TO_BAD_STOCK 必须指定 target_wh_id".to_string()))
    );
    let locs = DefectLocations { source_wh_id: 1, source_loc_id: 2, target_wh_id: Some(3), target_loc_id: None };
    assert_eq!(
        plan_bad_stock_transfer(&h, &locs),
        Err(AppError::Validation("TO_BAD_STOCK 必须指定 target_loc_id".to_string()))
    );
    let locs = DefectLocations { source_wh_id: 1, source_loc_id: 2, target_wh_id: Some(3), target_loc_id: Some(4) };
    let c = plan_bad_stock_transfer(&h, &locs).unwrap();
    assert_eq!(c.txn_type, TxnType::Transfer);
    assert_eq!(c.scene_code, "DEFECT_TO_BAD");
    assert_eq!(c.doc_no, "DF-0001");
    assert_eq!(c.source, Some(TxnSideInput { wh_id: 1, loc_id: 2, status: Some(StockStatus::Qualified) }));
    assert_eq!(c.target, Some(TxnSideInput { wh_id: 3, loc_id: 4, status: Some(StockStatus::Bad) }));
    assert!(c.is_exception);
    assert_eq!(c.exception_type.as_deref(), Some("DEFECT"));
    assert_eq!(
        c.snapshot,
        Some(vec![
            ("defect_source".to_string(), "PROD".to_string()),
            ("product_stage".to_string(), "FOG".to_string())
        ])
    );
}

#[test]
fn stored_defect_locations_are_read_back() {
    let c = command("PROD", "FOG", "TO_BAD_STOCK", vec![]);
    let (a, b, t1, t2) = defect_location_fields(&c);
    assert_eq!(
        read_defect_locations(a, b, t1, t2),
        Ok(DefectLocations { source_wh_id: 1, source_loc_id: 2, target_wh_id: Some(3), target_loc_id: Some(4) })
    );
    assert_eq!(read_defect_locations(None, Some(2), None, None), Err(AppError::Validation("source_wh_id 缺失".to_string())));
    assert_eq!(read_defect_locations(Some(1), None, None, None), Err(AppError::Validation("source_loc_id 缺失".to_string())));
}

#[test]
fn only_open_documents_can_be_voided() {
    assert_eq!(check_void_defect("DRAFT"), Ok(DocStatus::Voided));
    assert_eq!(check_void_defect("SUBMITTED"), Ok(DocStatus::Voided));
    assert_eq!(
        check_void_defect("COMPLETED"),
        Err(AppError::Business {
            code: DEF_INVALID_TRANSITION,
            message: "不良单当前状态 COMPLETED 不允许 void".to_string()
        })
    );
    assert!(matches!(check_void_defect("draft"), Err(AppError::Validation(_))));
    assert_eq!(DefectError::invalid_transition("VOIDED", "submit").code(), Some(DEF_INVALID_TRANSITION));
}

#[test]
fn a_bad_stock_submit_runs_the_whole_conversation() {
    let (s, a) = DefectSubmission::start(77);
    assert_eq!(a, DefectSubmitAction::LoadHead(77));
    let (s, a) = s.step(DefectSubmitEvent::HeadLoaded(head("SUBMITTED", "TO_BAD_STOCK")));
    assert_eq!(a, DefectSubmitAction::LoadLocations(77));
    let (s, a) = s.step(DefectSubmitEvent::LocationsLoaded {
        source_wh_id: Some(1),
        source_loc_id: Some(2),
        target_wh_id: Some(3),
        target_loc_id: Some(4),
    });
    match &a {
        DefectSubmitAction::Commit(c) => assert_eq!(c.lines.len(), 4),
        other => panic!("unexpected {other:?}"),
    }
    let (s, a) = s.step(DefectSubmitEvent::Committed("TX-9".to_string()));
    assert_eq!(a, DefectSubmitAction::UpdateStatus { id: 77, status: DocStatus::Completed });
    assert!(!s.is_done());
    let (s, a) = s.step(DefectSubmitEvent::StatusUpdated);
    assert!(s.is_done());
    assert_eq!(
        a,
        DefectSubmitAction::Finish(SubmitDefectResult {
            defect_id: 77,
            defect_no: "DF-0001".to_string(),
            txn_no: Some("TX-9".to_string()),
            doc_status: "COMPLETED".to_string(),
            message: "库存已转入不良仓".to_string(),
        })
    );
    let (_, a) = s.step(DefectSubmitEvent::StatusUpdated);
    assert!(matches!(a, DefectSubmitAction::Fail(AppError::Internal(_))));
}

#[test]
fn other_methods_complete_without_a_transfer() {
    let (s, _) = DefectSubmission::start(77);
    let (s, a) = s.step(DefectSubmitEvent::HeadLoaded(head("DRAFT", "TO_SCRAP")));
    assert_eq!(a, DefectSubmitAction::UpdateStatus { id: 77, status: DocStatus::Completed });
    let (_, a) = s.step(DefectSubmitEvent::StatusUpdated);
    match a {
        DefectSubmitAction::Finish(r) => {
            assert_eq!(r.txn_no, None);
            assert_eq!(r.message, "已登记,请在报废单中处理");
        },
        other => panic!("unexpected {other:?}"),
    }
}

#[test]
fn a_closed_or_missing_document_is_refused() {
    let (s, _) = DefectSubmission::start(77);
    let (s, a) = s.step(DefectSubmitEvent::HeadLoaded(head("VOIDED", "TO_SCRAP")));
    assert!(s.is_done());
    assert_eq!(
        a,
        DefectSubmitAction::Fail(AppError::Business {
            code: DEF_INVALID_TRANSITION,
            message: "不良单当前状态 VOIDED 不允许 submit".to_string()
        })
    );
    let (s, _) = DefectSubmission::start(5);
    let (_, a) = s.step(DefectSubmitEvent::Missing);
    assert_eq!(a, DefectSubmitAction::Fail(AppError::NotFound("不良单 id=5 不存在".to_string())));
}

#[test]
fn a_failure_ends_the_submit_with_that_error() {
    let (s, _) = DefectSubmission::start(77);
    let (s, _) = s.step(DefectSubmitEvent::HeadLoaded(head("DRAFT", "TO_BAD_STOCK")));
    let (s, a) = s.step(DefectSubmitEvent::Failed(AppError::Internal("db down".to_string())));
    assert!(s.is_done());
    assert_eq!(a, DefectSubmitAction::Fail(AppError::Internal("db down".to_string())));
}

#[test]
fn missing_locations_stop_the_transfer() {
    let (s, _) = DefectSubmission::start(77);
    let (s, _) = s.step(DefectSubmitEvent::HeadLoaded(head("DRAFT", "TO_BAD_STOCK")));
    let (_, a) = s.step(DefectSubmitEvent::LocationsLoaded {
        source_wh_id: Some(1),
        source_loc_id: Some(2),
        target_wh_id: None,
        target_loc_id: None,
    });
    assert_eq!(a, DefectSubmitAction::Fail(AppError::Validation("TO_BAD_STOCK 必须指定 target_wh_id".to_string())));
}
