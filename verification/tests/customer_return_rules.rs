use cuba_ims::customer_return::{
    check_create_customer_return, check_judge, check_void_return, group_by_judge,
    is_valid_judge_method, plan_return_txn, read_return_locations, resolve_return_target,
    return_location_fields, CreateCustomerReturnCommand, CreateCustomerReturnLine,
    CustomerReturnHead, CustomerReturnLineView, JudgeLineCommand, ReturnLocations,
    ReturnSubmission, ReturnSubmitAction, ReturnSubmitEvent, ReturnTarget,
    SubmitCustomerReturnResult, CR_EMPTY_LINES, CR_INVALID_JUDGE, CR_INVALID_TRANSITION,
};
use cuba_ims::error::AppError;
use cuba_ims::inventory::{IoFlag, Qty, StockStatus, TxnSideInput, TxnType};
use cuba_ims::query::Day;
use cuba_ims::status::DocStatus;

fn qty(m: i128) -> Qty {
    Qty { mantissa: m, scale: 0 }
}

fn cline(judge: Option<&str>, q: Qty) -> CreateCustomerReturnLine {
    CreateCustomerReturnLine {
        line_no: 1,
        material_id: 5,
        batch_no: "B".to_string(),
        qty: q,
        unit: "PCS".to_string(),
        return_reason: "坏点".to_string(),
        judge_method: judge.map(str::to_string),
        judge_note: None,
        note: None,
    }
}

fn command(lines: Vec<CreateCustomerReturnLine>) -> CreateCustomerReturnCommand {
    CreateCustomerReturnCommand {
        customer_id: 9,
        return_date: Day { year: 2024, month: 3, day: 1 },
        original_doc_no: Some("SO-1".to_string()),
        remark: None,
        return_wh_id: 1,
        return_loc_id: 10,
        defect_wh_id: Some(2),
        defect_loc_id: Some(20),
        scrap_wh_id: None,
        scrap_loc_id: None,
        lines,
    }
}

fn vline(id: i64, material: i64, judge: Option<&str>) -> CustomerReturnLineView {
    CustomerReturnLineView {
        id,
        line_no: id as i32,
        material_id: material,
        material_code: None,
        batch_no: format!("B{id}"),
        qty: qty(id as i128),
        unit: "PCS".to_string(),
        return_reason: "r".to_string(),
        judge_method: judge.map(str::to_string),
        judge_note: None,
        note: Some(format!("n{id}")),
    }
}

fn head(status: &str, lines: Vec<CustomerReturnLineView>) -> CustomerReturnHead {
    CustomerReturnHead {
        id: 3,
        return_no: "CR-3".to_string(),
        customer_id: 9,
        original_doc_no: Some("SO-1".to_string()),
        doc_status: status.to_string(),
        remark: None,
        lines,
    }
}

fn locs(scrap: bool) -> ReturnLocations {
    ReturnLocations {
        return_wh: 1,
        return_loc: 10,
        defect_wh: Some(2),
        defect_loc: Some(20),
        scrap_wh: if scrap { Some(3) } else { None },
        scrap_loc: if scrap { Some(30) } else { None },
    }
}

#[test]
fn the_five_judgements() {
    for j in ["RETURN_TO_STOCK", "TO_DEFECT", "TO_SCRAP", "TO_SUPPLIER_RETURN", "TO_CHECK"] {
        assert!(is_valid_judge_method(j));
    }
    assert!(!is_valid_judge_method("TO_SELL"));
}

#[test]
fn creating_needs_lines_and_valid_ones() {
    assert_eq!(
        check_create_customer_return(&command(vec![])),
        Err(AppError::Business { code: CR_EMPTY_LINES, message: "客户退货行不能为空".to_string() })
    );
    assert_eq!(check_create_customer_return(&command(vec![cline(None, qty(1)), cline(Some("TO_DEFECT"), qty(2))])), Ok(()));
    assert_eq!(
        check_create_customer_return(&command(vec![cline(Some("X"), qty(1))])),
        Err(AppError::Business { code: CR_INVALID_JUDGE, message: "未知判定: X".to_string() })
    );
    assert!(matches!(
        check_create_customer_return(&command(vec![cline(None, qty(0)), cline(Some("X"), qty(1))])),
        Err(AppError::Validation(_))
    ));
}

#[test]
fn the_first_unknown_judgement_is_reported() {
    let js = vec![
        JudgeLineCommand { line_id: 1, judge_method: "TO_SCRAP".to_string(), judge_note: None },
        JudgeLineCommand { line_id: 2, judge_method: "A".to_string(), judge_note: None },
        JudgeLineCommand { line_id: 3, judge_method: "B".to_string(), judge_note: None },
    ];
    assert_eq!(
        check_judge(&js),
        Err(AppError::Business { code: CR_INVALID_JUDGE, message: "未知判定: A".to_string() })
    );
    assert_eq!(check_judge(&js[..1].to_vec()), Ok(()));
    assert_eq!(check_judge(&vec![]), Ok(()));
}

#[test]
fn lines_are_grouped_by_judgement_in_order_of_first_appearance() {
    let lines = vec![
        vline(1, 100, Some("TO_DEFECT")),
        vline(2, 101, None),
        vline(3, 102, Some("TO_DEFECT")),
        vline(4, 103, Some("TO_CHECK")),
        vline(5, 104, Some("RETURN_TO_STOCK")),
    ];
    let groups = group_by_judge(&lines);
    let shape: Vec<(String, Vec<usize>)> = groups.into_iter().map(|g| (g.method, g.lines)).collect();
    assert_eq!(
        shape,
        vec![
            ("TO_DEFECT".to_string(), vec![0, 2]),
            ("TO_CHECK".to_string(), vec![1, 3]),
            ("RETURN_TO_STOCK".to_string(), vec![4]),
        ]
    );
    assert!(group_by_judge(&vec![]).is_empty());
}

#[test]
fn targets_by_judgement() {
    let l = locs(false);
    assert_eq!(
        resolve_return_target("RETURN_TO_STOCK", &l),
        Ok(ReturnTarget { wh_id: 1, loc_id: 10, status: StockStatus::Qualified })
    );
    assert_eq!(resolve_return_target("TO_DEFECT", &l), Ok(ReturnTarget { wh_id: 2, loc_id: 20, status: StockStatus::Bad }));
    assert_eq!(resolve_return_target("TO_SCRAP", &l), Err(AppError::Validation("TO_SCRAP 需要 scrap_wh_id".to_string())));
    assert_eq!(
        resolve_return_target("TO_SCRAP", &locs(true)),
        Ok(ReturnTarget { wh_id: 3, loc_id: 30, status: StockStatus::Scrapped })
    );
    let no_defect = ReturnLocations { defect_wh: None, defect_loc: None, ..l };
    assert_eq!(
        resolve_return_target("TO_SUPPLIER_RETURN", &no_defect),
        Ok(ReturnTarget { wh_id: 1, loc_id: 10, status: StockStatus::Bad })
    );
    assert_eq!(
        resolve_return_target("TO_DEFECT", &no_defect),
        Err(AppError::Validation("TO_DEFECT 需要 defect_wh_id/loc_id".to_string()))
    );
    assert_eq!(
        resolve_return_target("TO_CHECK", &l),
        Ok(ReturnTarget { wh_id: 1, loc_id: 10, status: StockStatus::ToCheck })
    );
}

#[test]
fn one_in_transaction_per_group() {
    let h = head("DRAFT", vec![vline(1, 100, Some("TO_SCRAP")), vline(2, 101, None), vline(3, 102, Some("TO_SCRAP"))]);
    let t = ReturnTarget { wh_id: 3, loc_id: 30, status: StockStatus::Scrapped };
    let c = plan_return_txn(&h, &"TO_SCRAP".to_string(), &vec![0, 2], t);
    assert_eq!(c.txn_type, TxnType::In);
    assert_eq!(c.scene_code, "CUSTOMER_RETURN_IN");
    assert_eq!(c.scene_name.as_deref(), Some("客户退货 (TO_SCRAP)"));
    assert_eq!(c.target, Some(TxnSideInput { wh_id: 3, loc_id: 30, status: Some(StockStatus::Scrapped) }));
    assert_eq!(c.target_object_type.as_deref(), Some("CUSTOMER"));
    assert_eq!(c.target_object_id, Some(9));
    assert!(c.is_exception);
    assert_eq!(c.exception_type.as_deref(), Some("TO_SCRAP"));
    assert_eq!(c.related_doc_no.as_deref(), Some("SO-1"));
    assert_eq!(c.lines.len(), 2);
    assert_eq!((c.lines[0].line_no, c.lines[0].material_id), (1, 100));
    assert_eq!((c.lines[1].line_no, c.lines[1].material_id), (2, 102));
    assert!(c.lines.iter().all(|l| l.io_flag == IoFlag::In && l.scrap_flag));
    let c = plan_return_txn(&h, &"RETURN_TO_STOCK".to_string(), &vec![1], ReturnTarget {
        wh_id: 1,
        loc_id: 10,
        status: StockStatus::Qualified,
    });
    assert!(!c.is_exception);
    assert_eq!(c.exception_type, None);
    assert!(!c.lines[0].scrap_flag);
    assert_eq!(c.lines[0].note.as_deref(), Some("n2"));
}

#[test]
fn stored_return_locations_are_read_back() {
    let (a, b, c, d, e, f) = return_location_fields(&command(vec![]));
    assert_eq!(
        read_return_locations(a, b, c, d, e, f),
        Ok(ReturnLocations { return_wh: 1, return_loc: 10, defect_wh: Some(2), defect_loc: Some(20), scrap_wh: None, scrap_loc: None })
    );
    assert_eq!(
        read_return_locations(None, None, None, None, None, None),
        Err(AppError::Validation("return_wh_id 缺失".to_string()))
    );
    assert_eq!(
        read_return_locations(Some(1), None, None, None, None, None),
        Err(AppError::Validation("return_loc_id 缺失".to_string()))
    );
}

#[test]
fn only_open_returns_can_be_voided() {
    assert_eq!(check_void_return("SUBMITTED"), Ok(DocStatus::Voided));
    assert_eq!(
        check_void_return("VOIDED"),
        Err(AppError::Business { code: CR_INVALID_TRANSITION, message: "当前状态 VOIDED 不允许作废".to_string() })
    );
}

#[test]
fn a_submit_commits_each_group_then_completes() {
    let h = head("DRAFT", vec![vline(1, 100, Some("TO_DEFECT")), vline(2, 101, None), vline(3, 102, Some("TO_DEFECT"))]);
    let (s, a) = ReturnSubmission::start(3);
    assert_eq!(a, ReturnSubmitAction::LoadHead(3));
    let (s, a) = s.step(ReturnSubmitEvent::HeadLoaded(h));
    assert_eq!(a, ReturnSubmitAction::LoadLocations(3));
    let (s, a) = s.step(ReturnSubmitEvent::LocationsLoaded {
        return_wh: Some(1),
        return_loc: Some(10),
        defect_wh: Some(2),
        defect_loc: Some(20),
        scrap_wh: None,
        scrap_loc: None,
    });
    let first = match a {
        ReturnSubmitAction::Commit(c) => c,
        other => panic!("unexpected {other:?}"),
    };
    assert_eq!(first.scene_name.as_deref(), Some("客户退货 (TO_DEFECT)"));
    assert_eq!(first.lines.len(), 2);
    let (s, a) = s.step(ReturnSubmitEvent::Committed("TX-1".to_string()));
    let second = match a {
        ReturnSubmitAction::Commit(c) => c,
        other => panic!("unexpected {other:?}"),
    };
    assert_eq!(second.target, Some(TxnSideInput { wh_id: 1, loc_id: 10, status: Some(StockStatus::ToCheck) }));
    let (s, a) = s.step(ReturnSubmitEvent::Committed("TX-2".to_string()));
    assert_eq!(a, ReturnSubmitAction::UpdateStatus { id: 3, status: DocStatus::Completed });
    let (s, a) = s.step(ReturnSubmitEvent::StatusUpdated);
    assert!(s.is_done());
    assert_eq!(
        a,
        ReturnSubmitAction::Finish(SubmitCustomerReturnResult {
            return_id: 3,
            return_no: "CR-3".to_string(),
            txn_no: "TX-2".to_string(),
            doc_status: "COMPLETED".to_string(),
        })
    );
}

#[test]
fn a_missing_scrap_location_fails_the_submit() {
    let h = head("SUBMITTED", vec![vline(1, 100, Some("TO_SCRAP"))]);
    let (s, _) = ReturnSubmission::start(3);
    let (s, _) = s.step(ReturnSubmitEvent::HeadLoaded(h));
    let (s, a) = s.step(ReturnSubmitEvent::LocationsLoaded {
        return_wh: Some(1),
        return_loc: Some(10),
        defect_wh: None,
        defect_loc: None,
        scrap_wh: Some(3),
        scrap_loc: None,
    });
    assert!(s.is_done());
    assert_eq!(a, ReturnSubmitAction::Fail(AppError::Validation("TO_SCRAP 需要 scrap_loc_id".to_string())));
}

#[test]
fn a_completed_return_cannot_be_submitted() {
    let (s, _) = ReturnSubmission::start(3);
    let (_, a) = s.step(ReturnSubmitEvent::HeadLoaded(head("COMPLETED", vec![])));
    assert_eq!(
        a,
        ReturnSubmitAction::Fail(AppError::Business {
            code: CR_INVALID_TRANSITION,
            message: "当前状态 COMPLETED 不允许 submit".to_string()
        })
    );
    let (s, _) = ReturnSubmission::start(8);
    let (_, a) = s.step(ReturnSubmitEvent::Missing);
    assert_eq!(a, ReturnSubmitAction::Fail(AppError::NotFound("客户退货单 id=8 不存在".to_string())));
}

#[test]
fn an_empty_return_completes_without_a_transaction() {
    let (s, _) = ReturnSubmission::start(3);
    let (s, _) = s.step(ReturnSubmitEvent::HeadLoaded(head("DRAFT", vec![])));
    let (s, a) = s.step(ReturnSubmitEvent::LocationsLoaded {
        return_wh: Some(1),
        return_loc: Some(10),
        defect_wh: None,
        defect_loc: None,
        scrap_wh: None,
        scrap_loc: None,
    });
    assert_eq!(a, ReturnSubmitAction::UpdateStatus { id: 3, status: DocStatus::Completed });
    let (_, a) = s.step(ReturnSubmitEvent::StatusUpdated);
    match a {
        ReturnSubmitAction::Finish(r) => assert_eq!(r.txn_no, ""),
        other => panic!("unexpected {other:?}"),
    }
}
