use cuba_ims::catalog::{
    check_create_bom, check_create_customer, check_create_material, check_create_recovery_tpl,
    check_create_route, check_create_supplier, check_update_customer, check_update_material,
    check_update_supplier, default_true, extra_attrs_or_empty, material_update_result, is_valid_category, is_valid_process_type, CatalogError,
    CreateBomCommand, CreateBomLine, CreateCustomerCommand, CreateMaterialCommand,
    CreateRecoveryTplCommand, CreateRecoveryTplLine, CreateRouteCommand, CreateRouteStep,
    CreateSupplierCommand, UpdateCustomerCommand, UpdateMaterialCommand, UpdateSupplierCommand,
    CAT_BOM_EMPTY, CAT_DUPLICATE_STEP, CAT_INVALID_CATEGORY, CAT_INVALID_PROCESS_TYPE,
    CAT_RECOVERY_TPL_EMPTY, CAT_ROUTE_EMPTY,
};
use cuba_ims::error::AppError;
use cuba_ims::inventory::Qty;

fn qty(m: i128) -> Qty {
    Qty { mantissa: m, scale: 0 }
}

fn material(code: &str, category: &str, process_type: Option<&str>) -> CreateMaterialCommand {
    CreateMaterialCommand {
        material_code: code.to_string(),
        material_name: "屏幕总成".to_string(),
        short_name: None,
        material_category: category.to_string(),
        spec_model: None,
        brand: None,
        unit: "PCS".to_string(),
        process_type: process_type.map(str::to_string),
        has_ic_flag: false,
        key_material_flag: false,
        public_material_flag: false,
        batch_required_flag: true,
        status_required_flag: true,
        allow_preissue_flag: false,
        allow_outsource_flag: false,
        allow_recovery_flag: false,
        default_wh_id: None,
        default_loc_id: None,
        default_status: None,
        safety_stock: qty(0),
        min_stock: qty(0),
        extra_attrs: None,
        remark: None,
    }
}

fn update(category: &str, name: &str) -> UpdateMaterialCommand {
    UpdateMaterialCommand {
        material_name: name.to_string(),
        short_name: None,
        material_category: category.to_string(),
        spec_model: None,
        brand: None,
        unit: "PCS".to_string(),
        process_type: None,
        has_ic_flag: false,
        key_material_flag: false,
        public_material_flag: false,
        batch_required_flag: false,
        status_required_flag: false,
        allow_preissue_flag: false,
        allow_outsource_flag: false,
        allow_recovery_flag: false,
        default_wh_id: None,
        default_loc_id: None,
        default_status: None,
        safety_stock: qty(0),
        min_stock: qty(0),
        extra_attrs: None,
        is_active: true,
        remark: None,
    }
}

fn step(no: i32, name: &str) -> CreateRouteStep {
    CreateRouteStep {
        step_no: no,
        process_name: name.to_string(),
        output_material_id: None,
        semi_finished_flag: false,
        rule_json: None,
        remark: None,
    }
}

fn route(steps: Vec<CreateRouteStep>) -> CreateRouteCommand {
    CreateRouteCommand {
        route_code: "R-001".to_string(),
        route_name: "全贴合".to_string(),
        product_material_id: 1,
        remark: None,
        steps,
    }
}

#[test]
fn categories_are_the_six_known_ones() {
    for c in ["RAW", "SEMI", "FINISHED", "PUBLIC", "RECOVERY", "SCRAP"] {
        assert!(is_valid_category(c));
    }
    assert!(!is_valid_category("raw"));
    assert!(!is_valid_category(""));
}

#[test]
fn process_types_are_the_six_known_ones() {
    for p in ["GG", "GF", "TP", "ASM", "FOG", "OTHER"] {
        assert!(is_valid_process_type(p));
    }
    assert!(!is_valid_process_type("SMT"));
}

#[test]
fn flags_default_to_true() {
    assert!(default_true());
}

#[test]
fn a_well_formed_material_is_accepted() {
    assert_eq!(check_create_material(&material("M-001", "RAW", Some("FOG"))), Ok(()));
    assert_eq!(check_create_material(&material("M-002", "FINISHED", None)), Ok(()));
}

#[test]
fn an_unknown_category_is_a_business_error() {
    let r = check_create_material(&material("M-001", "GLASS", Some("FOG")));
    assert_eq!(
        r,
        Err(AppError::Business { code: CAT_INVALID_CATEGORY, message: "未知的物料类别: GLASS".to_string() })
    );
}

#[test]
fn an_unknown_process_type_is_a_business_error() {
    let r = check_create_material(&material("M-001", "SEMI", Some("SMT")));
    assert_eq!(
        r,
        Err(AppError::Business { code: CAT_INVALID_PROCESS_TYPE, message: "未知的工艺类型: SMT".to_string() })
    );
}

#[test]
fn field_lengths_are_checked_before_the_category() {
    let r = check_create_material(&material("", "GLASS", None));
    assert!(matches!(r, Err(AppError::Validation(_))));
    let long_code: String = "x".repeat(101);
    assert!(matches!(check_create_material(&material(&long_code, "RAW", None)), Err(AppError::Validation(_))));
    let code_100: String = "码".repeat(100);
    assert_eq!(check_create_material(&material(&code_100, "RAW", None)), Ok(()));
}

#[test]
fn a_material_update_checks_name_unit_and_category() {
    assert_eq!(check_update_material(&update("SCRAP", "废料")), Ok(()));
    assert!(matches!(check_update_material(&update("SCRAP", "")), Err(AppError::Validation(_))));
    assert!(matches!(
        check_update_material(&update("OTHER", "x")),
        Err(AppError::Business { code: CAT_INVALID_CATEGORY, .. })
    ));
}

#[test]
fn suppliers_and_customers_need_a_code_and_a_name() {
    let s = CreateSupplierCommand {
        supplier_code: "S-1".to_string(),
        supplier_name: "玻璃厂".to_string(),
        contact_name: None,
        contact_phone: None,
        address: None,
        remark: None,
    };
    assert_eq!(check_create_supplier(&s), Ok(()));
    let bad = CreateSupplierCommand { supplier_code: String::new(), ..s.clone() };
    assert!(matches!(check_create_supplier(&bad), Err(AppError::Validation(_))));
    let u = UpdateSupplierCommand {
        supplier_name: "x".repeat(201),
        contact_name: None,
        contact_phone: None,
        address: None,
        is_active: true,
        remark: None,
    };
    assert!(matches!(check_update_supplier(&u), Err(AppError::Validation(_))));

    let c = CreateCustomerCommand {
        customer_code: "C-1".to_string(),
        customer_name: "整机厂".to_string(),
        contact_name: None,
        contact_phone: None,
        address: None,
        remark: None,
    };
    assert_eq!(check_create_customer(&c), Ok(()));
    let u = UpdateCustomerCommand {
        customer_name: "整机厂".to_string(),
        contact_name: None,
        contact_phone: None,
        address: None,
        is_active: false,
        remark: None,
    };
    assert_eq!(check_update_customer(&u), Ok(()));
}

#[test]
fn a_bom_needs_lines() {
    let line = CreateBomLine {
        line_no: 1,
        material_id: 7,
        usage_qty: qty(1),
        loss_rate: qty(0),
        public_material_flag: false,
        remark: None,
    };
    let mut bom = CreateBomCommand {
        bom_code: "B-1".to_string(),
        bom_version: "V1".to_string(),
        product_material_id: 1,
        route_id: None,
        remark: None,
        lines: vec![line],
    };
    assert_eq!(check_create_bom(&bom), Ok(()));
    bom.lines.clear();
    assert_eq!(
        check_create_bom(&bom),
        Err(AppError::Business { code: CAT_BOM_EMPTY, message: "BOM 行不能为空".to_string() })
    );
    bom.bom_version = String::new();
    assert!(matches!(check_create_bom(&bom), Err(AppError::Validation(_))));
}

#[test]
fn a_route_needs_steps() {
    assert_eq!(
        check_create_route(&route(vec![])),
        Err(AppError::Business { code: CAT_ROUTE_EMPTY, message: "工艺路线必须至少一步".to_string() })
    );
}

#[test]
fn a_route_with_distinct_steps_is_accepted() {
    assert_eq!(check_create_route(&route(vec![step(10, "贴合"), step(20, "检测"), step(30, "包装")])), Ok(()));
}

#[test]
fn a_repeated_step_number_is_refused() {
    let r = check_create_route(&route(vec![step(10, "贴合"), step(20, "检测"), step(10, "返工")]));
    assert_eq!(
        r,
        Err(AppError::Business { code: CAT_DUPLICATE_STEP, message: "工序步骤号 10 重复".to_string() })
    );
}

#[test]
fn the_first_bad_step_decides_the_error() {
    let r = check_create_route(&route(vec![step(10, "贴合"), step(20, ""), step(10, "返工")]));
    assert!(matches!(r, Err(AppError::Validation(_))));
    let r = check_create_route(&route(vec![step(-5, "a"), step(-5, "b")]));
    assert_eq!(
        r,
        Err(AppError::Business { code: CAT_DUPLICATE_STEP, message: "工序步骤号 -5 重复".to_string() })
    );
}

#[test]
fn a_recovery_template_needs_lines() {
    let mut t = CreateRecoveryTplCommand {
        tpl_code: "T-1".to_string(),
        tpl_name: "拆屏".to_string(),
        source_material_id: 3,
        remark: None,
        lines: vec![CreateRecoveryTplLine {
            line_no: 1,
            target_material_id: Some(4),
            default_recovery_qty: qty(1),
            target_default_status: None,
            scrap_flag: false,
            remark: None,
        }],
    };
    assert_eq!(check_create_recovery_tpl(&t), Ok(()));
    t.lines.clear();
    assert_eq!(
        check_create_recovery_tpl(&t),
        Err(AppError::Business { code: CAT_RECOVERY_TPL_EMPTY, message: "回收模板行不能为空".to_string() })
    );
}

#[test]
fn catalog_errors_carry_their_codes() {
    assert_eq!(CatalogError::duplicate_step(3).code(), Some(CAT_DUPLICATE_STEP));
    assert_eq!(CatalogError::bom_empty().code(), Some(CAT_BOM_EMPTY));
    assert_eq!(
        CatalogError::invalid_category("X"),
        AppError::Business { code: CAT_INVALID_CATEGORY, message: "未知的物料类别: X".to_string() }
    );
    assert_eq!(CAT_INVALID_CATEGORY, 22101);
}

#[test]
fn length_errors_read_as_the_validator_writes_them() {
    let r = check_create_material(&material("", "RAW", None));
    let m = match r {
        Err(AppError::Validation(m)) => m,
        other => panic!("unexpected {other:?}"),
    };
    assert!(m.starts_with("material_code: Validation error: length [{"), "{m}");
    assert!(m.contains("\"min\": Number(1)"), "{m}");
    assert!(m.contains("\"max\": Number(100)"), "{m}");
    assert!(m.contains("\"value\": String(\"\")"), "{m}");
    assert!(!m.contains('\n'));
}

#[test]
fn every_field_out_of_bounds_is_reported() {
    let mut c = material("", "RAW", None);
    c.unit = "u".repeat(31);
    let m = match check_create_material(&c) {
        Err(AppError::Validation(m)) => m,
        other => panic!("unexpected {other:?}"),
    };
    let mut lines: Vec<&str> = m.lines().collect();
    lines.sort();
    assert_eq!(lines.len(), 2);
    assert!(lines[0].starts_with("material_code: Validation error: length"));
    assert!(lines[1].starts_with("unit: Validation error: length"));
}

#[test]
fn an_update_that_touches_no_row_names_the_material() {
    assert_eq!(material_update_result(42, 0), Err(AppError::NotFound("物料 id=42 不存在".to_string())));
    assert_eq!(material_update_result(42, 1), Ok(()));
    assert_eq!(extra_attrs_or_empty(&None), "{}");
    assert_eq!(extra_attrs_or_empty(&Some("{\"a\":1}".to_string())), "{\"a\":1}");
}

#[test]
fn a_route_step_length_error_names_the_step_field() {
    let m = match check_create_route(&route(vec![step(1, "")])) {
        Err(AppError::Validation(m)) => m,
        other => panic!("unexpected {other:?}"),
    };
    assert!(m.starts_with("process_name: "), "{m}");
}
