use cuba_ims::catalog::{
    QueryBoms, QueryCustomers, QueryMaterials, QueryRecoveryTpls, QueryRoutes, QueryStatusFlow,
    QuerySuppliers,
};
use cuba_ims::catalog_lists::{
    bom_list_query, customer_list_query, material_count_query, material_page_query,
    recovery_tpl_list_query, route_list_query, status_flow_list_query, supplier_list_query,
    BOM_LIST, MATERIAL_COLUMNS, MATERIAL_COUNT, STATUS_FLOW_LIST, SUPPLIER_LIST,
};
use cuba_ims::customer_return::{customer_return_list_query, QueryCustomerReturns, CUSTOMER_RETURN_LIST};
use cuba_ims::defect::{defect_list_query, QueryDefects, DEFECT_LIST};
use cuba_ims::query::{build_query, int_filter, keyword_clause, page_window, text_filter, BindValue, Day};

fn no_materials_filter() -> QueryMaterials {
    QueryMaterials {
        keyword: None,
        material_category: None,
        process_type: None,
        brand: None,
        is_active: None,
        page: 1,
        size: 20,
    }
}

#[test]
fn an_empty_search_binds_nothing() {
    let q = supplier_list_query(&QuerySuppliers { keyword: None, is_active: None });
    assert_eq!(q.sql, format!("{SUPPLIER_LIST} order by supplier_code limit 500"));
    assert!(q.binds.is_empty());
}

#[test]
fn a_keyword_matches_code_or_name_with_two_values() {
    let q = supplier_list_query(&QuerySuppliers { keyword: Some("玻璃".to_string()), is_active: Some(true) });
    assert_eq!(
        q.sql,
        format!(
            "{SUPPLIER_LIST} and (supplier_code ilike $1 or supplier_name ilike $2) and is_active = $3 order by supplier_code limit 500"
        )
    );
    assert_eq!(
        q.binds,
        vec![
            BindValue::Text("%玻璃%".to_string()),
            BindValue::Text("%玻璃%".to_string()),
            BindValue::Bool(true)
        ]
    );
}

#[test]
fn customer_search_uses_customer_columns() {
    let q = customer_list_query(&QueryCustomers { keyword: Some("A".to_string()), is_active: None });
    assert!(q.sql.contains(" and (customer_code ilike $1 or customer_name ilike $2)"));
    assert!(q.sql.ends_with(" order by customer_code limit 500"));
    assert_eq!(q.binds.len(), 2);
}

#[test]
fn placeholders_count_only_the_filters_that_are_set() {
    let q = bom_list_query(&QueryBoms { bom_code: None, product_material_id: Some(42), is_active: Some(false) });
    assert_eq!(
        q.sql,
        format!("{BOM_LIST} and h.product_material_id = $1 and h.is_active = $2 order by h.bom_code limit 500")
    );
    assert_eq!(q.binds, vec![BindValue::Int(42), BindValue::Bool(false)]);
}

#[test]
fn route_and_template_lists_filter_by_code() {
    let q = route_list_query(&QueryRoutes { route_code: Some("R-1".to_string()), product_material_id: None, is_active: None });
    assert!(q.sql.ends_with(" and h.route_code = $1 order by h.route_code limit 500"));
    assert_eq!(q.binds, vec![BindValue::Text("R-1".to_string())]);
    let q = recovery_tpl_list_query(&QueryRecoveryTpls {
        tpl_code: Some("T".to_string()),
        source_material_id: Some(9),
        is_active: Some(true),
    });
    assert!(q.sql.ends_with(
        " and h.tpl_code = $1 and h.source_material_id = $2 and h.is_active = $3 order by h.tpl_code limit 500"
    ));
    assert_eq!(q.binds.len(), 3);
}

#[test]
fn status_flows_are_ordered_by_source_and_scene() {
    let q = status_flow_list_query(&QueryStatusFlow {
        source_status: Some("QUALIFIED".to_string()),
        scene_code: None,
        is_active: None,
    });
    assert_eq!(
        q.sql,
        format!("{STATUS_FLOW_LIST} and source_status = $1 order by source_status, scene_code limit 500")
    );
}

#[test]
fn a_material_page_binds_limit_and_offset_last() {
    let mut f = no_materials_filter();
    f.brand = Some("BOE".to_string());
    f.is_active = Some(true);
    let q = material_page_query(&f, 20, 40);
    assert_eq!(
        q.sql,
        format!(
            "{MATERIAL_COLUMNS} where 1 = 1 and brand = $1 and is_active = $2 order by material_code  limit $3 offset $4"
        )
    );
    assert_eq!(
        q.binds,
        vec![BindValue::Text("BOE".to_string()), BindValue::Bool(true), BindValue::Int(20), BindValue::Int(40)]
    );
}

#[test]
fn the_material_count_uses_the_same_conditions() {
    let mut f = no_materials_filter();
    f.keyword = Some("屏".to_string());
    f.material_category = Some("RAW".to_string());
    let q = material_count_query(&f);
    assert_eq!(
        q.sql,
        format!(
            "{MATERIAL_COUNT} and (material_code ilike $1 or material_name ilike $2) and material_category = $3"
        )
    );
    assert_eq!(q.binds.len(), 3);
    assert_eq!(material_count_query(&no_materials_filter()).sql, MATERIAL_COUNT);
}

#[test]
fn defect_dates_bound_the_found_date() {
    let q = defect_list_query(&QueryDefects {
        defect_no: None,
        defect_source: Some("IQC".to_string()),
        product_stage: None,
        process_method: None,
        work_order_no: None,
        doc_status: Some("DRAFT".to_string()),
        date_from: Some(Day { year: 2024, month: 1, day: 1 }),
        date_to: Some(Day { year: 2024, month: 1, day: 31 }),
    });
    assert_eq!(
        q.sql,
        format!(
            "{DEFECT_LIST} and h.defect_source = $1 and h.doc_status = $2 and h.found_date >= $3 and h.found_date <= $4 order by h.found_date desc, h.id desc limit 500"
        )
    );
    assert_eq!(q.binds[2], BindValue::Date(Day { year: 2024, month: 1, day: 1 }));
    assert_eq!(q.binds[3], BindValue::Date(Day { year: 2024, month: 1, day: 31 }));
}

#[test]
fn customer_returns_filter_by_customer() {
    let q = customer_return_list_query(&QueryCustomerReturns {
        return_no: None,
        customer_id: Some(5),
        doc_status: None,
        date_from: None,
        date_to: Some(Day { year: 2023, month: 12, day: 31 }),
    });
    assert_eq!(
        q.sql,
        format!(
            "{CUSTOMER_RETURN_LIST} and h.customer_id = $1 and h.return_date <= $2 order by h.return_date desc, h.id desc limit 500"
        )
    );
    assert_eq!(q.binds, vec![BindValue::Int(5), BindValue::Date(Day { year: 2023, month: 12, day: 31 })]);
}

#[test]
fn placeholders_keep_counting_past_nine() {
    let mut fs = Vec::new();
    for i in 0..11 {
        fs.push(int_filter(" and x = ", Some(i)));
    }
    fs.push(text_filter(" and y = ", &None));
    fs.push(keyword_clause("a", "b", &Some("k".to_string())));
    let q = build_query("select 1 where 1 = 1", fs, ";");
    assert!(q.sql.ends_with(" and x = $10 and x = $11 and (a ilike $12 or b ilike $13);"));
    assert_eq!(q.binds.len(), 13);
    assert_eq!(q.binds[10], BindValue::Int(10));
}

#[test]
fn page_windows() {
    assert_eq!(page_window(1, 20), (20, 0));
    assert_eq!(page_window(3, 20), (20, 40));
    assert_eq!(page_window(0, 10), (10, 0));
    assert_eq!(page_window(u32::MAX, u32::MAX), (u32::MAX as i64, i64::MAX));
}
