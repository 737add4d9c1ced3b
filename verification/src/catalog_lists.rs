//! The list queries of the master data: materials, suppliers, customers,
//! BOMs, routes, recovery templates and status flows.

use vstd::prelude::*;
use crate::catalog::{
    QueryBoms, QueryCustomers, QueryMaterials, QueryRecoveryTpls, QueryRoutes, QueryStatusFlow,
    QuerySuppliers,
};
use crate::query::{
    binds_view, bool_filter, bool_spec, build_query, built, eq_clause, eq_filter, filters_view,
    int_filter, int_spec, keyword_clause, keyword_filter, small_filter, text_filter, text_spec,
    BindSpec, Clause, SpecClause, SqlQuery,
};

verus! {

/// The columns of a material row, without conditions.
pub const MATERIAL_COLUMNS: &'static str = "\n    select id, material_code, material_name, short_name, material_category,\n           spec_model, brand, unit, process_type,\n           has_ic_flag, key_material_flag, public_material_flag,\n           batch_required_flag, status_required_flag,\n           allow_preissue_flag, allow_outsource_flag, allow_recovery_flag,\n           default_wh_id, default_loc_id, default_status,\n           safety_stock, min_stock, extra_attrs, is_active, remark,\n           created_at, updated_at\n      from mdm.mdm_material\n";

pub const SUPPLIER_LIST: &'static str = "\n            select id, supplier_code, supplier_name, contact_name, contact_phone,\n                   address, is_active, remark, created_at, updated_at\n              from mdm.mdm_supplier where 1 = 1\n            ";

pub const CUSTOMER_LIST: &'static str = "\n            select id, customer_code, customer_name, contact_name, contact_phone,\n                   address, is_active, remark, created_at, updated_at\n              from mdm.mdm_customer where 1 = 1\n            ";

pub const BOM_LIST: &'static str = "\n            select h.id, h.bom_code, h.bom_version, h.product_material_id,\n                   m.material_code as product_material_code,\n                   h.route_id, h.is_active, h.remark, h.created_at, h.updated_at\n              from mdm.mdm_bom_h h\n              left join mdm.mdm_material m on m.id = h.product_material_id\n             where 1 = 1\n            ";

pub const ROUTE_LIST: &'static str = "\n            select h.id, h.route_code, h.route_name, h.product_material_id,\n                   m.material_code as product_material_code,\n                   h.is_active, h.remark, h.created_at, h.updated_at\n              from mdm.mdm_route_h h\n              left join mdm.mdm_material m on m.id = h.product_material_id\n             where 1 = 1\n            ";

pub const RECOVERY_TPL_LIST: &'static str = "\n            select h.id, h.tpl_code, h.tpl_name, h.source_material_id,\n                   m.material_code as source_material_code,\n                   h.is_active, h.remark, h.created_at, h.updated_at\n              from mdm.mdm_recovery_tpl_h h\n              left join mdm.mdm_material m on m.id = h.source_material_id\n             where 1 = 1\n            ";

pub const STATUS_FLOW_LIST: &'static str = "\n            select id, source_status, target_status, scene_code,\n                   need_auth_flag, is_active, remark, created_at\n              from mdm.mdm_status_flow\n             where 1 = 1\n            ";

pub const MATERIAL_COUNT: &'static str = "select count(*) from mdm.mdm_material where 1 = 1";

/// The conditions of a material search, in the order they are added.
pub open spec fn material_filters(q: QueryMaterials) -> Seq<Option<SpecClause>> {
    seq![
        keyword_filter("material_code"@, "material_name"@, q.keyword),
        eq_filter(" and material_category = "@, text_spec(q.material_category)),
        eq_filter(" and process_type = "@, text_spec(q.process_type)),
        eq_filter(" and brand = "@, text_spec(q.brand)),
        eq_filter(" and is_active = "@, bool_spec(q.is_active)),
    ]
}

fn material_clauses(q: &QueryMaterials) -> (r: Vec<Option<Clause>>)
    ensures
        filters_view(r@) == material_filters(*q),
        r@.len() == 5,
        forall|i: int| 0 <= i < r@.len() ==> small_filter(#[trigger] r@[i]),
{
    let mut fs: Vec<Option<Clause>> = Vec::new();
    fs.push(keyword_clause("material_code", "material_name", &q.keyword));
    fs.push(text_filter(" and material_category = ", &q.material_category));
    fs.push(text_filter(" and process_type = ", &q.process_type));
    fs.push(text_filter(" and brand = ", &q.brand));
    fs.push(bool_filter(" and is_active = ", q.is_active));
    proof {
        assert(filters_view(fs@) =~= material_filters(*q));
        assert forall|i: int| 0 <= i < fs@.len() implies small_filter(#[trigger] fs@[i]) by {
        }
    }
    fs
}

/// Counts the materials that match the search.
pub fn material_count_query(q: &QueryMaterials) -> (r: SqlQuery)
    ensures
        (r.sql@, binds_view(r.binds@)) == built(MATERIAL_COUNT@, material_filters(*q), ""@),
{
    build_query(MATERIAL_COUNT, material_clauses(q), "")
}

/// One page of the materials that match the search, by material code:
/// the conditions, then `limit` and `offset` as the last two values.
pub fn material_page_query(q: &QueryMaterials, limit: i64, offset: i64) -> (r: SqlQuery)
    ensures
        (r.sql@, binds_view(r.binds@)) == built(
            MATERIAL_COLUMNS@ + " where 1 = 1"@,
            material_filters(*q) + seq![
                Some(eq_clause(" order by material_code  limit "@, BindSpec::Int(limit))),
                Some(eq_clause(" offset "@, BindSpec::Int(offset))),
            ],
            ""@,
        ),
{
    let mut fs = material_clauses(q);
    fs.push(int_filter(" order by material_code  limit ", Some(limit)));
    fs.push(int_filter(" offset ", Some(offset)));
    let mut base = String::new();
    base.append(MATERIAL_COLUMNS);
    base.append(" where 1 = 1");
    proof {
        let want = material_filters(*q) + seq![
            Some(eq_clause(" order by material_code  limit "@, BindSpec::Int(limit))),
            Some(eq_clause(" offset "@, BindSpec::Int(offset))),
        ];
        assert(filters_view(fs@) =~= want);
        assert forall|i: int| 0 <= i < fs@.len() implies small_filter(#[trigger] fs@[i]) by {
        }
    }
    build_query(base.as_str(), fs, "")
}

pub open spec fn supplier_filters(q: QuerySuppliers) -> Seq<Option<SpecClause>> {
    seq![
        keyword_filter("supplier_code"@, "supplier_name"@, q.keyword),
        eq_filter(" and is_active = "@, bool_spec(q.is_active)),
    ]
}

/// The suppliers that match the search, by supplier code, at most 500.
pub fn supplier_list_query(q: &QuerySuppliers) -> (r: SqlQuery)
    ensures
        (r.sql@, binds_view(r.binds@)) == built(SUPPLIER_LIST@, supplier_filters(*q), " order by supplier_code limit 500"@),
{
    let mut fs: Vec<Option<Clause>> = Vec::new();
    fs.push(keyword_clause("supplier_code", "supplier_name", &q.keyword));
    fs.push(bool_filter(" and is_active = ", q.is_active));
    proof {
        assert(filters_view(fs@) =~= supplier_filters(*q));
        assert forall|i: int| 0 <= i < fs@.len() implies small_filter(#[trigger] fs@[i]) by {
        }
    }
    build_query(SUPPLIER_LIST, fs, " order by supplier_code limit 500")
}

pub open spec fn customer_filters(q: QueryCustomers) -> Seq<Option<SpecClause>> {
    seq![
        keyword_filter("customer_code"@, "customer_name"@, q.keyword),
        eq_filter(" and is_active = "@, bool_spec(q.is_active)),
    ]
}

/// The customers that match the search, by customer code, at most 500.
pub fn customer_list_query(q: &QueryCustomers) -> (r: SqlQuery)
    ensures
        (r.sql@, binds_view(r.binds@)) == built(CUSTOMER_LIST@, customer_filters(*q), " order by customer_code limit 500"@),
{
    let mut fs: Vec<Option<Clause>> = Vec::new();
    fs.push(keyword_clause("customer_code", "customer_name", &q.keyword));
    fs.push(bool_filter(" and is_active = ", q.is_active));
    proof {
        assert(filters_view(fs@) =~= customer_filters(*q));
        assert forall|i: int| 0 <= i < fs@.len() implies small_filter(#[trigger] fs@[i]) by {
        }
    }
    build_query(CUSTOMER_LIST, fs, " order by customer_code limit 500")
}

pub open spec fn bom_filters(q: QueryBoms) -> Seq<Option<SpecClause>> {
    seq![
        eq_filter(" and h.bom_code = "@, text_spec(q.bom_code)),
        eq_filter(" and h.product_material_id = "@, int_spec(q.product_material_id)),
        eq_filter(" and h.is_active = "@, bool_spec(q.is_active)),
    ]
}

pub fn bom_list_query(q: &QueryBoms) -> (r: SqlQuery)
    ensures
        (r.sql@, binds_view(r.binds@)) == built(BOM_LIST@, bom_filters(*q), " order by h.bom_code limit 500"@),
{
    let mut fs: Vec<Option<Clause>> = Vec::new();
    fs.push(text_filter(" and h.bom_code = ", &q.bom_code));
    fs.push(int_filter(" and h.product_material_id = ", q.product_material_id));
    fs.push(bool_filter(" and h.is_active = ", q.is_active));
    proof {
        assert(filters_view(fs@) =~= bom_filters(*q));
        assert forall|i: int| 0 <= i < fs@.len() implies small_filter(#[trigger] fs@[i]) by {
        }
    }
    build_query(BOM_LIST, fs, " order by h.bom_code limit 500")
}

pub open spec fn route_filters(q: QueryRoutes) -> Seq<Option<SpecClause>> {
    seq![
        eq_filter(" and h.route_code = "@, text_spec(q.route_code)),
        eq_filter(" and h.product_material_id = "@, int_spec(q.product_material_id)),
        eq_filter(" and h.is_active = "@, bool_spec(q.is_active)),
    ]
}

pub fn route_list_query(q: &QueryRoutes) -> (r: SqlQuery)
    ensures
        (r.sql@, binds_view(r.binds@)) == built(ROUTE_LIST@, route_filters(*q), " order by h.route_code limit 500"@),
{
    let mut fs: Vec<Option<Clause>> = Vec::new();
    fs.push(text_filter(" and h.route_code = ", &q.route_code));
    fs.push(int_filter(" and h.product_material_id = ", q.product_material_id));
    fs.push(bool_filter(" and h.is_active = ", q.is_active));
    proof {
        assert(filters_view(fs@) =~= route_filters(*q));
        assert forall|i: int| 0 <= i < fs@.len() implies small_filter(#[trigger] fs@[i]) by {
        }
    }
    build_query(ROUTE_LIST, fs, " order by h.route_code limit 500")
}

pub open spec fn recovery_tpl_filters(q: QueryRecoveryTpls) -> Seq<Option<SpecClause>> {
    seq![
        eq_filter(" and h.tpl_code = "@, text_spec(q.tpl_code)),
        eq_filter(" and h.source_material_id = "@, int_spec(q.source_material_id)),
        eq_filter(" and h.is_active = "@, bool_spec(q.is_active)),
    ]
}

pub fn recovery_tpl_list_query(q: &QueryRecoveryTpls) -> (r: SqlQuery)
    ensures
        (r.sql@, binds_view(r.binds@)) == built(RECOVERY_TPL_LIST@, recovery_tpl_filters(*q), " order by h.tpl_code limit 500"@),
{
    let mut fs: Vec<Option<Clause>> = Vec::new();
    fs.push(text_filter(" and h.tpl_code = ", &q.tpl_code));
    fs.push(int_filter(" and h.source_material_id = ", q.source_material_id));
    fs.push(bool_filter(" and h.is_active = ", q.is_active));
    proof {
        assert(filters_view(fs@) =~= recovery_tpl_filters(*q));
        assert forall|i: int| 0 <= i < fs@.len() implies small_filter(#[trigger] fs@[i]) by {
        }
    }
    build_query(RECOVERY_TPL_LIST, fs, " order by h.tpl_code limit 500")
}

pub open spec fn status_flow_filters(q: QueryStatusFlow) -> Seq<Option<SpecClause>> {
    seq![
        eq_filter(" and source_status = "@, text_spec(q.source_status)),
        eq_filter(" and scene_code = "@, text_spec(q.scene_code)),
        eq_filter(" and is_active = "@, bool_spec(q.is_active)),
    ]
}

/// The status flows that match, by source status and scene, at most 500.
pub fn status_flow_list_query(q: &QueryStatusFlow) -> (r: SqlQuery)
    ensures
        (r.sql@, binds_view(r.binds@)) == built(STATUS_FLOW_LIST@, status_flow_filters(*q), " order by source_status, scene_code limit 500"@),
{
    let mut fs: Vec<Option<Clause>> = Vec::new();
    fs.push(text_filter(" and source_status = ", &q.source_status));
    fs.push(text_filter(" and scene_code = ", &q.scene_code));
    fs.push(bool_filter(" and is_active = ", q.is_active));
    proof {
        assert(filters_view(fs@) =~= status_flow_filters(*q));
        assert forall|i: int| 0 <= i < fs@.len() implies small_filter(#[trigger] fs@[i]) by {
        }
    }
    build_query(STATUS_FLOW_LIST, fs, " order by source_status, scene_code limit 500")
}

} // verus!
