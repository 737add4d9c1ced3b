use cuba_ims::catalog::{CAT_DUPLICATE_STEP, CAT_INVALID_CATEGORY};
use cuba_ims::customer_return::{CR_EMPTY_LINES, CR_INVALID_JUDGE};
use cuba_ims::defect::{DEF_EMPTY_LINES, DEF_INVALID_SOURCE};
use cuba_ims::error::{NOT_FOUND, UNAUTHENTICATED};
use cuba_ims::errorcodes::{
    classify, group_by_segment, make_entry, parse_custom, parse_self, render_markdown,
    scan_text, sort_entries, ErrorEntry,
};

fn entry(code: u32, name: &str) -> ErrorEntry {
    make_entry(code, name.to_string(), "cuba-x", &vec![])
}

#[test]
fn codes_are_classified_by_thousands() {
    assert_eq!(classify(20101), ("20xxx".to_string(), "库存 inventory".to_string()));
    assert_eq!(classify(10401), ("10xxx".to_string(), "通用".to_string()));
    assert_eq!(classify(44103), ("44xxx".to_string(), "客退 customer-return".to_string()));
    assert_eq!(classify(47000), ("47xxx".to_string(), "盘点 stocktake".to_string()));
    assert_eq!(classify(99999), ("99xxx".to_string(), "未分类".to_string()));
    assert_eq!(classify(7), ("0xxx".to_string(), "未分类".to_string()));
}

#[test]
fn an_entry_joins_its_doc_lines() {
    let e = make_entry(22101, "CAT_X".to_string(), "cuba-catalog", &vec!["第一行".to_string(), "第二行 ".to_string()]);
    assert_eq!(e.code, 22101);
    assert_eq!(e.name, "CAT_X");
    assert_eq!(e.segment, "22xxx");
    assert_eq!(e.segment_name, "主数据 catalog");
    assert_eq!(e.crate_name, "cuba-catalog");
    assert_eq!(e.description, "第一行 第二行");
    assert_eq!(make_entry(1, "A".to_string(), "c", &vec![]).description, "");
}

#[test]
fn custom_definitions_are_parsed() {
    let e = parse_custom("pub const INV_INSUFFICIENT: ErrorCode = ErrorCode::custom(20101);", "cuba-inventory", &vec![]).unwrap();
    assert_eq!((e.code, e.name.as_str()), (20101, "INV_INSUFFICIENT"));
    let e = parse_custom("pub const  A : ErrorCode = ErrorCode::custom( 42 );", "c", &vec![]).unwrap();
    assert_eq!((e.code, e.name.as_str()), (42, "A"));
    assert!(parse_custom("const A: ErrorCode = ErrorCode::custom(1);", "c", &vec![]).is_none());
    assert!(parse_custom("pub const A: ErrorCode = ErrorCode::custom(x);", "c", &vec![]).is_none());
    assert!(parse_custom("pub const A: ErrorCode = ErrorCode::custom(-1);", "c", &vec![]).is_none());
    assert!(parse_custom("pub const A: ErrorCode = ErrorCode::custom(4294967296);", "c", &vec![]).is_none());
    assert!(parse_custom("pub const A ErrorCode", "c", &vec![]).is_none());
    let e = parse_custom("pub const A: ErrorCode = ErrorCode::custom(+7);", "c", &vec![]).unwrap();
    assert_eq!(e.code, 7);
}

#[test]
fn self_definitions_are_parsed() {
    let e = parse_self("pub const UNAUTHENTICATED: Self = Self(10401);", "cuba-shared", &vec!["未登录".to_string()]).unwrap();
    assert_eq!((e.code, e.name.as_str(), e.description.as_str()), (10401, "UNAUTHENTICATED", "未登录"));
    assert!(parse_self("pub const X: u32 = 5;", "c", &vec![]).is_none());
    assert!(parse_self("pub const X: Self = Self(abc);", "c", &vec![]).is_none());
}

#[test]
fn scanning_keeps_doc_comments_above_definitions() {
    let text = "\
//! module doc
use crate::x;

/// 库存不足
/// 请补货
#[allow(dead_code)]
pub const INV_INSUFFICIENT: ErrorCode = ErrorCode::custom(20101);
/// dropped by the code line below
let x = 1;
pub const INV_LOCKED: ErrorCode = ErrorCode::custom(20102);
// plain comment
pub const UNAUTHENTICATED: Self = Self(10401);
";
    let es = scan_text(text, "cuba-inventory");
    let got: Vec<(u32, &str, &str)> = es.iter().map(|e| (e.code, e.name.as_str(), e.description.as_str())).collect();
    assert_eq!(
        got,
        vec![(20101, "INV_INSUFFICIENT", "库存不足 请补货"), (20102, "INV_LOCKED", ""), (10401, "UNAUTHENTICATED", "")]
    );
    assert!(es.iter().all(|e| e.crate_name == "cuba-inventory"));
}

#[test]
fn crlf_lines_are_trimmed() {
    let es = scan_text("/// 描述\r\npub const A: ErrorCode = ErrorCode::custom(30101);\r\n", "c");
    assert_eq!(es.len(), 1);
    assert_eq!(es[0].description, "描述");
}

#[test]
fn sorting_is_by_code_and_stable() {
    let es = vec![entry(31001, "B"), entry(10401, "A"), entry(31001, "C"), entry(20101, "D")];
    let names: Vec<String> = sort_entries(es).into_iter().map(|e| e.name).collect();
    assert_eq!(names, vec!["A", "D", "B", "C"]);
}

#[test]
fn groups_follow_segment_text_order() {
    let es = sort_entries(vec![entry(40101, "D"), entry(7, "Z"), entry(10401, "A"), entry(40102, "E")]);
    let gs = group_by_segment(es);
    let shape: Vec<(String, Vec<String>)> =
        gs.into_iter().map(|g| (g.segment, g.entries.into_iter().map(|e| e.name).collect())).collect();
    assert_eq!(
        shape,
        vec![
            ("0xxx".to_string(), vec!["Z".to_string()]),
            ("10xxx".to_string(), vec!["A".to_string()]),
            ("40xxx".to_string(), vec!["D".to_string(), "E".to_string()]),
        ]
    );
}

#[test]
fn the_markdown_table() {
    let mut a = entry(10401, "UNAUTHENTICATED");
    a.description = "未登录".to_string();
    let b = entry(40101, "DEF_INVALID_SOURCE");
    let gs = group_by_segment(vec![a, b]);
    let md = render_markdown(2, &gs);
    let expected = "# 错误码表\n\n\
> 自动生成自源码,共 2 条。手动修改无效。\n\n\
## 约定\n\n\
- 业务错误 → HTTP 200 + `code != 0`\n\
- 系统错误 → HTTP 4xx/5xx + `code`\n\
- 前端应按 `code` 做统一拦截,而非 HTTP 状态\n\n\
## 段位划分\n\n\
| 段位 | 模块 |\n|---|---|\n\
| `10xxx` | 通用 |\n\
| `40xxx` | 不良 defect |\n\
\n\
\n## 10xxx — 通用\n\n\
| 码 | 常量名 | 来源 | 含义 |\n|---|---|---|---|\n\
| `10401` | `UNAUTHENTICATED` | `cuba-x` | 未登录 |\n\
\n## 40xxx — 不良 defect\n\n\
| 码 | 常量名 | 来源 | 含义 |\n|---|---|---|---|\n\
| `40101` | `DEF_INVALID_SOURCE` | `cuba-x` | — |\n";
    assert_eq!(md, expected);
}

#[test]
fn module_codes_fall_in_their_segments() {
    for c in [CAT_INVALID_CATEGORY, CAT_DUPLICATE_STEP] {
        assert_eq!(classify(c).1, "主数据 catalog");
    }
    for c in [DEF_INVALID_SOURCE, DEF_EMPTY_LINES] {
        assert_eq!(classify(c).1, "不良 defect");
    }
    for c in [CR_INVALID_JUDGE, CR_EMPTY_LINES] {
        assert_eq!(classify(c).1, "客退 customer-return");
    }
    for c in [NOT_FOUND, UNAUTHENTICATED] {
        assert_eq!(classify(c).1, "通用");
    }
}

#[test]
fn a_trailing_comment_describes_an_undocumented_definition() {
    let es = scan_text("pub const INV_BATCH: ErrorCode = ErrorCode::custom(20102); // 批次不存在\n", "cuba-x");
    assert_eq!(es.len(), 1);
    assert_eq!(es[0], make_entry(20102, "INV_BATCH".to_string(), "cuba-x", &vec!["批次不存在".to_string()]));
    assert_eq!(es[0].description, "批次不存在");
    assert_eq!(es[0].segment_name, "库存 inventory");
    let es = scan_text("/// 文档\npub const A: Self = Self(10401); // 行内\n", "c");
    assert_eq!(es[0].description, "文档");
    let es = scan_text("pub const A: Self = Self(10401); ///  多斜杠 \n", "c");
    assert_eq!(es[0].description, "多斜杠");
}
