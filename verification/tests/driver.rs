use no_mangle_pub_export_c_fn::FileParse;
use no_mangle_pub_export_c_fn::FnDecl;
use no_mangle_pub_export_c_fn::LineColumnEnds;
use no_mangle_pub_export_c_fn::SourceItem;
use no_mangle_pub_export_c_fn::parse_for_no_mangle_pub_extern_c_fns;

fn span(start_line: usize, start_column: usize, end_line: usize, end_column: usize) -> LineColumnEnds {
    LineColumnEnds::new(start_line, start_column, end_line, end_column)
}

fn matching_decl(span: LineColumnEnds) -> FnDecl {
    FnDecl {
        is_public: true,
        attr_idents: vec![Some("no_mangle".to_string())],
        abi: Some(Some("C".to_string())),
        span,
    }
}

fn private_marked_decl(span: LineColumnEnds) -> FnDecl {
    FnDecl {
        is_public: false,
        attr_idents: vec![Some("no_mangle".to_string())],
        abi: Some(Some("C".to_string())),
        span,
    }
}

fn leaf(decl: FnDecl) -> SourceItem {
    SourceItem::Fn { decl, nested: vec![] }
}

#[test]
fn one_file_with_one_export_boundary_fn() {
    let files = vec![FileParse {
        path: "src/unused.rs".to_string(),
        tree: Some(vec![leaf(matching_decl(span(1, 0, 4, 1)))]),
    }];
    let reports = parse_for_no_mangle_pub_extern_c_fns(&files);
    assert_eq!(reports.len(), 1);
    assert_eq!(reports[0].path, "src/unused.rs");
    assert_eq!(reports[0].no_mangle_pub_export_c_fns.0, vec![span(1, 0, 4, 1)]);
}

#[test]
fn private_marked_fn_yields_a_report_with_an_empty_match_set() {
    let files = vec![FileParse {
        path: "src/private.rs".to_string(),
        tree: Some(vec![leaf(private_marked_decl(span(1, 0, 4, 1)))]),
    }];
    let reports = parse_for_no_mangle_pub_extern_c_fns(&files);
    assert_eq!(reports.len(), 1);
    assert_eq!(reports[0].path, "src/private.rs");
    assert!(reports[0].no_mangle_pub_export_c_fns.0.is_empty());
}

#[test]
fn malformed_file_is_skipped_without_aborting_the_scan() {
    let files = vec![
        FileParse { path: "src/broken.rs".to_string(), tree: None },
        FileParse {
            path: "src/good.rs".to_string(),
            tree: Some(vec![leaf(matching_decl(span(2, 0, 5, 1)))]),
        },
    ];
    let reports = parse_for_no_mangle_pub_extern_c_fns(&files);
    assert_eq!(reports.len(), 1);
    assert_eq!(reports[0].path, "src/good.rs");
    assert_eq!(reports[0].no_mangle_pub_export_c_fns.0, vec![span(2, 0, 5, 1)]);
}

#[test]
fn reports_keep_the_input_order() {
    let files = vec![
        FileParse { path: "src/a.rs".to_string(), tree: Some(vec![]) },
        FileParse { path: "src/b.rs".to_string(), tree: None },
        FileParse {
            path: "src/c.rs".to_string(),
            tree: Some(vec![leaf(matching_decl(span(7, 0, 9, 1)))]),
        },
    ];
    let reports = parse_for_no_mangle_pub_extern_c_fns(&files);
    assert_eq!(reports.len(), 2);
    assert_eq!(reports[0].path, "src/a.rs");
    assert!(reports[0].no_mangle_pub_export_c_fns.0.is_empty());
    assert_eq!(reports[1].path, "src/c.rs");
    assert_eq!(reports[1].no_mangle_pub_export_c_fns.0, vec![span(7, 0, 9, 1)]);
}

#[test]
fn no_files_means_no_reports() {
    let files: Vec<FileParse> = vec![];
    let reports = parse_for_no_mangle_pub_extern_c_fns(&files);
    assert!(reports.is_empty());
}
