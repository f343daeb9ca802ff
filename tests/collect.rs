use vanilla_extract_visitor::ast::{ImportDecl, ImportSpecifier, Kind, Node};
use vanilla_extract_visitor::import_collect::ImportCollectVisitor;
use vanilla_extract_visitor::relevant_call::get_relavant_call;

fn import(src: &str, specifiers: Vec<ImportSpecifier>) -> Node {
    Node::new(Kind::Import(ImportDecl { src: src.to_string(), specifiers }), vec![])
}

fn named(local: &str, imported: Option<&str>) -> ImportSpecifier {
    ImportSpecifier::Named { local: local.to_string(), imported: imported.map(|s| s.to_string()) }
}

#[test]
fn collects_style_functions_and_namespace() {
    let mut c = ImportCollectVisitor::new();
    let items = vec![
        import("@vanilla-extract/css", vec![
            named("style", None),
            named("v", Some("createVar")),
            named("notAStyle", None),
            ImportSpecifier::Default("css".to_string()),
        ]),
        import("@vanilla-extract/recipes", vec![ImportSpecifier::Namespace("rc".to_string())]),
    ];
    c.visit_items(&items);
    assert!(c.is_esm);
    assert!(!c.is_compiled);
    assert_eq!(c.namespace_import, Some("rc".to_string()));
    assert_eq!(c.import_identifiers, vec![
        ("style".to_string(), "style".to_string()),
        ("v".to_string(), "createVar".to_string()),
    ]);
}

#[test]
fn marker_import_marks_compiled_and_stops_collecting() {
    let mut c = ImportCollectVisitor::new();
    let items = vec![
        import("@vanilla-extract/css/fileScope", vec![]),
        import("@vanilla-extract/css", vec![named("style", None)]),
    ];
    c.visit_items(&items);
    assert!(c.is_compiled);
    assert!(c.import_identifiers.is_empty());
}

#[test]
fn export_declaration_marks_esm() {
    let mut c = ImportCollectVisitor::new();
    c.visit_items(&vec![Node::wrap(Kind::ExportDecl, Node::new(Kind::VarDecl, vec![]))]);
    assert!(c.is_esm);
    assert!(!c.is_compiled);
}

#[test]
fn relevant_call_by_binding() {
    let ids = vec![("s".to_string(), "style".to_string())];
    let c = Node::call(Node::ident("s"), vec![]);
    assert_eq!(get_relavant_call(&c, &None, &ids), Some("style".to_string()));
    let c = Node::call(Node::ident("style"), vec![]);
    assert_eq!(get_relavant_call(&c, &None, &ids), None);
}

#[test]
fn relevant_call_by_namespace() {
    let ns = Some("ve".to_string());
    let ids = vec![("style".to_string(), "style".to_string())];
    let c = Node::call(Node::member(Node::ident("ve"), "keyframes"), vec![]);
    assert_eq!(get_relavant_call(&c, &ns, &ids), Some("keyframes".to_string()));
    let c = Node::call(Node::member(Node::ident("ve"), "unknown"), vec![]);
    assert_eq!(get_relavant_call(&c, &ns, &ids), None);
    let c = Node::call(Node::member(Node::ident("other"), "style"), vec![]);
    assert_eq!(get_relavant_call(&c, &ns, &ids), None);
    let c = Node::call(Node::ident("style"), vec![]);
    assert_eq!(get_relavant_call(&c, &ns, &ids), None);
}
