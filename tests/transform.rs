use vanilla_extract_visitor::ast::{ImportDecl, ImportSpecifier, Kind, Node};
use vanilla_extract_visitor::{create_extract_visitor, VanillaExtractVisitor};

fn node(kind: Kind, children: Vec<Node>) -> Node {
    Node::new(kind, children)
}

fn ident(name: &str) -> Node {
    Node::ident(name)
}

fn string(value: &str) -> Node {
    Node::string(value)
}

fn empty_object() -> Node {
    node(Kind::Object, vec![])
}

fn call(callee: &str, args: Vec<Node>) -> Node {
    Node::call(ident(callee), args)
}

fn import_named(names: &[&str], src: &str) -> Node {
    let specifiers = names
        .iter()
        .map(|n| ImportSpecifier::Named { local: n.to_string(), imported: None })
        .collect();
    node(Kind::Import(ImportDecl { src: src.to_string(), specifiers }), vec![])
}

fn import_star(local: &str, src: &str) -> Node {
    let specifiers = vec![ImportSpecifier::Namespace(local.to_string())];
    node(Kind::Import(ImportDecl { src: src.to_string(), specifiers }), vec![])
}

fn declarator(name: Node, init: Node) -> Node {
    node(Kind::Declarator, vec![name, init])
}

fn const_decl(name: &str, init: Node) -> Node {
    node(Kind::VarDecl, vec![declarator(ident(name), init)])
}

fn export(decl: Node) -> Node {
    Node::wrap(Kind::ExportDecl, decl)
}

fn expr_stmt(e: Node) -> Node {
    Node::wrap(Kind::ExprStmt, e)
}

fn visitor() -> VanillaExtractVisitor {
    VanillaExtractVisitor::new("src/theme.css.ts", "my-package", "/root")
}

fn dump(items: &Vec<Node>) -> String {
    format!("{:?}", items)
}

/// The string literal arguments of a call node.
fn str_args(call: &Node) -> Vec<String> {
    call.children[1..]
        .iter()
        .filter_map(|a| match &a.kind {
            Kind::Str(s) => Some(s.clone()),
            _ => None,
        })
        .collect()
}

fn run(items: Vec<Node>) -> Vec<Node> {
    let mut items = items;
    visitor().visit_mut_module_items(&mut items);
    items
}

/// The init of the first declarator of `export const x = init` or `const x = init`.
fn init_of(item: &Node) -> &Node {
    let decl = match item.kind {
        Kind::ExportDecl => &item.children[0],
        _ => item,
    };
    &decl.children[0].children[1]
}

fn is_marker_import(n: &Node) -> bool {
    match &n.kind {
        Kind::Import(d) => d.src == "@vanilla-extract/css/fileScope",
        _ => false,
    }
}

/// `(method, string args)` of a `__vanilla_filescope__.method(...)` statement.
fn scope_call(n: &Node) -> (String, Vec<String>) {
    assert!(matches!(n.kind, Kind::ExprStmt));
    let call = &n.children[0];
    let callee = &call.children[0];
    match (&callee.kind, &callee.children[0].kind) {
        (Kind::Member(m), Kind::Ident(obj)) => {
            assert_eq!(obj, "__vanilla_filescope__");
            (m.clone(), str_args(call))
        },
        _ => panic!("not a scope call"),
    }
}

#[test]
fn names_exported_theme_after_its_binding() {
    let out = run(vec![
        import_named(&["createTheme"], "@vanilla-extract/css"),
        export(const_decl("themeClass", call("createTheme", vec![empty_object()]))),
    ]);
    assert_eq!(str_args(init_of(&out[3])), vec!["themeClass".to_string()]);
}

#[test]
fn joins_binding_and_property_names() {
    let value = call("style", vec![empty_object()]);
    let prop = node(Kind::KeyValue, vec![ident("light"), value]);
    let out = run(vec![
        import_named(&["style"], "@vanilla-extract/css"),
        const_decl("theme", node(Kind::Object, vec![prop])),
    ]);
    let object = init_of(&out[3]);
    let light = &object.children[0].children[1];
    assert_eq!(str_args(light), vec!["theme_light".to_string()]);
}

#[test]
fn bare_call_gets_no_id() {
    let out = run(vec![
        import_named(&["style"], "@vanilla-extract/css"),
        expr_stmt(call("style", vec![empty_object()])),
    ]);
    assert_eq!(out[3].children[0].children.len(), 2);
}

#[test]
fn lowered_destructuring_is_named_after_third_declarator() {
    let decl = node(Kind::VarDecl, vec![
        declarator(ident("_createTheme"), call("createTheme", vec![empty_object()])),
        declarator(
            ident("_createTheme2"),
            call("_slicedToArray", vec![ident("_createTheme"), node(Kind::OtherExpr, vec![])]),
        ),
        declarator(ident("themeClass"), node(Kind::OtherExpr, vec![ident("_createTheme2")])),
        declarator(ident("vars"), node(Kind::OtherExpr, vec![ident("_createTheme2")])),
    ]);
    let out = run(vec![import_named(&["createTheme"], "@vanilla-extract/css"), export(decl)]);
    let create = &out[3].children[0].children[0].children[1];
    assert_eq!(str_args(create), vec!["themeClass".to_string()]);
}

#[test]
fn namespace_import_recognises_member_calls_only() {
    let member_call = Node::call(Node::member(ident("ve"), "style"), vec![empty_object()]);
    let out = run(vec![
        import_star("ve", "@vanilla-extract/css"),
        const_decl("a", member_call),
        const_decl("b", call("style", vec![empty_object()])),
    ]);
    assert_eq!(str_args(init_of(&out[3])), vec!["a".to_string()]);
    assert_eq!(init_of(&out[4]).children.len(), 2);
}

#[test]
fn named_import_mode_ignores_unbound_names() {
    let out = run(vec![
        import_named(&["style"], "@vanilla-extract/css"),
        const_decl("a", call("keyframes", vec![empty_object()])),
        const_decl("b", call("style", vec![empty_object()])),
    ]);
    assert_eq!(init_of(&out[3]).children.len(), 2);
    assert_eq!(str_args(init_of(&out[4])), vec!["b".to_string()]);
}

#[test]
fn aliased_import_is_recognised() {
    let spec = ImportSpecifier::Named { local: "s".to_string(), imported: Some("style".to_string()) };
    let import = node(
        Kind::Import(ImportDecl { src: "@vanilla-extract/css".to_string(), specifiers: vec![spec] }),
        vec![],
    );
    let out = run(vec![import, const_decl("box", call("s", vec![empty_object()]))]);
    assert_eq!(str_args(init_of(&out[3])), vec!["box".to_string()]);
}

#[test]
fn imports_of_other_packages_are_ignored() {
    let out = run(vec![
        import_named(&["style"], "some-other-package"),
        const_decl("a", call("style", vec![empty_object()])),
    ]);
    assert_eq!(init_of(&out[3]).children.len(), 2);
}

#[test]
fn wraps_module_in_file_scope() {
    let out = run(vec![
        import_named(&["style"], "@vanilla-extract/css"),
        const_decl("a", call("style", vec![empty_object()])),
    ]);
    assert_eq!(out.len(), 5);
    assert!(is_marker_import(&out[0]));
    match &out[0].kind {
        Kind::Import(d) => match &d.specifiers[..] {
            [ImportSpecifier::Namespace(l)] => assert_eq!(l, "__vanilla_filescope__"),
            _ => panic!("expected one namespace specifier"),
        },
        _ => unreachable!(),
    }
    let (method, args) = scope_call(&out[1]);
    assert_eq!(method, "setFileScope");
    assert_eq!(args, vec!["/root/src/theme.css.ts".to_string(), "my-package".to_string()]);
    let (method, args) = scope_call(&out[4]);
    assert_eq!(method, "endFileScope");
    assert!(args.is_empty());
    assert_eq!(out[4].children[0].children.len(), 1);
}

#[test]
fn transform_is_idempotent() {
    let items = vec![
        import_named(&["createTheme", "style"], "@vanilla-extract/css"),
        export(const_decl("themeClass", call("createTheme", vec![empty_object()]))),
        const_decl("box", call("style", vec![empty_object()])),
    ];
    let once = run(items);
    let twice = run(once.iter().map(clone_node).collect());
    assert_eq!(dump(&once), dump(&twice));
}

fn clone_node(n: &Node) -> Node {
    let kind = match &n.kind {
        Kind::Ident(s) => Kind::Ident(s.clone()),
        Kind::Str(s) => Kind::Str(s.clone()),
        Kind::Member(s) => Kind::Member(s.clone()),
        Kind::Call => Kind::Call,
        Kind::ExprStmt => Kind::ExprStmt,
        Kind::VarDecl => Kind::VarDecl,
        Kind::Declarator => Kind::Declarator,
        Kind::ExportDecl => Kind::ExportDecl,
        Kind::Object => Kind::Object,
        Kind::Import(d) => Kind::Import(ImportDecl {
            src: d.src.clone(),
            specifiers: d
                .specifiers
                .iter()
                .map(|s| match s {
                    ImportSpecifier::Named { local, imported } => ImportSpecifier::Named {
                        local: local.clone(),
                        imported: imported.clone(),
                    },
                    ImportSpecifier::Default(l) => ImportSpecifier::Default(l.clone()),
                    ImportSpecifier::Namespace(l) => ImportSpecifier::Namespace(l.clone()),
                })
                .collect(),
        }),
        other => panic!("kind not used here: {:?}", other),
    };
    Node::new(kind, n.children.iter().map(clone_node).collect())
}

#[test]
fn already_compiled_module_is_left_alone() {
    let items = vec![
        import_star("__vanilla_filescope__", "@vanilla-extract/css/fileScope"),
        import_named(&["style"], "@vanilla-extract/css"),
        const_decl("a", call("style", vec![empty_object()])),
    ];
    let before = dump(&items);
    let out = run(items);
    assert_eq!(dump(&out), before);
}

#[test]
fn require_of_marker_counts_as_compiled() {
    let items = vec![
        import_named(&["style"], "@vanilla-extract/css"),
        expr_stmt(call("require", vec![string("@vanilla-extract/css/fileScope")])),
        const_decl("a", call("style", vec![empty_object()])),
    ];
    let out = run(items);
    assert_eq!(out.len(), 3);
    assert!(!is_marker_import(&out[0]));
    assert_eq!(init_of(&out[2]).children.len(), 2);
}

#[test]
fn require_of_other_package_does_not_count() {
    let out = run(vec![
        import_named(&["style"], "@vanilla-extract/css"),
        expr_stmt(call("require", vec![string("other")])),
    ]);
    assert_eq!(out.len(), 5);
}

#[test]
fn style_at_threshold_is_not_annotated() {
    let out = run(vec![
        import_named(&["style"], "@vanilla-extract/css"),
        const_decl("a", call("style", vec![empty_object(), string("given")])),
    ]);
    assert_eq!(str_args(init_of(&out[3])), vec!["given".to_string()]);
}

#[test]
fn create_var_without_arguments_gets_one_id() {
    let out = run(vec![
        import_named(&["createVar"], "@vanilla-extract/css"),
        const_decl("color", call("createVar", vec![])),
        const_decl("given", call("createVar", vec![string("x")])),
    ]);
    assert_eq!(str_args(init_of(&out[3])), vec!["color".to_string()]);
    assert_eq!(str_args(init_of(&out[4])), vec!["x".to_string()]);
}

#[test]
fn create_theme_below_three_arguments_gets_id() {
    let out = run(vec![
        import_named(&["createTheme"], "@vanilla-extract/css"),
        const_decl("t", call("createTheme", vec![ident("contract"), empty_object()])),
        const_decl("u", call("createTheme", vec![ident("c"), empty_object(), string("u")])),
    ]);
    let t = init_of(&out[3]);
    assert_eq!(t.children.len(), 4);
    assert_eq!(str_args(t), vec!["t".to_string()]);
    assert_eq!(init_of(&out[4]).children.len(), 4);
}

#[test]
fn non_annotatable_style_function_is_not_annotated() {
    let out = run(vec![
        import_named(&["globalStyle"], "@vanilla-extract/css"),
        const_decl("g", call("globalStyle", vec![string("body"), empty_object()])),
    ]);
    assert_eq!(init_of(&out[3]).children.len(), 3);
}

#[test]
fn only_first_qualifying_call_of_a_statement_gets_the_id() {
    let a = node(Kind::KeyValue, vec![ident("a"), call("style", vec![empty_object()])]);
    let b = node(Kind::KeyValue, vec![ident("b"), call("style", vec![empty_object()])]);
    let out = run(vec![
        import_named(&["style"], "@vanilla-extract/css"),
        const_decl("styles", node(Kind::Object, vec![a, b])),
    ]);
    let object = init_of(&out[3]);
    assert_eq!(str_args(&object.children[0].children[1]), vec!["styles_a".to_string()]);
    assert_eq!(object.children[1].children[1].children.len(), 2);
}

#[test]
fn non_style_file_is_left_alone() {
    let items = vec![
        import_named(&["style"], "@vanilla-extract/css"),
        const_decl("a", call("style", vec![empty_object()])),
    ];
    let before = dump(&items);
    let mut out = items;
    VanillaExtractVisitor::new("src/theme.ts", "p", "/root").visit_mut_module_items(&mut out);
    assert_eq!(dump(&out), before);
}

#[test]
fn recipes_package_is_inspected() {
    let out = run(vec![
        import_named(&["recipe"], "@vanilla-extract/recipes"),
        const_decl("button", call("recipe", vec![empty_object()])),
    ]);
    assert_eq!(str_args(init_of(&out[3])), vec!["button".to_string()]);
}

#[test]
fn create_extract_visitor_matches_new() {
    let v = create_extract_visitor("a.css.js", "pkg", "dir");
    assert!(v.is_css_file);
    assert_eq!(v.package_name, "pkg");
    assert_eq!(v.file_path, "dir/a.css.js");
}
