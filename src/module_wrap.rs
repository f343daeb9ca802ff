//! The whole-module transform: debug ids for every statement, then the
//! file-scope bracket.
use vstd::prelude::*;
use vstd::string::*;
use crate::ast::{ident_name, is_call, str_value, ImportDecl, ImportSpecifier, Kind, Node};
use crate::constants::{file_scope_import_name, file_scope_import_name_string, file_scope_package, file_scope_package_string};
use crate::debug_id_find::{find_item, DebugIdFindVisitor, FindState};
use crate::debug_id_inject::{injected, DebugIdInjectVisitor};
use crate::import_collect::{collect_module, ImportCollectVisitor};
use crate::outside::{regex_is_match, regex_match, slash_joined_path};
use crate::relevant_call::bindings_view;

verus! {

/// Names of the files that are transformed.
pub open spec fn css_file_pattern() -> Seq<char> {
    "\\.css\\.(js|mjs|jsx|ts|tsx)(\\?used)?$"@
}

/// `filename` names a style module.
pub open spec fn is_target_file(filename: Seq<char>) -> bool {
    regex_match(css_file_pattern(), filename) == Some(true)
}

/// Whether `filename` names a style module: `.css.` followed by one of the
/// extensions js, mjs, jsx, ts, tsx, and an optional `?used`, at its end.
pub fn is_css_file(filename: &str) -> (r: bool)
    ensures
        r == is_target_file(filename@),
{
    match regex_is_match("\\.css\\.(js|mjs|jsx|ts|tsx)(\\?used)?$", filename) {
        Some(m) => m,
        None => false,
    }
}

/// Whether the items before position `k` hold a require of the marker package,
/// as the finder sees them.
pub open spec fn compiled_before(
    items: Seq<Node>,
    k: int,
    ns: Option<Seq<char>>,
    bs: Seq<(Seq<char>, Seq<char>)>,
) -> bool
    decreases k,
{
    if k <= 0 || k > items.len() {
        false
    } else {
        compiled_before(items, k - 1, ns, bs) || find_item(items[k - 1], ns, bs).compiled
    }
}

/// `new` is item `k` of `items` after its debug-id pass: unchanged once the
/// module has turned out to be compiled, else with the id that the finder
/// computed for it injected.
pub open spec fn item_processed(
    items: Seq<Node>,
    k: int,
    new: Node,
    ns: Option<Seq<char>>,
    bs: Seq<(Seq<char>, Seq<char>)>,
) -> bool {
    if compiled_before(items, k, ns, bs) {
        new == items[k]
    } else {
        injected(items[k], new, find_item(items[k], ns, bs).id, ns, bs)
    }
}

pub open spec fn items_processed(
    olds: Seq<Node>,
    news: Seq<Node>,
    ns: Option<Seq<char>>,
    bs: Seq<(Seq<char>, Seq<char>)>,
) -> bool {
    &&& news.len() == olds.len()
    &&& forall|k: int| 0 <= k < olds.len() ==> item_processed(olds, k, #[trigger] news[k], ns, bs)
}

/// `import * as __vanilla_filescope__ from "@vanilla-extract/css/fileScope"`.
pub open spec fn is_scope_import(n: Node) -> bool {
    &&& n.children@.len() == 0
    &&& match n.kind {
        Kind::Import(d) => {
            &&& d.src@ == file_scope_package()
            &&& d.specifiers@.len() == 1
            &&& d.specifiers@[0] matches ImportSpecifier::Namespace(l) && l@ == file_scope_import_name()
        },
        _ => false,
    }
}

/// The statement `__vanilla_filescope__.<method>(<args as string literals>)`.
pub open spec fn is_scope_call(n: Node, method: Seq<char>, args: Seq<Seq<char>>) -> bool {
    &&& n.kind is ExprStmt
    &&& n.children@.len() == 1
    &&& is_call(n.children@[0])
    &&& n.children@[0].children@.len() == args.len() + 1
    &&& n.children@[0].children@[0].kind matches Kind::Member(m) && m@ == method
    &&& n.children@[0].children@[0].children@.len() == 1
    &&& ident_name(n.children@[0].children@[0].children@[0]) == Some(file_scope_import_name())
    &&& n.children@[0].children@[0].children@[0].children@.len() == 0
    &&& forall|j: int|
        0 <= j < args.len() ==> str_value(#[trigger] n.children@[0].children@[j + 1]) == Some(args[j])
            && n.children@[0].children@[j + 1].children@.len() == 0
}

/// The top-level visitor: configuration for one file.
pub struct VanillaExtractVisitor {
    /// The file's path relative to the root directory, with `/` separators.
    pub file_path: String,
    /// The package name passed to `setFileScope`.
    pub package_name: String,
    /// Whether the file is a style module.
    pub is_css_file: bool,
}

/// `news` is what the transform makes of the top-level items `olds`.
pub open spec fn transformed(v: VanillaExtractVisitor, olds: Seq<Node>, news: Seq<Node>) -> bool {
    let st = collect_module(olds);
    let ns = st.namespace;
    let bs = st.bindings;
    if !v.is_css_file || st.is_compiled {
        news == olds
    } else if compiled_before(olds, olds.len() as int, ns, bs) {
        items_processed(olds, news, ns, bs)
    } else {
        &&& news.len() == olds.len() + 3
        &&& is_scope_import(news[0])
        &&& is_scope_call(news[1], "setFileScope"@, seq![v.file_path@, v.package_name@])
        &&& is_scope_call(news.last(), "endFileScope"@, seq![])
        &&& items_processed(olds, news.subrange(2, news.len() - 1), ns, bs)
    }
}

fn clone_bindings(v: &Vec<(String, String)>) -> (r: Vec<(String, String)>)
    ensures
        bindings_view(r@) == bindings_view(v@),
{
    let mut r: Vec<(String, String)> = Vec::new();
    let mut i: usize = 0;
    while i < v.len()
        invariant
            i <= v@.len(),
            bindings_view(r@) =~= bindings_view(v@.take(i as int)),
        decreases v@.len() - i,
    {
        let a = v[i].0.clone();
        let b = v[i].1.clone();
        let ghost before = r@;
        r.push((a, b));
        proof {
            assert(v@.take(i + 1) =~= v@.take(i as int).push(v@[i as int]));
            assert(bindings_view(r@) =~= bindings_view(before).push((a@, b@)));
            assert(bindings_view(v@.take(i + 1)) =~= bindings_view(v@.take(i as int)).push(
                (v@[i as int].0@, v@[i as int].1@),
            ));
        }
        i = i + 1;
    }
    proof {
        assert(v@.take(i as int) =~= v@);
    }
    r
}

fn scope_import() -> (r: Node)
    ensures
        is_scope_import(r),
{
    let mut specifiers = Vec::new();
    specifiers.push(ImportSpecifier::Namespace(file_scope_import_name_string()));
    Node {
        kind: Kind::Import(ImportDecl { src: file_scope_package_string(), specifiers }),
        children: Vec::new(),
    }
}

fn scope_call(method: &str, args: Vec<String>) -> (r: Node)
    ensures
        is_scope_call(r, method@, args@.map_values(|a: String| a@)),
{
    let ghost av = args@.map_values(|a: String| a@);
    let obj = Node { kind: Kind::Ident(file_scope_import_name_string()), children: Vec::new() };
    let mut obj_children = Vec::new();
    obj_children.push(obj);
    let callee = Node { kind: Kind::Member(String::from_str(method)), children: obj_children };
    let mut call_children = Vec::new();
    call_children.push(callee);
    let mut i: usize = 0;
    while i < args.len()
        invariant
            i <= args@.len(),
            av == args@.map_values(|a: String| a@),
            call_children@.len() == i + 1,
            call_children@[0].kind matches Kind::Member(m) && m@ == method@,
            call_children@[0].children@.len() == 1,
            ident_name(call_children@[0].children@[0]) == Some(file_scope_import_name()),
            call_children@[0].children@[0].children@.len() == 0,
            forall|j: int|
                0 <= j < i ==> str_value(#[trigger] call_children@[j + 1]) == Some(av[j])
                    && call_children@[j + 1].children@.len() == 0,
        decreases args@.len() - i,
    {
        call_children.push(Node { kind: Kind::Str(args[i].clone()), children: Vec::new() });
        i = i + 1;
    }
    let call = Node { kind: Kind::Call, children: call_children };
    let mut stmt_children = Vec::new();
    stmt_children.push(call);
    Node { kind: Kind::ExprStmt, children: stmt_children }
}

impl VanillaExtractVisitor {
    /// The visitor for `filename`, whose path is taken relative to `package_dir`.
    pub fn new(filename: &str, package_name: &str, package_dir: &str) -> (r: Self)
        ensures
            r.package_name@ == package_name@,
            r.is_css_file == is_target_file(filename@),
    {
        VanillaExtractVisitor {
            file_path: slash_joined_path(package_dir, filename),
            package_name: String::from_str(package_name),
            is_css_file: is_css_file(filename),
        }
    }

    /// Transforms the module's top-level items in place.
    pub fn visit_mut_module_items(&self, items: &mut Vec<Node>)
        ensures
            transformed(*self, old(items)@, final(items)@),
    {
        if !self.is_css_file {
            return;
        }
        let ghost olds = items@;
        let mut collector = ImportCollectVisitor::new();
        collector.visit_items(items);
        if collector.is_compiled {
            return;
        }
        let ghost ns = collector.state().namespace;
        let ghost bs = collector.state().bindings;
        let mut finder = DebugIdFindVisitor::new(
            collector.namespace_import.clone(),
            clone_bindings(&collector.import_identifiers),
        );
        let mut injector = DebugIdInjectVisitor::new(
            collector.namespace_import,
            collector.import_identifiers,
        );
        let mut i: usize = 0;
        while i < items.len()
            invariant
                items@.len() == olds.len(),
                i <= olds.len(),
                finder.state() == (FindState {
                    compiled: compiled_before(olds, i as int, ns, bs),
                    found: false,
                    id: None,
                }),
                finder.namespace() == ns,
                finder.bindings() == bs,
                injector.namespace() == ns,
                injector.bindings() == bs,
                forall|k: int| 0 <= k < i ==> item_processed(olds, k, #[trigger] items@[k], ns, bs),
                forall|k: int| i <= k < olds.len() ==> #[trigger] items@[k] == olds[k],
            decreases olds.len() - i,
        {
            if !finder.is_compiled {
                let ghost prev = items@;
                let item = items.remove(i);
                finder.visit_item(&item);
                injector.debug_id = finder.take_debug_id();
                let new_item = injector.visit_node(item);
                items.insert(i, new_item);
                proof {
                    assert(items@ =~= prev.update(i as int, new_item));
                }
            }
            i = i + 1;
        }
        if !finder.is_compiled {
            let ghost body = items@;
            items.insert(0, scope_import());
            let mut set_args = Vec::new();
            set_args.push(self.file_path.clone());
            set_args.push(self.package_name.clone());
            let set_file_scope = scope_call("setFileScope", set_args);
            proof {
                assert(set_args@.map_values(|a: String| a@) =~= seq![self.file_path@, self.package_name@]);
            }
            items.insert(1, set_file_scope);
            let end_file_scope = scope_call("endFileScope", Vec::new());
            items.push(end_file_scope);
            proof {
                assert(items@.subrange(2, items@.len() - 1) =~= body);
            }
        }
    }
}

/// The visitor for one file.
pub fn create_extract_visitor(filename: &str, package_name: &str, package_dir: &str) -> (r:
    VanillaExtractVisitor)
    ensures
        r.package_name@ == package_name@,
        r.is_css_file == is_target_file(filename@),
{
    VanillaExtractVisitor::new(filename, package_name, package_dir)
}

} // verus!
