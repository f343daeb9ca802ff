//! Properties of the transform as a whole.
use vstd::prelude::*;
use crate::ast::{arg_count, ident_name, is_call, str_value, Kind, Node};
use crate::constants::{is_style_function, max_params};
use crate::debug_id_find::{
    debug_id_of, find_children, find_item, find_node, is_require_marker, node_frame, FindState,
    FrameView,
};
use crate::debug_id_inject::injected;
use crate::import_collect::{collect_items, collect_module, initial_collect_state, CollectState};
use crate::module_wrap::{
    compiled_before, is_scope_call, is_scope_import, transformed,
    VanillaExtractVisitor,
};
use crate::relevant_call::{qualifies, relevant_call};

verus! {

/// Whether `n` or one of its descendants is a require of the marker package.
pub open spec fn contains_require(n: Node) -> bool
    decreases n, 1int,
{
    is_require_marker(n) || children_contain_require(n, n.children@.len() as int)
}

/// Whether one of the first `k` children of `n` contains a require of the marker.
pub open spec fn children_contain_require(n: Node, k: int) -> bool
    decreases n, 0int, k,
{
    if k <= 0 || k > n.children@.len() {
        false
    } else {
        children_contain_require(n, k - 1) || contains_require(n.children@[k - 1])
    }
}

/// The module was found compiled through a require of the marker rather than
/// through an import of it.
pub open spec fn compiled_by_require(v: VanillaExtractVisitor, m: Seq<Node>) -> bool {
    let st = collect_module(m);
    &&& v.is_css_file
    &&& !st.is_compiled
    &&& compiled_before(m, m.len() as int, st.namespace, st.bindings)
}

proof fn lemma_collect_stays_compiled(st: CollectState, items: Seq<Node>)
    requires
        st.is_compiled,
    ensures
        collect_items(st, items).is_compiled,
    decreases items.len(),
{
    if items.len() > 0 {
        lemma_collect_stays_compiled(st, items.drop_last());
    }
}

proof fn lemma_collect_prefix(items: Seq<Node>, k: int)
    requires
        0 < k <= items.len(),
        collect_items(initial_collect_state(), items.take(1)).is_compiled,
    ensures
        collect_items(initial_collect_state(), items.take(k)).is_compiled,
    decreases k,
{
    if k > 1 {
        lemma_collect_prefix(items, k - 1);
        assert(items.take(k).drop_last() =~= items.take(k - 1));
    }
}

/// A module that starts with the scope-marker import counts as compiled.
proof fn lemma_scope_import_marks_compiled(items: Seq<Node>)
    requires
        items.len() > 0,
        is_scope_import(items[0]),
    ensures
        collect_module(items).is_compiled,
{
    assert(items.take(1).drop_last() =~= Seq::<Node>::empty());
    lemma_collect_prefix(items, items.len() as int);
    assert(items.take(items.len() as int) =~= items);
}

/// Transforming an already transformed module changes nothing, unless the
/// first pass stopped at a require of the marker package (then the items
/// before it may have been given ids and are not wrapped).
pub proof fn lemma_transform_idempotent(
    v: VanillaExtractVisitor,
    m: Seq<Node>,
    r: Seq<Node>,
    r2: Seq<Node>,
)
    requires
        transformed(v, m, r),
        transformed(v, r, r2),
        !compiled_by_require(v, m),
    ensures
        r2 == r,
{
    let st = collect_module(m);
    if v.is_css_file && !st.is_compiled {
        lemma_scope_import_marks_compiled(r);
    }
}

/// For a module not yet transformed, the transform changes it exactly when
/// the file name is a style module's.
pub proof fn lemma_filter_decides(v: VanillaExtractVisitor, m: Seq<Node>, r: Seq<Node>)
    requires
        transformed(v, m, r),
        !collect_module(m).is_compiled,
        !compiled_by_require(v, m),
    ensures
        (r == m) <==> !v.is_css_file,
{
    if v.is_css_file {
        assert(r.len() != m.len());
    }
}

/// A style call that already has its threshold of arguments gets none, and
/// one below it that is handed an id gets exactly that id as one more
/// trailing string argument.
pub proof fn lemma_arity_respected(
    old: Node,
    new: Node,
    id: Option<Seq<char>>,
    ns: Option<Seq<char>>,
    bs: Seq<(Seq<char>, Seq<char>)>,
    f: Seq<char>,
    t: nat,
)
    requires
        injected(old, new, id, ns, bs),
        relevant_call(old, ns, bs) == Some(f),
        max_params(f) == Some(t),
    ensures
        arg_count(old) >= t ==> new.kind == old.kind && new.children@.len()
            == old.children@.len(),
        arg_count(old) < t && id is Some ==> {
            &&& new.kind == old.kind
            &&& new.children@.drop_last() == old.children@
            &&& str_value(new.children@.last()) == id
            &&& new.children@.last().children@.len() == 0
        },
{
}

/// With a namespace import, a call of a bare identifier is never a style
/// call, whatever its name; `ns.<style function>(...)` is.
pub proof fn lemma_namespace_excludes_named(
    n: Node,
    ns: Seq<char>,
    bs: Seq<(Seq<char>, Seq<char>)>,
)
    requires
        is_call(n),
        n.children@.len() > 0,
    ensures
        ident_name(n.children@[0]) is Some ==> relevant_call(n, Some(ns), bs) is None,
        (n.children@[0].kind matches Kind::Member(p) && is_style_function(p@)
            && n.children@[0].children@.len() > 0 && ident_name(n.children@[0].children@[0])
            == Some(ns)) ==> relevant_call(n, Some(ns), bs) is Some,
{
}

/// A not-yet-compiled style module comes out as the scope import, the
/// `setFileScope(path, package)` call, its items, and the `endFileScope()` call.
pub proof fn lemma_wrap_structure(v: VanillaExtractVisitor, m: Seq<Node>, r: Seq<Node>)
    requires
        transformed(v, m, r),
        v.is_css_file,
        !collect_module(m).is_compiled,
        !compiled_by_require(v, m),
    ensures
        r.len() == m.len() + 3,
        is_scope_import(r[0]),
        is_scope_call(r[1], "setFileScope"@, seq![v.file_path@, v.package_name@]),
        is_scope_call(r.last(), "endFileScope"@, seq![]),
{
}

proof fn lemma_find_compiled(
    n: Node,
    path: Seq<FrameView>,
    ns: Option<Seq<char>>,
    bs: Seq<(Seq<char>, Seq<char>)>,
    st: FindState,
)
    ensures
        find_node(n, path, ns, bs, st).compiled == (st.compiled || contains_require(n)),
    decreases n, 1int,
{
    if !st.compiled && !is_require_marker(n) {
        let here = path.push(node_frame(n));
        let st1 = if !st.found && qualifies(n, ns, bs) {
            FindState { found: true, id: debug_id_of(here), ..st }
        } else {
            st
        };
        lemma_find_children_compiled(n, n.children@.len() as int, here, ns, bs, st1);
    }
}

proof fn lemma_find_children_compiled(
    n: Node,
    k: int,
    path: Seq<FrameView>,
    ns: Option<Seq<char>>,
    bs: Seq<(Seq<char>, Seq<char>)>,
    st: FindState,
)
    requires
        0 <= k <= n.children@.len(),
    ensures
        find_children(n, k, path, ns, bs, st).compiled == (st.compiled
            || children_contain_require(n, k)),
    decreases n, 0int, k,
{
    if k > 0 {
        lemma_find_children_compiled(n, k - 1, path, ns, bs, st);
        lemma_find_compiled(
            n.children@[k - 1],
            path,
            ns,
            bs,
            find_children(n, k - 1, path, ns, bs, st),
        );
    }
}

proof fn lemma_compiled_before_grows(
    items: Seq<Node>,
    k: int,
    j: int,
    ns: Option<Seq<char>>,
    bs: Seq<(Seq<char>, Seq<char>)>,
)
    requires
        0 < k <= j <= items.len(),
        compiled_before(items, k, ns, bs),
    ensures
        compiled_before(items, j, ns, bs),
    decreases j - k,
{
    if j > k {
        lemma_compiled_before_grows(items, k, j - 1, ns, bs);
    }
}

/// A module with a require of the marker package anywhere in it is not wrapped.
pub proof fn lemma_require_marker_blocks_wrap(
    v: VanillaExtractVisitor,
    m: Seq<Node>,
    r: Seq<Node>,
    k: int,
)
    requires
        transformed(v, m, r),
        0 <= k < m.len(),
        contains_require(m[k]),
    ensures
        r.len() == m.len(),
{
    let st = collect_module(m);
    lemma_find_compiled(
        m[k],
        seq![],
        st.namespace,
        st.bindings,
        FindState { compiled: false, found: false, id: None },
    );
    assert(find_item(m[k], st.namespace, st.bindings).compiled);
    assert(compiled_before(m, k + 1, st.namespace, st.bindings));
    lemma_compiled_before_grows(m, k + 1, m.len() as int, st.namespace, st.bindings);
}

} // verus!
