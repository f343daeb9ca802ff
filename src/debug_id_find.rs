//! Finding the first call of a statement that is owed a debug id, and naming it
//! from the frames that enclose it.
use vstd::prelude::*;
use vstd::string::*;
use crate::ast::{ident_name, ident_of, is_call, opt_view, str_of, str_value, Kind, Node};
use crate::constants::{eq_str, file_scope_package};
use crate::relevant_call::{bindings_view, is_qualifying_call, qualifies};

verus! {

/// What an enclosing node contributes to a debug id.
pub enum Frame {
    /// An expression.
    Expr,
    /// A statement.
    Stmt,
    /// A spread element.
    Spread,
    /// An object-literal property; its key if that is an identifier.
    Prop(Option<String>),
    /// An object-pattern property; its key if that is an identifier.
    PatProp(Option<String>),
    /// A variable declarator; the name it binds (see `declarator_name`).
    Declarator(Option<String>),
    /// A variable declaration; the name it yields in the lowered
    /// destructuring shape (see `compat_decl_name`).
    VarDecl(Option<String>),
    /// A function declaration and its name.
    FnDecl(String),
    /// `export default ...`.
    ExportDefault,
    /// Anything else.
    Other,
}

/// A frame with its strings as sequences.
pub enum FrameView {
    Expr,
    Stmt,
    Spread,
    Prop(Option<Seq<char>>),
    PatProp(Option<Seq<char>>),
    Declarator(Option<Seq<char>>),
    VarDecl(Option<Seq<char>>),
    FnDecl(Seq<char>),
    ExportDefault,
    Other,
}

impl View for Frame {
    type V = FrameView;

    open spec fn view(&self) -> FrameView {
        match self {
            Frame::Expr => FrameView::Expr,
            Frame::Stmt => FrameView::Stmt,
            Frame::Spread => FrameView::Spread,
            Frame::Prop(n) => FrameView::Prop(opt_view(*n)),
            Frame::PatProp(n) => FrameView::PatProp(opt_view(*n)),
            Frame::Declarator(n) => FrameView::Declarator(opt_view(*n)),
            Frame::VarDecl(n) => FrameView::VarDecl(opt_view(*n)),
            Frame::FnDecl(n) => FrameView::FnDecl(n@),
            Frame::ExportDefault => FrameView::ExportDefault,
            Frame::Other => FrameView::Other,
        }
    }
}

pub open spec fn path_view(p: Seq<Frame>) -> Seq<FrameView> {
    p.map_values(|f: Frame| f@)
}

/// The name a frame carries, if any.
pub open spec fn frame_name(f: FrameView) -> Option<Seq<char>> {
    match f {
        FrameView::Prop(n) => n,
        FrameView::PatProp(n) => n,
        FrameView::Declarator(n) => n,
        FrameView::FnDecl(n) => Some(n),
        FrameView::ExportDefault => Some("default"@),
        _ => None,
    }
}

/// The names of the frames of `path` that carry one, outermost first.
pub open spec fn path_names(path: Seq<FrameView>) -> Seq<Seq<char>>
    decreases path.len(),
{
    if path.len() == 0 {
        seq![]
    } else {
        match frame_name(path.last()) {
            Some(n) => path_names(path.drop_last()).push(n),
            None => path_names(path.drop_last()),
        }
    }
}

/// The names joined by underscores.
pub open spec fn join_names(names: Seq<Seq<char>>) -> Seq<char>
    decreases names.len(),
{
    if names.len() == 0 {
        seq![]
    } else if names.len() == 1 {
        names[0]
    } else {
        join_names(names.drop_last()) + "_"@ + names.last()
    }
}

/// The innermost enclosing declaration (variable or function) of `path`.
pub open spec fn nearest_declaration(path: Seq<FrameView>) -> Option<FrameView>
    decreases path.len(),
{
    if path.len() == 0 {
        None
    } else if path.last() is VarDecl || path.last() is FnDecl {
        Some(path.last())
    } else {
        nearest_declaration(path.drop_last())
    }
}

/// The name owed by the lowered-destructuring shape, when the innermost
/// enclosing declaration has it.
pub open spec fn compat_name(path: Seq<FrameView>) -> Option<Seq<char>> {
    match nearest_declaration(path) {
        Some(FrameView::VarDecl(n)) => n,
        _ => None,
    }
}

/// The frames from whose innermost position every enclosing name is joined.
pub open spec fn joins_all(f: FrameView) -> bool {
    f is Expr || f is Stmt || f is Spread || f is PatProp
}

/// The debug id for a call whose frames, outermost first, are `path`.
pub open spec fn debug_id_of(path: Seq<FrameView>) -> Option<Seq<char>> {
    if path.len() == 0 {
        None
    } else if compat_name(path) is Some {
        compat_name(path)
    } else if joins_all(path.last()) {
        let names = path_names(path);
        if names.len() == 0 {
            None
        } else {
            Some(join_names(names))
        }
    } else {
        frame_name(path.last())
    }
}

/// The key of a `KeyValue` or `PatProp` node, if it is an identifier.
pub open spec fn key_name(n: Node) -> Option<Seq<char>> {
    if n.children@.len() > 0 {
        ident_name(n.children@[0])
    } else {
        None
    }
}

/// The name a declarator binds: its identifier, or the first element of its
/// array pattern when that is an identifier.
pub open spec fn declarator_name(n: Node) -> Option<Seq<char>> {
    if n.children@.len() > 0 {
        let pat = n.children@[0];
        match pat.kind {
            Kind::Ident(s) => Some(s@),
            Kind::ArrayPat => if pat.children@.len() > 0 {
                ident_name(pat.children@[0])
            } else {
                None
            },
            _ => None,
        }
    } else {
        None
    }
}

/// Declarator `d` is initialised by a direct call of `createTheme`.
pub open spec fn inits_create_theme(d: Node) -> bool {
    &&& d.kind is Declarator
    &&& d.children@.len() >= 2
    &&& is_call(d.children@[1])
    &&& d.children@[1].children@.len() > 0
    &&& ident_name(d.children@[1].children@[0]) == Some("createTheme"@)
}

/// For the four declarators that lowering `const [a, b] = createTheme(...)`
/// produces, the name `a` (bound by the third declarator).
pub open spec fn compat_decl_name(n: Node) -> Option<Seq<char>> {
    if n.children@.len() == 4 && inits_create_theme(n.children@[0]) && n.children@[2].kind is Declarator
        && n.children@[2].children@.len() > 0 {
        ident_name(n.children@[2].children@[0])
    } else {
        None
    }
}

/// The frame that node `n` adds for its descendants.
pub open spec fn node_frame(n: Node) -> FrameView {
    match n.kind {
        Kind::Ident(_) | Kind::Str(_) | Kind::Member(_) | Kind::Call | Kind::Object | Kind::Array
        | Kind::OtherExpr => FrameView::Expr,
        Kind::Spread => FrameView::Spread,
        Kind::KeyValue => FrameView::Prop(key_name(n)),
        Kind::PatProp => FrameView::PatProp(key_name(n)),
        Kind::Declarator => FrameView::Declarator(declarator_name(n)),
        Kind::VarDecl => FrameView::VarDecl(compat_decl_name(n)),
        Kind::FnDecl(name) => FrameView::FnDecl(name@),
        Kind::ExportDefault => FrameView::ExportDefault,
        Kind::ExprStmt | Kind::Block => FrameView::Stmt,
        _ => FrameView::Other,
    }
}

/// The name carried by `frame`.
pub fn extract_name(frame: &Frame) -> (r: Option<String>)
    ensures
        opt_view(r) == frame_name(frame@),
{
    match frame {
        Frame::Prop(n) => n.clone(),
        Frame::PatProp(n) => n.clone(),
        Frame::Declarator(n) => n.clone(),
        Frame::FnDecl(n) => Some(n.clone()),
        Frame::ExportDefault => Some(String::from_str("default")),
        _ => None,
    }
}

/// The name of the lowered-destructuring shape, when the innermost enclosing
/// declaration of `ast_path` has it.
fn compat_name_of(ast_path: &Vec<Frame>) -> (r: Option<String>)
    ensures
        opt_view(r) == compat_name(path_view(ast_path@)),
{
    let ghost pv = path_view(ast_path@);
    let mut i: usize = ast_path.len();
    proof {
        assert(pv.take(i as int) =~= pv);
    }
    while i > 0
        invariant
            i <= ast_path@.len(),
            pv == path_view(ast_path@),
            nearest_declaration(pv) == nearest_declaration(pv.take(i as int)),
        decreases i,
    {
        proof {
            assert(pv.take(i as int).drop_last() =~= pv.take(i - 1));
        }
        match &ast_path[i - 1] {
            Frame::VarDecl(name) => {
                return name.clone();
            },
            Frame::FnDecl(_) => {
                return None;
            },
            _ => {},
        }
        i = i - 1;
    }
    None
}

/// The debug id of a call whose enclosing frames, outermost first, are `ast_path`.
pub fn get_debug_id(ast_path: &Vec<Frame>) -> (r: Option<String>)
    ensures
        opt_view(r) == debug_id_of(path_view(ast_path@)),
{
    let ghost pv = path_view(ast_path@);
    let n = ast_path.len();
    if n == 0 {
        return None;
    }
    // Special case: `export const [themeClass, vars] = createTheme({});` once
    // lowered to `var _t = createTheme({}), _t2 = _slicedToArray(_t, 2),
    // themeClass = _t2[0], vars = _t2[1];` is named after `themeClass`.
    match compat_name_of(ast_path) {
        Some(name) => {
            return Some(name);
        },
        None => {},
    }
    let last = &ast_path[n - 1];
    proof {
        assert(pv.take(n as int) =~= pv);
    }
    match last {
        Frame::Expr | Frame::Stmt | Frame::Spread | Frame::PatProp(_) => {},
        _ => {
            return extract_name(last);
        },
    }
    let mut joined = String::new();
    let mut count: usize = 0;
    let mut j: usize = 0;
    while j < n
        invariant
            j <= n == ast_path@.len(),
            pv == path_view(ast_path@),
            count == path_names(pv.take(j as int)).len(),
            count <= j,
            joined@ == join_names(path_names(pv.take(j as int))),
        decreases n - j,
    {
        proof {
            assert(pv.take(j + 1).drop_last() =~= pv.take(j as int));
        }
        match extract_name(&ast_path[j]) {
            Some(name) => {
                if count > 0 {
                    joined.append("_");
                }
                joined.append(name.as_str());
                proof {
                    let ns = path_names(pv.take(j as int));
                    assert(ns.push(name@).drop_last() =~= ns);
                    if count == 0 {
                        assert(joined@ =~= name@);
                    }
                }
                count = count + 1;
            },
            None => {},
        }
        j = j + 1;
    }
    proof {
        assert(pv.take(n as int) =~= pv);
    }
    if count == 0 {
        None
    } else {
        Some(joined)
    }
}

} // verus!

verus! {

fn key_name_of(n: &Node) -> (r: Option<String>)
    ensures
        opt_view(r) == key_name(*n),
{
    if n.children.len() > 0 {
        match ident_of(&n.children[0]) {
            Some(s) => Some(s.clone()),
            None => None,
        }
    } else {
        None
    }
}

fn declarator_name_of(n: &Node) -> (r: Option<String>)
    ensures
        opt_view(r) == declarator_name(*n),
{
    if n.children.len() == 0 {
        return None;
    }
    let pat = &n.children[0];
    match &pat.kind {
        Kind::Ident(s) => Some(s.clone()),
        Kind::ArrayPat => {
            if pat.children.len() > 0 {
                match ident_of(&pat.children[0]) {
                    Some(s) => Some(s.clone()),
                    None => None,
                }
            } else {
                None
            }
        },
        _ => None,
    }
}

fn is_create_theme_declarator(d: &Node) -> (r: bool)
    ensures
        r == inits_create_theme(*d),
{
    match d.kind {
        Kind::Declarator => {},
        _ => return false,
    }
    if d.children.len() < 2 {
        return false;
    }
    let init = &d.children[1];
    match init.kind {
        Kind::Call => {},
        _ => return false,
    }
    if init.children.len() == 0 {
        return false;
    }
    match ident_of(&init.children[0]) {
        Some(s) => eq_str(s, "createTheme"),
        None => false,
    }
}

fn compat_decl_name_of(n: &Node) -> (r: Option<String>)
    ensures
        opt_view(r) == compat_decl_name(*n),
{
    if n.children.len() != 4 || !is_create_theme_declarator(&n.children[0]) {
        return None;
    }
    let third = &n.children[2];
    match third.kind {
        Kind::Declarator => {},
        _ => return None,
    }
    if third.children.len() == 0 {
        return None;
    }
    match ident_of(&third.children[0]) {
        Some(s) => Some(s.clone()),
        None => None,
    }
}

/// The frame that `n` adds for its descendants.
pub fn frame_of(n: &Node) -> (f: Frame)
    ensures
        f@ == node_frame(*n),
{
    match &n.kind {
        Kind::Ident(_) | Kind::Str(_) | Kind::Member(_) | Kind::Call | Kind::Object | Kind::Array
        | Kind::OtherExpr => Frame::Expr,
        Kind::Spread => Frame::Spread,
        Kind::KeyValue => Frame::Prop(key_name_of(n)),
        Kind::PatProp => Frame::PatProp(key_name_of(n)),
        Kind::Declarator => Frame::Declarator(declarator_name_of(n)),
        Kind::VarDecl => Frame::VarDecl(compat_decl_name_of(n)),
        Kind::FnDecl(name) => Frame::FnDecl(name.clone()),
        Kind::ExportDefault => Frame::ExportDefault,
        Kind::ExprStmt | Kind::Block => Frame::Stmt,
        _ => Frame::Other,
    }
}

/// `n` is `require("@vanilla-extract/css/fileScope")`: the CommonJS form of
/// the already-transformed marker.
pub open spec fn is_require_marker(n: Node) -> bool {
    &&& is_call(n)
    &&& n.children@.len() >= 2
    &&& ident_name(n.children@[0]) == Some("require"@)
    &&& str_value(n.children@[1]) == Some(file_scope_package())
}

fn require_marker(n: &Node) -> (r: bool)
    ensures
        r == is_require_marker(*n),
{
    match n.kind {
        Kind::Call => {},
        _ => return false,
    }
    if n.children.len() < 2 {
        return false;
    }
    match ident_of(&n.children[0]) {
        Some(callee) => if !eq_str(callee, "require") {
            return false;
        },
        None => return false,
    }
    match str_of(&n.children[1]) {
        Some(arg) => eq_str(arg, "@vanilla-extract/css/fileScope"),
        None => false,
    }
}

/// The finder's progress through one statement.
pub struct FindState {
    /// The module turned out to be transformed already.
    pub compiled: bool,
    /// The first call owed a debug id has been met.
    pub found: bool,
    /// The debug id computed for that call.
    pub id: Option<Seq<char>>,
}

/// Visits `n`, whose ancestors' frames are `path`, in pre-order. The first
/// qualifying call fixes the debug id; a require of the marker stops the search.
pub open spec fn find_node(
    n: Node,
    path: Seq<FrameView>,
    ns: Option<Seq<char>>,
    bs: Seq<(Seq<char>, Seq<char>)>,
    st: FindState,
) -> FindState
    decreases n, 1int,
{
    if st.compiled {
        st
    } else {
        let here = path.push(node_frame(n));
        if is_require_marker(n) {
            FindState { compiled: true, ..st }
        } else {
            let st1 = if !st.found && qualifies(n, ns, bs) {
                FindState { found: true, id: debug_id_of(here), ..st }
            } else {
                st
            };
            find_children(n, n.children@.len() as int, here, ns, bs, st1)
        }
    }
}

/// Visits the first `k` children of `n`.
pub open spec fn find_children(
    n: Node,
    k: int,
    path: Seq<FrameView>,
    ns: Option<Seq<char>>,
    bs: Seq<(Seq<char>, Seq<char>)>,
    st: FindState,
) -> FindState
    decreases n, 0int, k,
{
    if k <= 0 || k > n.children@.len() {
        st
    } else {
        find_node(n.children@[k - 1], path, ns, bs, find_children(n, k - 1, path, ns, bs, st))
    }
}

/// Finds the debug id for the first qualifying call of each statement.
pub struct DebugIdFindVisitor {
    pub is_compiled: bool,
    pub found: bool,
    pub debug_id: Option<String>,
    pub namespace_import: Option<String>,
    pub import_identifiers: Vec<(String, String)>,
}

impl DebugIdFindVisitor {
    pub open spec fn state(&self) -> FindState {
        FindState { compiled: self.is_compiled, found: self.found, id: opt_view(self.debug_id) }
    }

    pub open spec fn namespace(&self) -> Option<Seq<char>> {
        opt_view(self.namespace_import)
    }

    pub open spec fn bindings(&self) -> Seq<(Seq<char>, Seq<char>)> {
        bindings_view(self.import_identifiers@)
    }

    pub fn new(namespace_import: Option<String>, import_identifiers: Vec<(String, String)>) -> (r:
        Self)
        ensures
            r.state() == (FindState { compiled: false, found: false, id: None }),
            r.namespace() == opt_view(namespace_import),
            r.bindings() == bindings_view(import_identifiers@),
    {
        DebugIdFindVisitor {
            is_compiled: false,
            found: false,
            debug_id: None,
            namespace_import,
            import_identifiers,
        }
    }

    /// Visits `node`, whose ancestors' frames are `ast_path`.
    pub fn visit_node(&mut self, node: &Node, ast_path: &mut Vec<Frame>)
        ensures
            final(self).state() == find_node(
                *node,
                path_view(old(ast_path)@),
                old(self).namespace(),
                old(self).bindings(),
                old(self).state(),
            ),
            final(self).namespace() == old(self).namespace(),
            final(self).bindings() == old(self).bindings(),
            final(ast_path)@ == old(ast_path)@,
        decreases node,
    {
        if self.is_compiled {
            return;
        }
        let ghost path0 = ast_path@;
        ast_path.push(frame_of(node));
        let ghost pushed = ast_path@;
        let ghost here = path_view(ast_path@);
        proof {
            assert(here =~= path_view(path0).push(node_frame(*node)));
            assert(pushed.drop_last() =~= path0);
        }
        if require_marker(node) {
            self.is_compiled = true;
            ast_path.pop();
            return;
        }
        if !self.found && is_qualifying_call(node, &self.namespace_import, &self.import_identifiers) {
            self.debug_id = get_debug_id(ast_path);
            self.found = true;
        }
        let ghost st1 = self.state();
        let mut i: usize = 0;
        while i < node.children.len()
            invariant
                i <= node.children@.len(),
                ast_path@ == pushed,
                here == path_view(pushed),
                self.state() == find_children(
                    *node,
                    i as int,
                    here,
                    self.namespace(),
                    self.bindings(),
                    st1,
                ),
                self.namespace() == old(self).namespace(),
                self.bindings() == old(self).bindings(),
            decreases node.children@.len() - i,
        {
            self.visit_node(&node.children[i], ast_path);
            i = i + 1;
        }
        ast_path.pop();
    }
}

} // verus!

verus! {

/// The finder's result for one top-level item, starting afresh.
pub open spec fn find_item(
    item: Node,
    ns: Option<Seq<char>>,
    bs: Seq<(Seq<char>, Seq<char>)>,
) -> FindState {
    find_node(item, seq![], ns, bs, FindState { compiled: false, found: false, id: None })
}

impl DebugIdFindVisitor {
    /// Visits one top-level item from its root, with no enclosing frames.
    pub fn visit_item(&mut self, item: &Node)
        ensures
            final(self).state() == find_node(
                *item,
                seq![],
                old(self).namespace(),
                old(self).bindings(),
                old(self).state(),
            ),
            final(self).namespace() == old(self).namespace(),
            final(self).bindings() == old(self).bindings(),
    {
        let mut ast_path: Vec<Frame> = Vec::new();
        proof {
            assert(path_view(ast_path@) =~= seq![]);
        }
        self.visit_node(item, &mut ast_path);
    }

    /// Hands over the debug id found in the last item and gets ready for the next.
    pub fn take_debug_id(&mut self) -> (r: Option<String>)
        ensures
            opt_view(r) == old(self).state().id,
            final(self).state() == (FindState {
                compiled: old(self).is_compiled,
                found: false,
                id: None,
            }),
            final(self).namespace() == old(self).namespace(),
            final(self).bindings() == old(self).bindings(),
    {
        let r = match &self.debug_id {
            Some(id) => Some(id.clone()),
            None => None,
        };
        self.debug_id = None;
        self.found = false;
        r
    }
}

} // verus!
