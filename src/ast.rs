//! The syntax tree this transform works on.
//!
//! A node is a kind plus an ordered list of children. The kinds the transform
//! reads are spelled out; every other construct is `OtherExpr` (an expression)
//! or `Other`, and only its children are visited.
use vstd::prelude::*;
use vstd::string::*;

verus! {

/// One specifier of an import declaration.
#[derive(Debug)]
pub enum ImportSpecifier {
    /// `import { imported as local }`; `imported` is `None` for `import { local }`.
    Named { local: String, imported: Option<String> },
    /// `import local from "..."`.
    Default(String),
    /// `import * as local from "..."`.
    Namespace(String),
}

/// `import <specifiers> from "<src>"`.
#[derive(Debug)]
pub struct ImportDecl {
    pub src: String,
    pub specifiers: Vec<ImportSpecifier>,
}

/// What a node is. The comment of each kind gives the layout of its children.
#[derive(Debug)]
pub enum Kind {
    /// An identifier, as a reference or as a binding pattern. No children.
    Ident(String),
    /// A string literal. No children.
    Str(String),
    /// `object.prop`, a non-computed member access: `[object]`.
    Member(String),
    /// A call: `[callee, arg0, arg1, ...]`.
    Call,
    /// `...expr` in an argument list, array or object literal: `[expr]`.
    Spread,
    /// An object literal: its properties.
    Object,
    /// `key: value` in an object literal: `[key, value]`; an identifier key is `Ident`.
    KeyValue,
    /// An array literal: its elements.
    Array,
    /// An object destructuring pattern: its properties.
    ObjectPat,
    /// `key: pattern` in an object pattern: `[key, pattern]`.
    PatProp,
    /// An array destructuring pattern: its elements (a hole is `Hole`).
    ArrayPat,
    /// An elided element of an array pattern. No children.
    Hole,
    /// `var`/`let`/`const` with its declarators.
    VarDecl,
    /// One declarator: `[pattern]` or `[pattern, init]`.
    Declarator,
    /// `function name(...) { ... }`: its parameters and body statements.
    FnDecl(String),
    /// An expression statement: `[expr]`.
    ExprStmt,
    /// A block statement: its statements.
    Block,
    /// `export <declaration>`: `[declaration]`.
    ExportDecl,
    /// `export default <expression or declaration>`: `[inner]`.
    ExportDefault,
    /// An import declaration. No children.
    Import(ImportDecl),
    /// Any other expression: its sub-expressions and patterns.
    OtherExpr,
    /// Any other construct: its parts.
    Other,
}

/// A syntax tree node.
#[derive(Debug)]
pub struct Node {
    pub kind: Kind,
    pub children: Vec<Node>,
}

pub open spec fn opt_view(o: Option<String>) -> Option<Seq<char>> {
    match o {
        Some(s) => Some(s@),
        None => None,
    }
}

/// The name of an identifier node.
pub open spec fn ident_name(n: Node) -> Option<Seq<char>> {
    match n.kind {
        Kind::Ident(s) => Some(s@),
        _ => None,
    }
}

/// The value of a string-literal node.
pub open spec fn str_value(n: Node) -> Option<Seq<char>> {
    match n.kind {
        Kind::Str(s) => Some(s@),
        _ => None,
    }
}

pub open spec fn is_call(n: Node) -> bool {
    n.kind is Call
}

/// Number of explicit arguments of a call node.
pub open spec fn arg_count(n: Node) -> int {
    n.children@.len() - 1
}

pub fn ident_of(n: &Node) -> (r: Option<&String>)
    ensures
        match r {
            Some(s) => ident_name(*n) == Some(s@),
            None => ident_name(*n) is None,
        },
{
    match &n.kind {
        Kind::Ident(s) => Some(s),
        _ => None,
    }
}

pub fn str_of(n: &Node) -> (r: Option<&String>)
    ensures
        match r {
            Some(s) => str_value(*n) == Some(s@),
            None => str_value(*n) is None,
        },
{
    match &n.kind {
        Kind::Str(s) => Some(s),
        _ => None,
    }
}

impl Node {
    /// A node of the given kind and children.
    pub fn new(kind: Kind, children: Vec<Node>) -> (r: Node)
        ensures
            r.kind == kind,
            r.children@ == children@,
    {
        Node { kind, children }
    }

    /// An identifier.
    pub fn ident(name: &str) -> (r: Node)
        ensures
            ident_name(r) == Some(name@),
            r.children@.len() == 0,
    {
        Node { kind: Kind::Ident(String::from_str(name)), children: Vec::new() }
    }

    /// A string literal.
    pub fn string(value: &str) -> (r: Node)
        ensures
            str_value(r) == Some(value@),
            r.children@.len() == 0,
    {
        Node { kind: Kind::Str(String::from_str(value)), children: Vec::new() }
    }

    /// `object.prop`.
    pub fn member(object: Node, prop: &str) -> (r: Node)
        ensures
            r.kind matches Kind::Member(p) && p@ == prop@,
            r.children@ == seq![object],
    {
        let mut children = Vec::new();
        children.push(object);
        Node { kind: Kind::Member(String::from_str(prop)), children }
    }

    /// `callee(args...)`.
    pub fn call(callee: Node, args: Vec<Node>) -> (r: Node)
        ensures
            is_call(r),
            r.children@ == seq![callee] + args@,
    {
        let mut children = Vec::new();
        children.push(callee);
        let mut args = args;
        children.append(&mut args);
        Node { kind: Kind::Call, children }
    }

    /// A node with one child.
    pub fn wrap(kind: Kind, child: Node) -> (r: Node)
        ensures
            r.kind == kind,
            r.children@ == seq![child],
    {
        let mut children = Vec::new();
        children.push(child);
        Node { kind, children }
    }
}

} // verus!
