//! Deciding whether a call invokes one of the library's style functions.
use vstd::prelude::*;
use crate::ast::{arg_count, ident_name, ident_of, is_call, opt_view, Kind, Node};
use crate::constants::{debuggable_max_params, is_style_function, is_style_function_name, max_params};

verus! {

/// Local identifier -> canonical function name, as exec pairs.
pub open spec fn bindings_view(v: Seq<(String, String)>) -> Seq<(Seq<char>, Seq<char>)> {
    v.map_values(|p: (String, String)| (p.0@, p.1@))
}

/// The canonical name bound to `name`; a later binding shadows an earlier one.
pub open spec fn lookup_binding(bs: Seq<(Seq<char>, Seq<char>)>, name: Seq<char>) -> Option<
    Seq<char>,
>
    decreases bs.len(),
{
    if bs.len() == 0 {
        None
    } else if bs.last().0 == name {
        Some(bs.last().1)
    } else {
        lookup_binding(bs.drop_last(), name)
    }
}

/// The canonical name that `callee` stands for. With a namespace import only
/// `ns.<style function>` counts; without one only a bound identifier does.
pub open spec fn relevant_callee(
    callee: Node,
    ns: Option<Seq<char>>,
    bs: Seq<(Seq<char>, Seq<char>)>,
) -> Option<Seq<char>> {
    match ns {
        Some(ns) => match callee.kind {
            Kind::Member(prop) => if callee.children@.len() > 0 && ident_name(callee.children@[0])
                == Some(ns) && is_style_function(prop@) {
                Some(prop@)
            } else {
                None
            },
            _ => None,
        },
        None => match callee.kind {
            Kind::Ident(name) => lookup_binding(bs, name@),
            _ => None,
        },
    }
}

/// The canonical style function that call node `n` invokes, if any.
pub open spec fn relevant_call(
    n: Node,
    ns: Option<Seq<char>>,
    bs: Seq<(Seq<char>, Seq<char>)>,
) -> Option<Seq<char>> {
    if is_call(n) && n.children@.len() > 0 {
        relevant_callee(n.children@[0], ns, bs)
    } else {
        None
    }
}

/// `n` calls an annotatable style function with fewer arguments than its
/// threshold: it is owed a debug id.
pub open spec fn qualifies(n: Node, ns: Option<Seq<char>>, bs: Seq<(Seq<char>, Seq<char>)>) -> bool {
    match relevant_call(n, ns, bs) {
        Some(f) => match max_params(f) {
            Some(t) => arg_count(n) < t,
            None => false,
        },
        None => false,
    }
}

fn lookup_identifier(import_identifiers: &Vec<(String, String)>, name: &String) -> (r: Option<
    String,
>)
    ensures
        opt_view(r) == lookup_binding(bindings_view(import_identifiers@), name@),
{
    let ghost bs = bindings_view(import_identifiers@);
    let mut i: usize = import_identifiers.len();
    proof {
        assert(bs.take(i as int) =~= bs);
    }
    while i > 0
        invariant
            i <= import_identifiers@.len(),
            bs == bindings_view(import_identifiers@),
            lookup_binding(bs, name@) == lookup_binding(bs.take(i as int), name@),
        decreases i,
    {
        let pair = &import_identifiers[i - 1];
        proof {
            assert(bs.take(i as int).drop_last() =~= bs.take(i - 1));
        }
        if pair.0.eq(name) {
            return Some(pair.1.clone());
        }
        i = i - 1;
    }
    None
}

/// The canonical style function that `call_expr` invokes, if any.
pub fn get_relavant_call(
    call_expr: &Node,
    namespace_import: &Option<String>,
    import_identifiers: &Vec<(String, String)>,
) -> (r: Option<String>)
    ensures
        opt_view(r) == relevant_call(
            *call_expr,
            opt_view(*namespace_import),
            bindings_view(import_identifiers@),
        ),
{
    match call_expr.kind {
        Kind::Call => {},
        _ => return None,
    }
    if call_expr.children.len() == 0 {
        return None;
    }
    let callee = &call_expr.children[0];
    match namespace_import {
        Some(ns) => match &callee.kind {
            Kind::Member(prop) => {
                if callee.children.len() == 0 {
                    return None;
                }
                match ident_of(&callee.children[0]) {
                    Some(obj) => {
                        if obj.eq(ns) && is_style_function_name(prop.as_str()) {
                            Some(prop.clone())
                        } else {
                            None
                        }
                    },
                    None => None,
                }
            },
            _ => None,
        },
        None => match &callee.kind {
            Kind::Ident(name) => lookup_identifier(import_identifiers, name),
            _ => None,
        },
    }
}

/// Whether `n` is owed a debug id (see `qualifies`).
pub fn is_qualifying_call(
    n: &Node,
    namespace_import: &Option<String>,
    import_identifiers: &Vec<(String, String)>,
) -> (r: bool)
    ensures
        r == qualifies(*n, opt_view(*namespace_import), bindings_view(import_identifiers@)),
{
    match get_relavant_call(n, namespace_import, import_identifiers) {
        Some(f) => match debuggable_max_params(&f) {
            Some(t) => n.children.len() - 1 < t,
            None => false,
        },
        None => false,
    }
}

} // verus!
