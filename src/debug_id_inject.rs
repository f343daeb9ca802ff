//! Appending a computed debug id to the first call of a statement that is owed one.
use vstd::prelude::*;
use crate::ast::{opt_view, str_value, Kind, Node};
use crate::relevant_call::{bindings_view, is_qualifying_call, qualifies};

verus! {

/// The id still held after visiting `n` in pre-order while holding `id`:
/// the first qualifying call consumes it.
pub open spec fn id_after(
    n: Node,
    id: Option<Seq<char>>,
    ns: Option<Seq<char>>,
    bs: Seq<(Seq<char>, Seq<char>)>,
) -> Option<Seq<char>>
    decreases n, 1int,
{
    match id {
        None => None,
        Some(_) => if qualifies(n, ns, bs) {
            None
        } else {
            id_after_children(n, n.children@.len() as int, id, ns, bs)
        },
    }
}

/// The id still held after visiting the first `k` children of `n`.
pub open spec fn id_after_children(
    n: Node,
    k: int,
    id: Option<Seq<char>>,
    ns: Option<Seq<char>>,
    bs: Seq<(Seq<char>, Seq<char>)>,
) -> Option<Seq<char>>
    decreases n, 0int, k,
{
    if k <= 0 || k > n.children@.len() {
        id
    } else {
        id_after(n.children@[k - 1], id_after_children(n, k - 1, id, ns, bs), ns, bs)
    }
}

/// `new` is `old` after visiting it while holding `id`: the first qualifying
/// call in pre-order gets `id` as an extra trailing string argument, and
/// nothing else changes.
pub open spec fn injected(
    old: Node,
    new: Node,
    id: Option<Seq<char>>,
    ns: Option<Seq<char>>,
    bs: Seq<(Seq<char>, Seq<char>)>,
) -> bool
    decreases old, 2int,
{
    match id {
        None => new == old,
        Some(s) => if qualifies(old, ns, bs) {
            &&& new.kind == old.kind
            &&& new.children@.len() == old.children@.len() + 1
            &&& new.children@.drop_last() == old.children@
            &&& str_value(new.children@.last()) == Some(s)
            &&& new.children@.last().children@.len() == 0
        } else {
            &&& new.kind == old.kind
            &&& new.children@.len() == old.children@.len()
            &&& injected_prefix(old, new.children@, id, ns, bs)
        },
    }
}

/// The children in `news` are the first `news.len()` children of `old`, each
/// visited with the id left by the ones before it.
pub open spec fn injected_prefix(
    old: Node,
    news: Seq<Node>,
    id: Option<Seq<char>>,
    ns: Option<Seq<char>>,
    bs: Seq<(Seq<char>, Seq<char>)>,
) -> bool
    decreases old, 1int, news.len(),
{
    if news.len() == 0 {
        true
    } else if news.len() > old.children@.len() {
        false
    } else {
        &&& injected_prefix(old, news.drop_last(), id, ns, bs)
        &&& injected(
            old.children@[news.len() - 1],
            news.last(),
            id_after_children(old, news.len() - 1, id, ns, bs),
            ns,
            bs,
        )
    }
}

/// Injects a debug id, handed over from the finder, into the call it belongs to.
pub struct DebugIdInjectVisitor {
    pub debug_id: Option<String>,
    pub namespace_import: Option<String>,
    pub import_identifiers: Vec<(String, String)>,
}

impl DebugIdInjectVisitor {
    pub open spec fn namespace(&self) -> Option<Seq<char>> {
        opt_view(self.namespace_import)
    }

    pub open spec fn bindings(&self) -> Seq<(Seq<char>, Seq<char>)> {
        bindings_view(self.import_identifiers@)
    }

    pub fn new(namespace_import: Option<String>, import_identifiers: Vec<(String, String)>) -> (r:
        Self)
        ensures
            r.debug_id is None,
            r.namespace() == opt_view(namespace_import),
            r.bindings() == bindings_view(import_identifiers@),
    {
        DebugIdInjectVisitor { debug_id: None, namespace_import, import_identifiers }
    }

    /// Visits `node` in pre-order, handing the held id to the first qualifying call.
    pub fn visit_node(&mut self, node: Node) -> (r: Node)
        ensures
            injected(node, r, opt_view(old(self).debug_id), old(self).namespace(), old(self).bindings()),
            opt_view(final(self).debug_id) == id_after(
                node,
                opt_view(old(self).debug_id),
                old(self).namespace(),
                old(self).bindings(),
            ),
            final(self).namespace() == old(self).namespace(),
            final(self).bindings() == old(self).bindings(),
        decreases node,
    {
        let id = match &self.debug_id {
            Some(id) => id.clone(),
            None => {
                return node;
            },
        };
        if is_qualifying_call(&node, &self.namespace_import, &self.import_identifiers) {
            self.debug_id = None;
            let ghost before = node.children@;
            let Node { kind, mut children } = node;
            children.push(Node { kind: Kind::Str(id), children: Vec::new() });
            proof {
                assert(children@.drop_last() =~= before);
            }
            return Node { kind, children };
        }
        let ghost orig = node;
        let ghost id0 = opt_view(self.debug_id);
        let Node { kind, mut children } = node;
        let mut i: usize = 0;
        while i < children.len()
            invariant
                orig == node,
                orig.kind == kind,
                i <= children@.len() == orig.children@.len(),
                forall|j: int| i <= j < children@.len() ==> children@[j] == orig.children@[j],
                injected_prefix(orig, children@.take(i as int), id0, self.namespace(), self.bindings()),
                opt_view(self.debug_id) == id_after_children(
                    orig,
                    i as int,
                    id0,
                    self.namespace(),
                    self.bindings(),
                ),
                self.namespace() == old(self).namespace(),
                self.bindings() == old(self).bindings(),
                id0 == opt_view(old(self).debug_id),
                !qualifies(orig, self.namespace(), self.bindings()),
                id0 is Some,
            decreases children@.len() - i,
        {
            let ghost prev = children@;
            let child = children.remove(i);
            proof {
                assert(child == orig.children@[i as int]);
                assert(decreases_to!(orig => orig.children));
                assert(decreases_to!(orig.children => orig.children[i as int]));
                assert(decreases_to!(orig => child));
            }
            let new_child = self.visit_node(child);
            children.insert(i, new_child);
            proof {
                assert(children@ =~= prev.update(i as int, new_child));
                assert(children@.take(i + 1).drop_last() =~= prev.take(i as int));
            }
            i = i + 1;
        }
        proof {
            assert(children@.take(i as int) =~= children@);
        }
        Node { kind, children }
    }
}

} // verus!
