//! Collecting the module's imports of the library.
use vstd::prelude::*;
use crate::ast::{opt_view, ImportDecl, ImportSpecifier, Kind, Node};
use crate::constants::{
    eq_str, file_scope_package, is_package, is_package_identifier, is_style_function,
    is_style_function_name,
};
use crate::relevant_call::bindings_view;

verus! {

/// What the collector has learned so far.
pub struct CollectState {
    pub is_esm: bool,
    pub is_compiled: bool,
    pub namespace: Option<Seq<char>>,
    pub bindings: Seq<(Seq<char>, Seq<char>)>,
}

pub open spec fn initial_collect_state() -> CollectState {
    CollectState { is_esm: false, is_compiled: false, namespace: None, bindings: seq![] }
}

/// The state after one import specifier of a library package.
pub open spec fn collect_specifier(st: CollectState, sp: ImportSpecifier) -> CollectState {
    match sp {
        ImportSpecifier::Named { local, imported } => {
            let name = match imported {
                Some(i) => i@,
                None => local@,
            };
            if is_style_function(name) {
                CollectState { bindings: st.bindings.push((local@, name)), ..st }
            } else {
                st
            }
        },
        ImportSpecifier::Default(_) => st,
        ImportSpecifier::Namespace(local) => CollectState { namespace: Some(local@), ..st },
    }
}

pub open spec fn collect_specifiers(st: CollectState, sps: Seq<ImportSpecifier>) -> CollectState
    decreases sps.len(),
{
    if sps.len() == 0 {
        st
    } else {
        collect_specifier(collect_specifiers(st, sps.drop_last()), sps.last())
    }
}

/// The state after one import declaration.
pub open spec fn collect_import(st: CollectState, d: ImportDecl) -> CollectState {
    let st = CollectState { is_esm: true, ..st };
    if st.is_compiled {
        st
    } else if d.src@ == file_scope_package() {
        CollectState { is_compiled: true, ..st }
    } else if is_package_identifier(d.src@) {
        collect_specifiers(st, d.specifiers@)
    } else {
        st
    }
}

/// The state after one top-level item: imports are read, an `export`
/// declaration marks the module as ESM, nothing else is looked at.
pub open spec fn collect_item(st: CollectState, n: Node) -> CollectState {
    match n.kind {
        Kind::Import(d) => collect_import(st, d),
        Kind::ExportDecl => CollectState { is_esm: true, ..st },
        _ => st,
    }
}

pub open spec fn collect_items(st: CollectState, items: Seq<Node>) -> CollectState
    decreases items.len(),
{
    if items.len() == 0 {
        st
    } else {
        collect_item(collect_items(st, items.drop_last()), items.last())
    }
}

/// What the module's top-level items say about its imports.
pub open spec fn collect_module(items: Seq<Node>) -> CollectState {
    collect_items(initial_collect_state(), items)
}

/// Collects imports from vanilla-extract packages.
pub struct ImportCollectVisitor {
    pub is_esm: bool,
    pub is_compiled: bool,
    pub namespace_import: Option<String>,
    pub import_identifiers: Vec<(String, String)>,
}

impl ImportCollectVisitor {
    pub open spec fn state(&self) -> CollectState {
        CollectState {
            is_esm: self.is_esm,
            is_compiled: self.is_compiled,
            namespace: opt_view(self.namespace_import),
            bindings: bindings_view(self.import_identifiers@),
        }
    }

    pub fn new() -> (r: Self)
        ensures
            r.state() == initial_collect_state(),
    {
        let r = ImportCollectVisitor {
            is_esm: false,
            is_compiled: false,
            namespace_import: None,
            import_identifiers: Vec::new(),
        };
        proof {
            assert(bindings_view(r.import_identifiers@) =~= seq![]);
        }
        r
    }

    fn visit_specifier(&mut self, sp: &ImportSpecifier)
        ensures
            final(self).state() == collect_specifier(old(self).state(), *sp),
    {
        match sp {
            ImportSpecifier::Named { local, imported } => {
                let name = match imported {
                    Some(i) => i,
                    None => local,
                };
                if is_style_function_name(name.as_str()) {
                    let ghost before = self.import_identifiers@;
                    self.import_identifiers.push((local.clone(), name.clone()));
                    proof {
                        assert(bindings_view(self.import_identifiers@) =~= bindings_view(
                            before,
                        ).push((local@, name@)));
                    }
                }
            },
            ImportSpecifier::Default(_) => {},
            ImportSpecifier::Namespace(local) => {
                self.namespace_import = Some(local.clone());
            },
        }
    }

    pub fn visit_import_decl(&mut self, import_decl: &ImportDecl)
        ensures
            final(self).state() == collect_import(old(self).state(), *import_decl),
    {
        self.is_esm = true;
        if self.is_compiled {
            return;
        }
        if eq_str(&import_decl.src, "@vanilla-extract/css/fileScope") {
            self.is_compiled = true;
            return;
        } else if is_package(&import_decl.src) {
            let ghost st0 = self.state();
            let sps = &import_decl.specifiers;
            let mut i: usize = 0;
            while i < sps.len()
                invariant
                    i <= sps@.len(),
                    self.state() == collect_specifiers(st0, sps@.take(i as int)),
                decreases sps@.len() - i,
            {
                proof {
                    assert(sps@.take(i + 1).drop_last() =~= sps@.take(i as int));
                }
                self.visit_specifier(&sps[i]);
                i = i + 1;
            }
            proof {
                assert(sps@.take(i as int) =~= sps@);
            }
        }
    }

    pub fn visit_export_decl(&mut self)
        ensures
            final(self).state() == (CollectState { is_esm: true, ..old(self).state() }),
    {
        self.is_esm = true;
    }

    /// Reads one top-level item.
    pub fn visit_item(&mut self, item: &Node)
        ensures
            final(self).state() == collect_item(old(self).state(), *item),
    {
        match &item.kind {
            Kind::Import(d) => self.visit_import_decl(d),
            Kind::ExportDecl => self.visit_export_decl(),
            _ => {},
        }
    }

    /// Reads every top-level item in order.
    pub fn visit_items(&mut self, items: &Vec<Node>)
        ensures
            final(self).state() == collect_items(old(self).state(), items@),
    {
        let ghost st0 = self.state();
        let mut i: usize = 0;
        while i < items.len()
            invariant
                i <= items@.len(),
                self.state() == collect_items(st0, items@.take(i as int)),
            decreases items@.len() - i,
        {
            proof {
                assert(items@.take(i + 1).drop_last() =~= items@.take(i as int));
            }
            self.visit_item(&items[i]);
            i = i + 1;
        }
        proof {
            assert(items@.take(i as int) =~= items@);
        }
    }
}

} // verus!
