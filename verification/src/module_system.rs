//! The remote reference documentation's module tree, as the
//! generator walks it.

use vstd::prelude::*;

verus! {

/// Whether a node of the reference tree is a module or an endpoint.
#[derive(PartialEq, Eq, Structural, Clone, Copy)]
pub enum ModuleItemKind {
    Module,
    Endpoint,
}

impl ModuleItemKind {
    /// Renders the kind.
    pub fn as_code(&self) -> (r: &'static str)
        ensures
            r@ == match self {
                ModuleItemKind::Module => "Module"@,
                ModuleItemKind::Endpoint => "Endpoint"@,
            },
    {
        match self {
            ModuleItemKind::Module => "Module",
            ModuleItemKind::Endpoint => "Endpoint",
        }
    }
}

/// One node of the reference tree.
pub struct ModuleItem {
    /// Module or endpoint.
    pub kind: ModuleItemKind,
    /// The node's path in the remote API, e.g. `services/apiref`.
    pub api_path: String,
}

impl ModuleItem {
    /// A module node.
    pub fn module(name: &str) -> (r: ModuleItem)
        ensures
            r.kind == ModuleItemKind::Module,
            r.api_path@ == name@,
    {
        ModuleItem { kind: ModuleItemKind::Module, api_path: name.to_owned() }
    }

    /// An endpoint node.
    pub fn endpoint(name: &str) -> (r: ModuleItem)
        ensures
            r.kind == ModuleItemKind::Endpoint,
            r.api_path@ == name@,
    {
        ModuleItem { kind: ModuleItemKind::Endpoint, api_path: name.to_owned() }
    }
}

/// A module listing exactly as the remote service sends it: the
/// submodule paths and the endpoint paths, separately.
pub struct ModuleItemsRaw {
    pub submodules: Vec<String>,
    pub methods: Vec<String>,
}

/// The children of one module, submodules first, then endpoints.
pub struct ModuleItems {
    items: Vec<ModuleItem>,
}

impl ModuleItems {
    /// The stored nodes.
    pub closed spec fn spec_items(&self) -> Seq<ModuleItem> {
        self.items@
    }

    /// Wraps a list of nodes.
    pub fn new(items: Vec<ModuleItem>) -> (r: ModuleItems)
        ensures
            r.spec_items() == items@,
    {
        ModuleItems { items }
    }

    /// Hands the nodes back out.
    pub fn into_inner(self) -> (r: Vec<ModuleItem>)
        ensures
            r@ == self.spec_items(),
    {
        self.items
    }

    /// Builds the children of a module from a raw listing: every
    /// submodule becomes a module node, every method an endpoint
    /// node, submodules first, in the order the listing gave them.
    pub fn from_raw(raw: ModuleItemsRaw) -> (r: ModuleItems)
        ensures
            r.spec_items().len() == raw.submodules@.len() + raw.methods@.len(),
            forall|i: int|
                0 <= i < raw.submodules@.len() ==> (#[trigger] r.spec_items()[i]).kind
                    == ModuleItemKind::Module && r.spec_items()[i].api_path@
                    == raw.submodules@[i]@,
            forall|i: int|
                0 <= i < raw.methods@.len() ==> (#[trigger] r.spec_items()[raw.submodules@.len()
                    + i]).kind == ModuleItemKind::Endpoint && r.spec_items()[raw.submodules@.len()
                    + i].api_path@ == raw.methods@[i]@,
    {
        let mut items: Vec<ModuleItem> = Vec::new();
        let subs = raw.submodules.len();
        let mut i: usize = 0;
        while i < subs
            invariant
                0 <= i <= subs,
                subs == raw.submodules@.len(),
                items@.len() == i,
                forall|j: int|
                    0 <= j < i ==> (#[trigger] items@[j]).kind == ModuleItemKind::Module
                        && items@[j].api_path@ == raw.submodules@[j]@,
            decreases subs - i,
        {
            items.push(ModuleItem::module(raw.submodules[i].as_str()));
            i = i + 1;
        }
        let meths = raw.methods.len();
        let mut k: usize = 0;
        while k < meths
            invariant
                0 <= k <= meths,
                meths == raw.methods@.len(),
                subs == raw.submodules@.len(),
                items@.len() == subs + k,
                forall|j: int|
                    0 <= j < subs ==> (#[trigger] items@[j]).kind == ModuleItemKind::Module
                        && items@[j].api_path@ == raw.submodules@[j]@,
                forall|j: int|
                    0 <= j < k ==> (#[trigger] items@[subs + j]).kind == ModuleItemKind::Endpoint
                        && items@[subs + j].api_path@ == raw.methods@[j]@,
            decreases meths - k,
        {
            items.push(ModuleItem::endpoint(raw.methods[k].as_str()));
            k = k + 1;
        }
        ModuleItems { items }
    }
}

} // verus!
