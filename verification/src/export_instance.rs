//! Collects the global instances that a module makes, with their documentation.
use vstd::prelude::*;

use crate::to_typename::ToTypename;
use crate::type_walker::GlobalInstance;

verus! {

/// Collects global instances and the documentation given before each of them.
pub struct InstanceWalker {
    /// Documentation for the next instance.
    pub doc: String,
    /// The instances collected so far.
    pub instances: Vec<GlobalInstance>,
}

impl InstanceWalker {
    /// A walker without instances or pending documentation.
    pub fn new() -> (r: Self)
        ensures
            r.doc@.len() == 0,
            r.instances@.len() == 0,
    {
        InstanceWalker { doc: String::new(), instances: Vec::new() }
    }

    /// Records an instance of the type of `T` under `name`, with the pending documentation,
    /// which is then cleared.
    pub fn add_instance<T: ToTypename>(&mut self, name: String)
        ensures
            final(self).doc@.len() == 0,
            final(self).instances@.len() == old(self).instances@.len() + 1,
            final(self).instances@.drop_last() == old(self).instances@,
            final(self).instances@.last().name == name,
            final(self).instances@.last().doc@ == old(self).doc@,
            final(self).instances@.last().ty@ == T::type_spec(),
    {
        let mut doc = String::new();
        std::mem::swap(&mut doc, &mut self.doc);
        let ghost before = self.instances@;
        self.instances.push(GlobalInstance { name, doc, ty: T::to_typename() });
        assert(self.instances@.drop_last() =~= before);
    }

    /// Adds a line of documentation for the next instance.
    pub fn document_instance(&mut self, doc: &str)
        ensures
            final(self).doc@ == old(self).doc@ + doc@ + "\n"@,
            final(self).instances == old(self).instances,
    {
        self.doc.append(doc);
        self.doc.append("\n");
    }
}

impl Default for InstanceWalker {
    fn default() -> (r: Self)
        ensures
            r.doc@.len() == 0,
            r.instances@.len() == 0,
    {
        InstanceWalker::new()
    }
}

} // verus!
