//! Collects the types, global instances and extra pages of a module, from which the
//! declaration files and the documentation are written.
use vstd::prelude::*;

use crate::to_typename::ToTypename;
use crate::type_generator::{RecordGenerator, TypeBody, TypeGenerator};
use crate::types::Type;
use vstd::std_specs::iter::IteratorSpec;

verus! {

/// The version of this library, recorded in every [`TypeWalker`] it creates.
pub open spec fn tealr_version() -> Seq<char> {
    "0.1.0"@
}

/// Gets the version of this library.
pub fn get_tealr_version() -> (r: &'static str)
    ensures
        r@ == tealr_version(),
{
    "0.1.0"
}

/// Documents a global instance that the module creates.
pub struct GlobalInstance {
    /// The name of the instance.
    pub name: String,
    /// The type of the instance.
    pub ty: Type,
    /// Documentation for this global.
    pub doc: String,
}

/// An extra page of documentation.
pub struct ExtraPage {
    /// The name of the extra page.
    pub name: String,
    /// The markdown content of the extra page.
    pub content: String,
}

/// The generator as it is added by [`TypeWalker::process_type_inline`]: a record is marked to be
/// inlined, an enum stays as it is.
pub open spec fn inlined(g: TypeGenerator) -> TypeGenerator {
    match g {
        TypeGenerator::Record(x) => TypeGenerator::Record(
            Box::new(RecordGenerator { should_be_inlined: true, ..*x }),
        ),
        TypeGenerator::Enum(e) => TypeGenerator::Enum(e),
    }
}

/// Collects everything from which the `.d.tl` files and the documentation are generated.
pub struct TypeWalker {
    tealr_version_used: String,
    /// All the types that are currently registered.
    pub given_types: Vec<TypeGenerator>,
    /// The global instances that the module creates.
    pub global_instances_off: Vec<GlobalInstance>,
    /// The extra pages that need to be generated.
    pub extra_page: Vec<ExtraPage>,
}

impl TypeWalker {
    /// The version of this library that created the walker.
    pub closed spec fn version_used(&self) -> Seq<char> {
        self.tealr_version_used@
    }

    /// The registered types, in the order they were added.
    pub closed spec fn types(&self) -> Seq<TypeGenerator> {
        self.given_types@
    }

    /// The global instances, in the order they were added.
    pub closed spec fn instances(&self) -> Seq<GlobalInstance> {
        self.global_instances_off@
    }

    /// The extra pages, in the order they were added.
    pub closed spec fn pages(&self) -> Seq<ExtraPage> {
        self.extra_page@
    }

    /// Creates an empty walker, made by the current version.
    pub fn new() -> (r: Self)
        ensures
            r.version_used() == tealr_version(),
            r.types().len() == 0,
            r.instances().len() == 0,
            r.pages().len() == 0,
    {
        TypeWalker {
            tealr_version_used: String::from_str(get_tealr_version()),
            given_types: Vec::new(),
            global_instances_off: Vec::new(),
            extra_page: Vec::new(),
        }
    }

    /// A walker with the given contents, made by the given version of this library.
    pub fn from_parts(
        tealr_version_used: String,
        given_types: Vec<TypeGenerator>,
        global_instances_off: Vec<GlobalInstance>,
        extra_page: Vec<ExtraPage>,
    ) -> (r: Self)
        ensures
            r.version_used() == tealr_version_used@,
            r.types() == given_types@,
            r.instances() == global_instances_off@,
            r.pages() == extra_page@,
    {
        TypeWalker { tealr_version_used, given_types, global_instances_off, extra_page }
    }

    /// Adds a page to the documentation.
    pub fn add_page(self, name: String, content: String) -> (r: Self)
        ensures
            r.pages() == self.pages().push(ExtraPage { name, content }),
            r.types() == self.types(),
            r.instances() == self.instances(),
            r.version_used() == self.version_used(),
    {
        let mut s = self;
        s.extra_page.push(ExtraPage { name, content });
        s
    }

    /// Goes over every type, in the order they were added.
    pub fn iter(&self) -> (r: std::slice::Iter<'_, TypeGenerator>)
        ensures
            r.remaining() == self.types().map_values(|g: TypeGenerator| &g),
    {
        let r = self.given_types.as_slice().iter();
        assert(self.given_types@.map_values(|g: TypeGenerator| &g) =~= self.given_types@.as_ref());
        r
    }

    /// Adds a type whose body is written into the module itself instead of becoming a record
    /// of its own.
    pub fn process_type_body_inline(self, body: TypeGenerator) -> (r: Self)
        ensures
            r.types() == self.types().push(inlined(body)),
            r.instances() == self.instances(),
            r.pages() == self.pages(),
            r.version_used() == self.version_used(),
    {
        let mut s = self;
        let x = match body {
            TypeGenerator::Record(x) => {
                let mut g = *x;
                g.should_be_inlined = true;
                TypeGenerator::Record(Box::new(g))
            },
            TypeGenerator::Enum(e) => TypeGenerator::Enum(e),
        };
        s.given_types.push(x);
        s
    }

    /// Adds a type to the types to write down.
    pub fn process_type_body(self, body: TypeGenerator) -> (r: Self)
        ensures
            r.types() == self.types().push(body),
            r.instances() == self.instances(),
            r.pages() == self.pages(),
            r.version_used() == self.version_used(),
    {
        let mut s = self;
        s.given_types.push(body);
        s
    }

    /// Processes the type `A` such that its body is added directly into the module instead of
    /// becoming a record of its own; that is needed for the value that a Lua library returns.
    pub fn process_type_inline<A: ToTypename + TypeBody>(self) -> (r: Self)
        ensures
            r.types().len() == self.types().len() + 1,
            r.types().drop_last() == self.types(),
            r.types().last() == inlined(A::body_spec()),
            r.instances() == self.instances(),
            r.pages() == self.pages(),
            r.version_used() == self.version_used(),
    {
        let body = A::get_type_body();
        let r = self.process_type_body_inline(body);
        assert(r.types().drop_last() =~= self.types());
        r
    }

    /// Prepares the type `A` to have its declaration written.
    pub fn process_type<A: ToTypename + TypeBody>(self) -> (r: Self)
        ensures
            r.types().len() == self.types().len() + 1,
            r.types().drop_last() == self.types(),
            r.types().last() == A::body_spec(),
            r.instances() == self.instances(),
            r.pages() == self.pages(),
            r.version_used() == self.version_used(),
    {
        let body = A::get_type_body();
        let r = self.process_type_body(body);
        assert(r.types().drop_last() =~= self.types());
        r
    }

    /// Appends the given global instances, keeping their order.
    pub fn add_global_instances(self, instances: Vec<GlobalInstance>) -> (r: Self)
        ensures
            r.instances() == self.instances() + instances@,
            r.types() == self.types(),
            r.pages() == self.pages(),
            r.version_used() == self.version_used(),
    {
        let mut s = self;
        let mut instances = instances;
        s.global_instances_off.append(&mut instances);
        s
    }

    /// True exactly when the walker was made by the current version of this library.
    pub fn check_correct_version(&self) -> (r: bool)
        ensures
            r == (self.version_used() == tealr_version()),
    {
        let current = String::from_str(get_tealr_version());
        self.tealr_version_used == current
    }

    /// The version of this library that was used to create the walker.
    pub fn get_tealr_version_used(&self) -> (r: &str)
        ensures
            r@ == self.version_used(),
    {
        self.tealr_version_used.as_str()
    }
}

impl Default for TypeWalker {
    fn default() -> (r: Self)
        ensures
            r.version_used() == tealr_version(),
            r.types().len() == 0,
            r.instances().len() == 0,
            r.pages().len() == 0,
    {
        TypeWalker::new()
    }
}

} // verus!
