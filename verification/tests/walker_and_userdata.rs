use tealr::export_instance::InstanceWalker;
use tealr::meta_method::{get_meta_name, MetaMethod};
use tealr::name_container::{DocMap, NameContainer};
use tealr::teal_parts::type_to_string;
use tealr::to_typename::{TypeName, ToTypename};
use tealr::type_generator::{EnumGenerator, RecordGenerator, TypeBody, TypeGenerator};
use tealr::type_walker::{get_tealr_version, TypeWalker};
use tealr::types::{FunctionParam, KindOfType, Type};
use tealr::user_data::{
    proxy_type_body_of, typed_function_typename, user_data_proxy_typename, UserDataDocs,
};

struct Example;

impl ToTypename for Example {
    fn to_typename() -> Type {
        Type::new_single("Example", KindOfType::External)
    }

    fn to_function_param() -> Vec<FunctionParam> {
        vec![FunctionParam { param_name: None, ty: Self::to_typename() }]
    }
}

impl TypeBody for Example {
    fn get_type_body() -> TypeGenerator {
        let mut gen = RecordGenerator::new::<Example>(false);
        gen.add_method::<(), i8, Example>("value");
        gen.add_function::<(), Example>("create");
        TypeGenerator::from(gen)
    }
}

struct Old;

impl TypeName for Old {
    fn get_type_parts() -> Vec<tealr::name_part::NamePart> {
        vec![tealr::name_part::NamePart::symbol("old")]
    }
}

#[test]
fn version_of_the_library() {
    assert_eq!(get_tealr_version(), "0.1.0");
}

#[test]
fn new_walker_is_current_and_empty() {
    let w = TypeWalker::new();
    assert!(w.check_correct_version());
    assert_eq!(w.get_tealr_version_used(), get_tealr_version());
    assert!(w.given_types.is_empty());
    assert!(w.global_instances_off.is_empty());
    assert!(w.extra_page.is_empty());
    let d = TypeWalker::default();
    assert!(d.check_correct_version());
}

#[test]
fn walker_from_another_version_is_not_current() {
    let w = TypeWalker::from_parts("0.0.1".to_string(), vec![], vec![], vec![]);
    assert!(!w.check_correct_version());
    assert_eq!(w.get_tealr_version_used(), "0.0.1");
}

#[test]
fn walker_collects_pages_and_types() {
    let w = TypeWalker::new()
        .add_page("intro".to_string(), "hello".to_string())
        .process_type::<Example>()
        .process_type_inline::<Example>();
    assert_eq!(w.extra_page.len(), 1);
    assert_eq!(w.extra_page[0].name, "intro");
    assert_eq!(w.extra_page[0].content, "hello");
    assert_eq!(w.iter().count(), 2);
    assert!(!w.given_types[0].is_inlined());
    assert!(w.given_types[1].is_inlined());
    assert!(w.check_correct_version());
}

#[test]
fn inlining_leaves_enums_alone() {
    let w = TypeWalker::new().process_type_body_inline(TypeGenerator::from(EnumGenerator::new::<String>()));
    assert!(!w.given_types[0].is_inlined());
    assert!(w.given_types[0].record().is_none());
}

#[test]
fn instance_walker_attaches_documentation() {
    let mut iw = InstanceWalker::new();
    iw.document_instance("first line");
    iw.document_instance("second line");
    iw.add_instance::<Example>("ex".to_string());
    iw.add_instance::<i8>("number".to_string());
    assert_eq!(iw.instances.len(), 2);
    assert_eq!(iw.instances[0].name, "ex");
    assert_eq!(iw.instances[0].doc, "first line\nsecond line\n");
    assert_eq!(iw.instances[1].doc, "");
    assert_eq!(type_to_string(&iw.instances[1].ty, false), "integer");
    assert!(iw.doc.is_empty());
    let w = TypeWalker::new().add_global_instances(iw.instances);
    assert_eq!(w.global_instances_off.len(), 2);
}

#[test]
fn meta_method_names() {
    assert_eq!(get_meta_name(MetaMethod::Add), "__add");
    assert_eq!(get_meta_name(MetaMethod::ToString), "__tostring");
    assert_eq!(get_meta_name(MetaMethod::Type), "unknown");
    assert_eq!(MetaMethod::Type.name(), "__name");
    assert_eq!(MetaMethod::Index.name(), "__index");
}

#[test]
fn method_pages_start_with_the_signature() {
    let mut docs = UserDataDocs::new();
    docs.document("adds");
    docs.document("numbers");
    docs.copy_method_docs::<(i8, i8), i8, Example>("add", true);
    assert_eq!(
        docs.documentation.get(b"add").unwrap(),
        "function(self:Example , integer , integer): integer\n\ndocs:\nadds\n\nnumbers"
    );
    docs.copy_method_docs::<(), (), Example>("f", false);
    assert_eq!(docs.documentation.get(b"f").unwrap(), "function()\n\ndocs:\n");
    assert!(docs.next_docs.is_none());
}

#[test]
fn field_pages_accumulate() {
    let mut docs = UserDataDocs::new();
    docs.document("getter");
    docs.copy_field_docs::<i8>("x");
    assert_eq!(docs.documentation.get(b"x").unwrap(), "integer\n\n docs:\ngetter");
    docs.document("setter");
    docs.copy_field_docs::<i8>("x");
    assert_eq!(docs.documentation.get(b"x").unwrap(), "integer\n\n docs:\ngettersetter");
}

#[test]
fn help_pages() {
    let mut docs = UserDataDocs::new();
    docs.document_type("A type.");
    docs.copy_field_docs::<bool>("flag");
    docs.copy_method_docs::<(), (), Example>("run", true);
    assert_eq!(docs.help_page(Some(b"flag".to_vec())), b"boolean\n\n docs:\n".to_vec());
    assert_eq!(
        docs.help_page(Some(b"nothing".to_vec())),
        b"The given key is not found. Use `.help()` to list available pages.".to_vec()
    );
    assert_eq!(docs.help_page(None), b"A type.\n\nAvailable pages:\nflag\nrun\n".to_vec());
    let copy = docs.copy();
    assert_eq!(copy.help_page(None), docs.help_page(None));
}

#[test]
fn proxies_are_named_after_their_class() {
    let t = user_data_proxy_typename::<Example>();
    assert_eq!(type_to_string(&t, false), "ExampleClass");
    let body = proxy_type_body_of(Example::get_type_body(), &t);
    let rec = body.record().unwrap();
    assert_eq!(rec.type_doc, "Collection of static methods for [``].");
    assert!(rec.methods.is_empty());
    assert_eq!(rec.functions.len(), 1);
    assert_eq!(rec.type_parts.iter().map(|p| p.to_string()).collect::<String>(), "ExampleClass");
}

#[test]
fn proxy_documentation_names_all_but_the_last_part() {
    let t = Type::new_single_with_generics("Foo", KindOfType::External, vec![Type::new_single("integer", KindOfType::Builtin)]);
    let p = tealr::user_data::proxy_type(t);
    let body = proxy_type_body_of(TypeGenerator::from(EnumGenerator::new::<String>()), &p);
    assert!(body.record().is_none());
    let body = proxy_type_body_of(TypeGenerator::from(RecordGenerator::new::<String>(false)), &p);
    assert_eq!(body.record().unwrap().type_doc, "Collection of static methods for [`FooClass<integer`].");
}

#[test]
fn typed_functions_have_function_types() {
    let t = typed_function_typename::<(i8, String), bool>();
    assert_eq!(type_to_string(&t, false), "function(integer , string): boolean");
}

#[test]
fn old_type_names_default_to_external() {
    assert!(Old::get_type_kind() == KindOfType::External);
    assert_eq!(Old::get_type_parts_as_global().len(), 1);
    assert_eq!(tealr::name_part::type_parts_to_str(Old::get_type_parts_as_global()), "old");
    let mut children = Vec::new();
    Old::collect_children(&mut children);
    assert!(children.is_empty());
}

#[test]
fn names_and_documentation_maps() {
    let n = NameContainer::from_str("naïve");
    assert_eq!(n.to_string(), "naïve");
    assert!(n.eq_str("naïve"));
    assert_eq!(NameContainer(vec![b'a', 0xff]).to_string(), "a\u{fffd}");
    let mut m = DocMap::new();
    m.insert(b"a".to_vec(), "1".to_string());
    m.insert(b"b".to_vec(), "2".to_string());
    m.insert(b"a".to_vec(), "3".to_string());
    assert_eq!(m.len(), 2);
    assert_eq!(m.get(b"a").unwrap(), "3");
    assert_eq!(m.remove(b"a").unwrap(), "3");
    assert!(m.get(b"a").is_none());
    assert!(m.remove(b"a").is_none());
    assert_eq!(m.entry(0).0, b"b");
}

#[test]
fn proxies_of_other_types_keep_the_type() {
    let t = Type::Array(Box::new(Type::new_single("integer", KindOfType::Builtin)));
    let p = tealr::user_data::proxy_type(t);
    assert_eq!(type_to_string(&p, false), "{integer}");
}

#[test]
fn proxies_keep_static_fields() {
    let mut gen = RecordGenerator::new::<Example>(false);
    gen.add_field::<i8>("instance");
    gen.add_static_field::<bool>("shared");
    assert_eq!(
        gen.generate().unwrap(),
        "\trecord Example\n\n\t\t-- Fields\n\t\tinstance : integer\n\n\t\tshared : boolean\n\n\n\tend"
    );
    let mut gen = RecordGenerator::new::<Example>(false);
    gen.add_field::<i8>("instance");
    gen.add_static_field::<bool>("shared");
    let t = user_data_proxy_typename::<Example>();
    let body = proxy_type_body_of(TypeGenerator::from(gen), &t);
    let rec = body.record().unwrap();
    assert!(rec.fields.is_empty());
    assert_eq!(rec.static_fields.len(), 1);
    assert!(rec.static_fields[0].name.eq_str("shared"));
}

#[test]
fn array_lengths_must_match() {
    assert!(tealr::user_data::check_array_len(3, 3).is_ok());
    assert_eq!(tealr::user_data::check_array_len(2, 3), Err((2, 3)));
}

#[test]
fn help_documentation_is_kept_as_paragraphs() {
    let mut docs = UserDataDocs::new();
    docs.document("first");
    docs.document("second");
    assert_eq!(docs.next_docs.as_deref(), Some("first\n\nsecond"));
    let copy = docs.copy();
    assert_eq!(copy.next_docs.as_deref(), Some("first\n\nsecond"));
    assert!(UserDataDocs::new().copy().next_docs.is_none());
}
