use tealr::exported_function::ExportedFunction;
use tealr::meta_method::MetaMethod;
use tealr::name_container::{DocMap, NameContainer};
use tealr::teal_parts::type_to_string;
use tealr::to_typename::ToTypename;
use tealr::type_generator::{EnumGenerator, Field, RecordGenerator, TypeGenerator};
use tealr::types::{KindOfType, Type};

#[test]
fn enum_generator_quotes_and_escapes_variants() {
    let mut e = EnumGenerator::new::<String>();
    e.variants.push(NameContainer::from_str("plain"));
    e.variants.push(NameContainer::from_str("a\"b\\c"));
    assert_eq!(e.generate(), "\tenum string\n\t\t\"plain\"\n\t\t\"a\\\"b\\\\c\"\n\tend");
}

#[test]
fn enum_generator_without_variants() {
    let e = EnumGenerator::new::<String>();
    assert_eq!(e.generate(), "\tenum string\n\n\tend");
}

#[test]
fn enum_document_type_adds_a_paragraph() {
    let mut e = EnumGenerator::new::<String>();
    e.document_type("first").document_type("second");
    assert_eq!(e.type_doc, "first\n\nsecond\n\n");
}

#[test]
fn empty_record() {
    let r = RecordGenerator::new::<String>(false);
    assert!(r.should_generate_help_method);
    assert!(!r.is_user_data);
    assert_eq!(r.generate().unwrap(), "\trecord string\n\n\n\tend");
}

#[test]
fn inlined_record_has_a_comment_header_and_no_end() {
    let r = RecordGenerator::new::<String>(true);
    assert_eq!(r.generate().unwrap(), "\t-- string\n\n\n");
}

#[test]
fn userdata_record_is_marked() {
    let mut r = RecordGenerator::new::<String>(false);
    r.is_user_data = true;
    assert_eq!(r.generate().unwrap(), "\trecord string\n\t\tuserdata\n\n\n\tend");
}

#[test]
fn record_with_documented_method() {
    let mut r = RecordGenerator::new::<String>(false);
    r.document("doc");
    r.add_method::<i8, String, String>("m");
    assert!(r.next_docs.is_none());
    assert_eq!(r.methods.len(), 1);
    assert_eq!(
        r.generate().unwrap(),
        "\trecord string\n\n\t\t-- Pure methods\n\t\t--doc\n\t\tm: function(self:string , integer): string\n\n\n\tend"
    );
}

#[test]
fn record_type_documentation_becomes_comments() {
    let mut r = RecordGenerator::new::<String>(false);
    r.document_type("about").document_type("more");
    assert_eq!(r.type_doc, "about\n\nmore\n\n");
    assert_eq!(r.generate().unwrap(), "--about\n--\n--more\n--\n\trecord string\n\n\n\tend");
}

#[test]
fn fields_are_declared_once() {
    let mut r = RecordGenerator::new::<String>(false);
    r.add_field::<i8>("a");
    r.add_field::<String>("a");
    r.add_meta_field_with::<bool>(MetaMethod::Index);
    assert_eq!(r.fields.len(), 2);
    assert_eq!(
        r.generate().unwrap(),
        "\trecord string\n\n\t\t-- Fields\n\t\ta : integer\n\n\t\t__index : boolean\n\n\n\tend"
    );
}

#[test]
fn sections_come_in_order() {
    let mut r = RecordGenerator::new::<String>(false);
    r.add_function_mut::<(), ()>("fm");
    r.add_function::<(), ()>("f");
    r.add_method_mut::<(), (), String>("mm");
    assert_eq!(
        r.generate().unwrap(),
        "\trecord string\n\n\t\t-- Mutating methods\n\t\tmm: function(self:string)\n\n\t\t-- Pure functions\n\t\tf: function()\n\n\t\t-- Mutating functions\n\t\tfm: function()\n\n\n\tend"
    );
}

#[test]
fn meta_methods_are_marked() {
    let mut r = RecordGenerator::new::<String>(false);
    r.document("as text");
    r.add_meta_method::<(), String, String>(MetaMethod::ToString);
    r.add_meta_function::<(i8, i8), i8>(MetaMethod::Add);
    assert_eq!(r.documentation.get(b"__tostring").unwrap(), "as text");
    let text = r.generate().unwrap();
    assert_eq!(
        text,
        "\trecord string\n\n\t\t-- Meta methods\n\t\t--as text\n\t\tmetamethod __tostring: function(self:string): string\n\n\t\t-- Meta functions\n\t\tmetamethod __add: function(integer , integer): integer\n\n\n\tend"
    );
}

#[test]
fn documentation_for_one_name_accumulates() {
    let mut r = RecordGenerator::new::<String>(false);
    r.document("a");
    r.document("b");
    r.copy_docs(b"k");
    assert_eq!(r.documentation.get(b"k").unwrap(), "a\n\nb");
    r.document("c");
    r.copy_docs(b"k");
    assert_eq!(r.documentation.get(b"k").unwrap(), "a\n\nb\n\nc");
    r.copy_docs(b"k");
    assert_eq!(r.documentation.get(b"k").unwrap(), "a\n\nb\n\nc");
}

#[test]
fn help_function_is_recorded() {
    let mut r = RecordGenerator::new::<String>(false);
    r.generate_help();
    assert_eq!(r.functions.len(), 1);
    assert_eq!(type_to_string(&r.functions[0].into_type(), false), "function(string): string");
    assert!(r.functions[0].name.eq_str("help"));
}

#[test]
fn invalid_method_names_fail_generation() {
    let mut r = RecordGenerator::new::<String>(false);
    let mut f = ExportedFunction::new::<(), ()>("x", false, None);
    f.name = NameContainer(vec![0xff, 0xfe]);
    r.meta_function_mut.push(f);
    assert!(r.generate().is_err());
}

#[test]
fn exported_function_declaration() {
    let f = ExportedFunction::new::<(String,), bool>("check", false, None);
    let mut docs = DocMap::new();
    docs.insert(b"check".to_vec(), "line one\nline two".to_string());
    assert_eq!(f.generate(&docs).unwrap(), "--line one\n--line two\ncheck: function(string): boolean");
    let g = ExportedFunction::new::<(), ()>("__len", true, None);
    assert_eq!(g.generate(&DocMap::new()).unwrap(), "metamethod __len: function()");
    let mut bad = ExportedFunction::new::<(), ()>("x", false, None);
    bad.name = NameContainer(vec![0xc3]);
    assert!(bad.generate(&DocMap::new()).is_err());
}

#[test]
fn all_functions_lists_every_list_in_order() {
    let mut r = RecordGenerator::new::<String>(false);
    r.add_meta_function_mut::<(), ()>(MetaMethod::Call);
    r.add_method::<(), (), String>("a");
    r.add_function::<(), ()>("b");
    let names: Vec<String> = r.all_functions().iter().map(|f| f.name.to_string()).collect();
    assert_eq!(names, vec!["a".to_string(), "b".to_string(), "__call".to_string()]);
}

#[test]
fn type_generator_accessors() {
    let rec: TypeGenerator = TypeGenerator::from(RecordGenerator::new::<String>(true));
    assert!(rec.is_inlined());
    assert!(rec.record().is_some());
    assert!(rec.typename().deep_eq(&Type::new_single("string", KindOfType::Builtin)));
    let en: TypeGenerator = TypeGenerator::from(EnumGenerator::new::<i8>());
    assert!(!en.is_inlined());
    assert!(en.record().is_none());
    assert_eq!(en.generate().unwrap(), "\tenum integer\n\n\tend");
}

#[test]
fn field_of_a_type() {
    let f = Field::new::<Vec<String>>("names");
    assert!(f.name.eq_str("names"));
    assert!(f.ty.deep_eq(&<Vec<String> as ToTypename>::to_typename()));
    let (name, parts): (NameContainer, Vec<tealr::name_part::NamePart>) = f.clone().into();
    assert_eq!(name.to_string(), "names");
    assert_eq!(tealr::name_part::type_parts_to_str(parts), "{string}");
}
