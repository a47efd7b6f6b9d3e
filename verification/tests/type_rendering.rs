use std::collections::HashMap;

use tealr::exported_function::ExportedFunction;
use tealr::name_part::{type_parts_to_str, NamePart, TealType};
use tealr::teal_parts::{get_generic_types, get_generics, type_to_string, type_to_teal_parts};
use tealr::to_typename::{TealMultiValue, ToTypename};
use tealr::types::{
    FunctionParam, FunctionRepresentation, KindOfType, MapRepresentation, Name, Type,
};

fn integer() -> Type {
    Type::new_single("integer", KindOfType::Builtin)
}

fn string() -> Type {
    Type::new_single("string", KindOfType::Builtin)
}

fn generic(name: &str) -> Type {
    Type::new_single(name, KindOfType::Generic)
}

fn param(ty: Type) -> FunctionParam {
    FunctionParam { param_name: None, ty }
}

#[test]
fn kind_of_type_checks_exactly_one_kind() {
    assert!(KindOfType::Generic.is_generic());
    assert!(!KindOfType::Generic.is_builtin());
    assert!(!KindOfType::Generic.is_external());
    assert!(KindOfType::Builtin.is_builtin());
    assert!(!KindOfType::Builtin.is_external());
    assert!(KindOfType::External.is_external());
    assert!(!KindOfType::External.is_generic());
}

#[test]
fn kind_of_type_defaults_to_external() {
    assert!(KindOfType::default() == KindOfType::External);
}

#[test]
fn single_type_renders_as_its_name() {
    assert_eq!(type_to_string(&string(), false), "string");
    assert!(string().single().is_some());
    assert!(Type::Array(Box::new(string())).single().is_none());
}

#[test]
fn single_type_with_generics() {
    let t = Type::new_single_with_generics("Foo", KindOfType::External, vec![integer(), string()]);
    assert_eq!(type_to_string(&t, false), "Foo<integer,string>");
    let parts = type_to_teal_parts(&t, false);
    assert_eq!(parts.len(), 6);
    assert!(!parts[0].is_symbol());
    assert!(parts[1].is_symbol());
    assert_eq!(parts[1].as_ref_str(), "<");
}

#[test]
fn builtin_types_of_rust_types() {
    assert_eq!(type_to_string(&<bool as ToTypename>::to_typename(), false), "boolean");
    assert_eq!(type_to_string(&<u64 as ToTypename>::to_typename(), false), "integer");
    assert_eq!(type_to_string(&<String as ToTypename>::to_typename(), false), "string");
    assert_eq!(type_to_string(&<Option<i32> as ToTypename>::to_typename(), false), "integer");
}

#[test]
fn arrays_and_maps() {
    assert_eq!(type_to_string(&<Vec<i8> as ToTypename>::to_typename(), false), "{integer}");
    assert_eq!(
        type_to_string(&<HashMap<String, i8> as ToTypename>::to_typename(), false),
        "{string : integer}"
    );
    let m = Type::Mapping(MapRepresentation { key: Box::new(integer()), value: Box::new(string()) });
    assert_eq!(type_to_string(&m, false), "{integer : string}");
}

#[test]
fn unions_and_tuples() {
    assert_eq!(type_to_string(&Type::Or(vec![string(), integer()]), false), "(string | integer)");
    assert_eq!(type_to_string(&Type::Tuple(vec![string(), integer()]), false), "(string , integer)");
    assert_eq!(type_to_string(&Type::Or(vec![]), false), "");
    assert_eq!(type_to_string(&Type::Tuple(vec![]), false), "");
}

#[test]
fn function_types() {
    let f = ExportedFunction::new::<(String, i8), bool>("f", false, None);
    assert_eq!(type_to_string(&f.into_type(), false), "function(string , integer): boolean");
    let g = Type::Function(FunctionRepresentation { params: vec![], returns: vec![] });
    assert_eq!(type_to_string(&g, false), "function()");
}

#[test]
fn named_and_variadic_parameters() {
    let f = Type::Function(FunctionRepresentation {
        params: vec![
            FunctionParam { param_name: Some(Name::new("x")), ty: integer() },
            param(Type::Variadic(Box::new(string()))),
        ],
        returns: vec![Type::Variadic(Box::new(integer()))],
    });
    assert_eq!(type_to_string(&f, false), "function(x:integer , ...:string): integer...");
}

#[test]
fn generic_functions_get_a_header_unless_callbacks() {
    let f = Type::Function(FunctionRepresentation {
        params: vec![param(generic("T")), param(generic("T"))],
        returns: vec![generic("T")],
    });
    assert_eq!(type_to_string(&f, false), "function<T>(T , T): T");
    assert_eq!(type_to_string(&f, true), "function(T , T): T");
    let arr = Type::Array(Box::new(f));
    assert_eq!(type_to_string(&arr, false), "{function(T , T): T}");
}

#[test]
fn generics_are_collected_once() {
    let f = Type::Function(FunctionRepresentation {
        params: vec![param(generic("T")), param(Type::Array(Box::new(generic("U"))))],
        returns: vec![generic("T"), integer()],
    });
    let names: Vec<String> = get_generics(&f).iter().map(|n| n.as_str().to_string()).collect();
    assert_eq!(names, vec!["T".to_string(), "U".to_string()]);
    let types = get_generic_types(&f);
    assert_eq!(types.len(), 2);
    assert!(types[0].deep_eq(&generic("T")));
    assert!(types[1].deep_eq(&generic("U")));
    assert_eq!(get_generics(&integer()).len(), 0);
}

#[test]
fn exported_function_generics_match_its_type() {
    let mut f = ExportedFunction::new::<(), ()>("g", false, Some(generic("A")));
    f.returns.push(generic("B"));
    let own: Vec<String> = f.get_generics().iter().map(|n| n.as_str().to_string()).collect();
    let t = f.into_type();
    let of_type: Vec<String> = get_generics(&t).iter().map(|n| n.as_str().to_string()).collect();
    assert_eq!(own, of_type);
    assert_eq!(own, vec!["A".to_string(), "B".to_string()]);
    assert_eq!(f.get_generic_types().len(), 2);
}

#[test]
fn parts_join_into_text() {
    let parts = vec![
        NamePart::symbol("{"),
        NamePart::Type(TealType { name: "integer".to_string(), type_kind: KindOfType::Builtin, generics: None }),
        NamePart::symbol("}"),
    ];
    assert_eq!(type_parts_to_str(parts), "{integer}");
    assert_eq!(NamePart::symbol("x").to_string(), "x");
}

#[test]
fn multi_values_list_their_types() {
    let types = <(String, i8, bool) as TealMultiValue>::get_types();
    let rendered: Vec<String> = types.iter().map(|t| type_to_string(t, false)).collect();
    assert_eq!(rendered, vec!["string", "integer", "boolean"]);
    assert_eq!(<() as TealMultiValue>::get_types().len(), 0);
}

#[test]
fn type_from_box_and_equality() {
    let b: Box<Type> = Box::new(integer());
    let t: Type = Type::from(b);
    assert!(t == integer());
    assert!(t != string());
    assert!(t.deep_clone().deep_eq(&t));
}

#[test]
fn single_type_without_generics_is_single_type_with_no_generics() {
    let a = Type::new_single("Foo", KindOfType::External);
    let b = Type::new_single_with_generics("Foo", KindOfType::External, vec![]);
    assert!(a.deep_eq(&b));
    assert_eq!(type_to_string(&a, false), type_to_string(&b, false));
}

#[test]
fn one_return_value_follows_a_colon_and_several_are_parenthesised() {
    let g = generic("YourPublicType");
    let one = Type::Function(FunctionRepresentation { params: vec![param(g.deep_clone())], returns: vec![g.deep_clone()] });
    assert_eq!(type_to_string(&one, false), "function<YourPublicType>(YourPublicType): YourPublicType");
    let two = Type::Function(FunctionRepresentation { params: vec![], returns: vec![integer(), string()] });
    assert_eq!(type_to_string(&two, false), "function():(integer , string)");
}
