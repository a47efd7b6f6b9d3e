use tealr::name_part::{type_parts_to_str, NamePart, TealType};
use tealr::typed_function::{collect_function_children, function_type_parts, function_type_parts_as_global};
use tealr::types::KindOfType;

fn ty(name: &str, kind: KindOfType) -> NamePart {
    NamePart::Type(TealType { name: name.to_string(), type_kind: kind, generics: None })
}

#[test]
fn plain_function_parts() {
    let parts = function_type_parts(vec![ty("integer", KindOfType::Builtin)], vec![ty("string", KindOfType::Builtin)]);
    assert_eq!(type_parts_to_str(parts), "function(integer):(string)");
}

#[test]
fn global_function_lists_its_generics_once() {
    let params = vec![ty("T", KindOfType::Generic), NamePart::symbol(","), ty("U", KindOfType::Generic)];
    let rets = vec![ty("T", KindOfType::Generic), NamePart::symbol(","), ty("integer", KindOfType::Builtin)];
    let parts = function_type_parts_as_global(params, rets);
    assert_eq!(type_parts_to_str(parts), "function<T,U>(T,U):(T,integer)");
}

#[test]
fn global_function_without_generics_is_plain() {
    let params = vec![ty("integer", KindOfType::Builtin)];
    let rets = vec![];
    assert_eq!(type_parts_to_str(function_type_parts_as_global(params, rets)), "function(integer):()");
}

#[test]
fn children_of_a_function() {
    let params = vec![ty("T", KindOfType::Generic), NamePart::symbol(",")];
    let rets = vec![ty("string", KindOfType::Builtin)];
    let mut children = vec![ty_plain("x")];
    collect_function_children(&params, &rets, &mut children);
    let names: Vec<String> = children.iter().map(|t| t.name.clone()).collect();
    assert_eq!(names, vec!["x".to_string(), "T".to_string(), "string".to_string()]);
}

fn ty_plain(name: &str) -> TealType {
    TealType { name: name.to_string(), type_kind: KindOfType::External, generics: None }
}

#[test]
fn teal_types_compare_deeply() {
    let a = TealType { name: "A".to_string(), type_kind: KindOfType::External, generics: Some(vec![ty_plain("x")]) };
    let b = TealType { name: "A".to_string(), type_kind: KindOfType::External, generics: Some(vec![ty_plain("y")]) };
    assert!(a.deep_eq(&a.clone()));
    assert!(!a.deep_eq(&b));
    assert!(!a.deep_eq(&ty_plain("A")));
}
