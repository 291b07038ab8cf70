use zonaris::mapping::directive::{
    contains_attribute, is_copy_type, property_kind, DeriveError, DeriveInput, FieldDecl,
    PropertyKind, TypeShape,
};
use zonaris::mapping::property::{collect_field_info, impl_property_macro, AccessorMode};
use zonaris::mapping::record::Record;
use zonaris::mapping::row::SqlValue;

fn plain(ident: &str) -> TypeShape {
    TypeShape::Plain { ident: String::from(ident) }
}

fn field(name: &str, attributes: &[&str], ty: TypeShape) -> FieldDecl {
    FieldDecl {
        name: Some(String::from(name)),
        attributes: attributes.iter().map(|a| String::from(*a)).collect(),
        ty,
    }
}

fn user(fields: Vec<FieldDecl>) -> DeriveInput {
    DeriveInput::Struct { name: String::from("User"), fields }
}

fn integer(value: i32) -> SqlValue {
    SqlValue::Integer(value)
}

#[test]
fn test_auto_getter() {
    let declared = user(vec![field("id", &[], plain("i32"))]);
    let user = Record::new(&declared, vec![integer(0)]).unwrap();

    assert_eq!(user.get("get_id"), Some(integer(0)));
}

#[test]
fn test_auto_setter() {
    let declared = user(vec![field("id", &[], plain("i32"))]);
    let mut user = Record::new(&declared, vec![integer(0)]).unwrap();
    assert!(user.set("set_id", integer(1)));

    assert_eq!(user.get("get_id"), Some(integer(1)));
}

#[test]
fn test_full_getter() {
    let declared = user(vec![field("id", &["getter", "setter"], plain("i32"))]);
    let user = Record::new(&declared, vec![integer(0)]).unwrap();

    assert_eq!(user.get("get_id"), Some(integer(0)));
}

#[test]
fn test_full_setter() {
    let declared = user(vec![field("id", &["getter", "setter"], plain("i32"))]);
    let mut user = Record::new(&declared, vec![integer(0)]).unwrap();
    assert!(user.set("set_id", integer(1)));

    assert_eq!(user.get("get_id"), Some(integer(1)));
}

#[test]
fn test_none_side_effect() {
    let declared = user(vec![
        field("_id", &["none"], plain("i32")),
        field("project_id", &[], plain("i32")),
    ]);
    let mut user = Record::new(&declared, vec![integer(0), integer(1)]).unwrap();

    assert_eq!(user.get("get_project_id"), Some(integer(1)));
    assert!(user.set("set_project_id", integer(2)));
    assert_eq!(user.get("get_project_id"), Some(integer(2)));
}

#[test]
fn test_only_getter() {
    let declared = user(vec![field("id", &["getter"], plain("i32"))]);
    let mut user = Record::new(&declared, vec![integer(0)]).unwrap();
    assert_eq!(user.get("get_id"), Some(integer(0)));
    assert!(user.set_field("id", integer(1)));
    assert_eq!(user.get("get_id"), Some(integer(1)));
}

#[test]
fn test_only_getter_side_effect() {
    let declared = user(vec![
        field("_id", &["getter"], plain("i32")),
        field("project_id", &[], plain("i32")),
    ]);
    let mut user = Record::new(&declared, vec![integer(0), integer(1)]).unwrap();

    assert_eq!(user.get("get_project_id"), Some(integer(1)));
    assert!(user.set("set_project_id", integer(2)));
    assert_eq!(user.get("get_project_id"), Some(integer(2)));
}

#[test]
fn test_only_setter() {
    let declared = user(vec![field("id", &["setter"], plain("i32"))]);
    let mut user = Record::new(&declared, vec![integer(0)]).unwrap();
    assert!(user.set("set_id", integer(1)));
    assert_eq!(user.field("id"), Some(integer(1)));
}

#[test]
fn test_only_setter_side_effect() {
    let declared = user(vec![
        field("_id", &["setter"], plain("i32")),
        field("project_id", &[], plain("i32")),
    ]);
    let mut user = Record::new(&declared, vec![integer(0), integer(1)]).unwrap();

    assert_eq!(user.get("get_project_id"), Some(integer(1)));
    assert!(user.set("set_project_id", integer(2)));
    assert_eq!(user.get("get_project_id"), Some(integer(2)));
}

#[test]
fn suppressed_accessors_are_not_callable() {
    let declared = user(vec![
        field("_id", &["none"], plain("i32")),
        field("project_id", &[], plain("i32")),
    ]);
    let mut user = Record::new(&declared, vec![integer(0), integer(1)]).unwrap();
    assert_eq!(user.get("get__id"), None);
    assert!(!user.set("set__id", integer(5)));
    assert_eq!(user.field("_id"), Some(integer(0)));
}

#[test]
fn getter_only_field_has_no_setter_and_setter_only_field_no_getter() {
    let declared = user(vec![
        field("a", &["getter"], plain("i32")),
        field("b", &["setter"], plain("i32")),
    ]);
    let mut user = Record::new(&declared, vec![integer(1), integer(2)]).unwrap();
    assert!(!user.set("set_a", integer(9)));
    assert_eq!(user.get("get_a"), Some(integer(1)));
    assert_eq!(user.get("get_b"), None);
    assert!(user.set("set_b", integer(9)));
    assert_eq!(user.field("b"), Some(integer(9)));
}

#[test]
fn record_needs_one_value_per_field() {
    let declared = user(vec![field("id", &[], plain("i32"))]);
    assert_eq!(Record::new(&declared, vec![]).unwrap_err(), DeriveError::NotSupported);
    assert_eq!(Record::new(&declared, vec![integer(1), integer(2)]).unwrap_err(), DeriveError::NotSupported);
}

#[test]
fn property_kind_of_every_directive_mix() {
    assert_eq!(property_kind(false, false, false), Ok(PropertyKind::Auto));
    assert_eq!(property_kind(false, false, true), Ok(PropertyKind::Suppressed));
    assert_eq!(property_kind(true, false, false), Ok(PropertyKind::Getter));
    assert_eq!(property_kind(false, true, false), Ok(PropertyKind::Setter));
    assert_eq!(property_kind(true, true, false), Ok(PropertyKind::Full));
    assert_eq!(property_kind(true, false, true), Err(DeriveError::IncorrectAttributeUsage));
    assert_eq!(property_kind(false, true, true), Err(DeriveError::IncorrectAttributeUsage));
    assert_eq!(property_kind(true, true, true), Err(DeriveError::IncorrectAttributeUsage));
}

#[test]
fn kinds_switch_accessors() {
    assert!(PropertyKind::Auto.generates_getter() && PropertyKind::Auto.generates_setter());
    assert!(PropertyKind::Full.generates_getter() && PropertyKind::Full.generates_setter());
    assert!(PropertyKind::Getter.generates_getter() && !PropertyKind::Getter.generates_setter());
    assert!(!PropertyKind::Setter.generates_getter() && PropertyKind::Setter.generates_setter());
    assert!(!PropertyKind::Suppressed.generates_getter());
    assert!(!PropertyKind::Suppressed.generates_setter());
}

#[test]
fn contains_attribute_finds_only_what_is_there() {
    let f = field("id", &["id", "none"], plain("i32"));
    assert!(contains_attribute(&f, "id"));
    assert!(contains_attribute(&f, "none"));
    assert!(!contains_attribute(&f, "getter"));
    assert!(!contains_attribute(&f, "i"));
    assert!(!contains_attribute(&field("id", &[], plain("i32")), "id"));
}

#[test]
fn well_known_types_are_copied() {
    for ident in [
        "i8", "u8", "i16", "u16", "i32", "u32", "i64", "u64", "i128", "u128", "isize", "usize",
        "f32", "f64", "bool", "char", "Id", "Reference",
    ] {
        assert!(is_copy_type(&plain(ident)), "{}", ident);
    }
    assert!(!is_copy_type(&plain("String")));
    assert!(!is_copy_type(&plain("Option")));
    assert!(!is_copy_type(&TypeShape::Other));
}

#[test]
fn options_of_copied_types_are_copied() {
    let option_of = |inner: TypeShape| TypeShape::Applied {
        ident: String::from("Option"),
        argument: Box::new(inner),
    };
    assert!(is_copy_type(&option_of(plain("i64"))));
    assert!(is_copy_type(&option_of(plain("Id"))));
    assert!(is_copy_type(&option_of(option_of(plain("bool")))));
    assert!(!is_copy_type(&option_of(plain("String"))));
    assert!(!is_copy_type(&TypeShape::Generic { ident: String::from("Option") }));
    assert!(!is_copy_type(&TypeShape::Applied {
        ident: String::from("Vec"),
        argument: Box::new(plain("i32")),
    }));
    assert!(is_copy_type(&TypeShape::Applied {
        ident: String::from("Reference"),
        argument: Box::new(plain("Satellite")),
    }));
    assert!(is_copy_type(&TypeShape::Generic { ident: String::from("Reference") }));
}

#[test]
fn collect_field_info_reads_kinds_in_order() {
    let declared = user(vec![
        field("id", &["id", "none"], plain("Option")),
        field("name", &[], plain("String")),
        field("age", &["getter"], plain("u8")),
    ]);
    let infos = collect_field_info(&declared).unwrap();
    assert_eq!(infos.len(), 3);
    assert_eq!(infos[0].name, "id");
    assert_eq!(infos[0].kind, PropertyKind::Suppressed);
    assert_eq!(infos[0].index, 0);
    assert_eq!(infos[1].name, "name");
    assert_eq!(infos[1].kind, PropertyKind::Auto);
    assert_eq!(infos[2].name, "age");
    assert_eq!(infos[2].kind, PropertyKind::Getter);
    assert_eq!(infos[2].index, 2);
}

#[test]
fn collect_field_info_refuses_what_is_not_supported() {
    let other = DeriveInput::Other { name: String::from("Color") };
    assert_eq!(collect_field_info(&other).unwrap_err(), DeriveError::NotSupported);

    let unnamed = user(vec![FieldDecl { name: None, attributes: vec![], ty: plain("i32") }]);
    assert_eq!(collect_field_info(&unnamed).unwrap_err(), DeriveError::NotSupported);

    let clash = user(vec![field("id", &["none", "getter"], plain("i32"))]);
    assert_eq!(collect_field_info(&clash).unwrap_err(), DeriveError::IncorrectAttributeUsage);
}

#[test]
fn first_bad_field_decides_the_error() {
    let declared = user(vec![
        field("a", &["none", "setter"], plain("i32")),
        FieldDecl { name: None, attributes: vec![], ty: plain("i32") },
    ]);
    assert_eq!(collect_field_info(&declared).unwrap_err(), DeriveError::IncorrectAttributeUsage);
    let declared = user(vec![
        FieldDecl { name: None, attributes: vec![], ty: plain("i32") },
        field("a", &["none", "setter"], plain("i32")),
    ]);
    assert_eq!(collect_field_info(&declared).unwrap_err(), DeriveError::NotSupported);
}

#[test]
fn property_plan_lists_getters_before_setters() {
    let declared = user(vec![
        field("id", &["none"], plain("Id")),
        field("name", &[], plain("String")),
        field("age", &["getter"], plain("u8")),
        field("note", &["setter"], plain("String")),
    ]);
    let plan = impl_property_macro(&declared).unwrap();
    assert_eq!(plan.target, "User");
    let listed: Vec<(String, String, AccessorMode)> = plan
        .accessors
        .iter()
        .map(|a| (a.name.clone(), a.field.clone(), a.mode))
        .collect();
    assert_eq!(
        listed,
        vec![
            (String::from("get_name"), String::from("name"), AccessorMode::GetByReference),
            (String::from("set_name"), String::from("name"), AccessorMode::Assign),
            (String::from("get_age"), String::from("age"), AccessorMode::GetByValue),
            (String::from("set_note"), String::from("note"), AccessorMode::Assign),
        ]
    );
}

#[test]
fn property_plan_passes_errors_on() {
    let other = DeriveInput::Other { name: String::from("Color") };
    assert_eq!(impl_property_macro(&other).unwrap_err(), DeriveError::NotSupported);
    let clash = user(vec![field("id", &["setter", "none"], plain("i32"))]);
    assert_eq!(impl_property_macro(&clash).unwrap_err(), DeriveError::IncorrectAttributeUsage);
}
