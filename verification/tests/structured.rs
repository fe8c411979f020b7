use typegen::ty_to_ts_type;
use typegen::ToTypeDef;
use typegen::TypeDef;
use typegen::TypeExpr;

#[test]
fn references_are_erased() {
    let inner = TypeExpr::Path(String::from("u8"));
    let reference = TypeExpr::Reference(Box::new(TypeExpr::Path(String::from("u8"))));
    assert_eq!(ty_to_ts_type(&reference, false), ty_to_ts_type(&inner, false));
    assert_eq!(ty_to_ts_type(&reference, false), "number");
}

#[test]
fn reference_propagates_the_top_level_flag() {
    let fallible = TypeExpr::Reference(Box::new(TypeExpr::Path(String::from(
        "Result < u32 , String >",
    ))));
    assert_eq!(ty_to_ts_type(&fallible, true), "number");
    assert_eq!(ty_to_ts_type(&fallible, false), "Error | number");
}

#[test]
fn empty_tuple_renders_as_undefined() {
    let unit = TypeExpr::Tuple(Vec::new());
    assert_eq!(ty_to_ts_type(&unit, false), "undefined");
    assert_eq!(ty_to_ts_type(&unit, true), "undefined");
}

#[test]
fn pair_renders_as_bracketed_list() {
    let pair = TypeExpr::Tuple(vec![
        TypeExpr::Path(String::from("u8")),
        TypeExpr::Path(String::from("String")),
    ]);
    assert_eq!(ty_to_ts_type(&pair, false), "[number, string]");
}

#[test]
fn tuple_elements_lose_the_top_level_flag() {
    let single = TypeExpr::Tuple(vec![TypeExpr::Path(String::from("Result < u8 >"))]);
    assert_eq!(ty_to_ts_type(&single, true), "[Error | number]");
}

#[test]
fn path_dispatches_as_text() {
    let path = TypeExpr::Path(String::from("Vec < bool >"));
    assert_eq!(ty_to_ts_type(&path, false), "Array<boolean>");
}

#[test]
fn unsupported_shapes_render_as_any() {
    assert_eq!(ty_to_ts_type(&TypeExpr::Unsupported, false), "any");
    assert_eq!(ty_to_ts_type(&TypeExpr::Unsupported, true), "any");
}

#[test]
fn type_def_renders_as_object_text() {
    let def = TypeDef {
        kind: String::from("fn"),
        name: String::from("add"),
        def: String::from("number"),
    };
    assert_eq!(
        def.to_string(),
        "{\"kind\": \"fn\", \"name\": \"add\", \"def\": \"number\"}"
    );
}

#[test]
fn default_type_def_is_empty() {
    let def = TypeDef::default();
    assert_eq!(def.kind, "");
    assert_eq!(def.name, "");
    assert_eq!(def.def, "");
}

struct Widget {
    name: String,
}

impl ToTypeDef for Widget {
    fn to_type_def(&self) -> TypeDef {
        TypeDef {
            kind: String::from("struct"),
            name: self.name.clone(),
            def: ty_to_ts_type(&TypeExpr::Path(String::from("u32")), false),
        }
    }
}

#[test]
fn to_type_def_implementors_describe_themselves() {
    let widget = Widget { name: String::from("Widget") };
    let def = widget.to_type_def();
    assert_eq!(def.kind, "struct");
    assert_eq!(def.name, "Widget");
    assert_eq!(def.def, "number");
    assert_eq!(
        def.to_string(),
        "{\"kind\": \"struct\", \"name\": \"Widget\", \"def\": \"number\"}"
    );
}
