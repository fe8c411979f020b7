use typegen::str_to_ts_type;

#[test]
fn unit_token_maps_to_undefined() {
    assert_eq!(str_to_ts_type("()", false), "undefined");
    assert_eq!(str_to_ts_type("()", true), "undefined");
}

#[test]
fn small_integers_map_to_number() {
    for token in ["i8", "i16", "i32", "u8", "u16", "u32"] {
        assert_eq!(str_to_ts_type(token, false), "number");
        assert_eq!(str_to_ts_type(token, true), "number");
    }
}

#[test]
fn wide_integers_map_to_bigint() {
    for token in ["i64", "u64", "i128", "u128", "isize", "usize"] {
        assert_eq!(str_to_ts_type(token, false), "BigInt");
        assert_eq!(str_to_ts_type(token, true), "BigInt");
    }
}

#[test]
fn boolean_token_maps_to_boolean() {
    assert_eq!(str_to_ts_type("bool", false), "boolean");
    assert_eq!(str_to_ts_type("bool", true), "boolean");
}

#[test]
fn string_tokens_map_to_string() {
    for token in ["String", "str", "char"] {
        assert_eq!(str_to_ts_type(token, false), "string");
        assert_eq!(str_to_ts_type(token, true), "string");
    }
}

#[test]
fn object_token_maps_to_object() {
    assert_eq!(str_to_ts_type("Object", false), "object");
    assert_eq!(str_to_ts_type("Object", true), "object");
}

#[test]
fn borrowed_string_slices_map_to_string() {
    assert_eq!(str_to_ts_type("& str", false), "string");
    assert_eq!(str_to_ts_type("& 'a str", false), "string");
    assert_eq!(str_to_ts_type("& 'static str", true), "string");
}

#[test]
fn sequence_wrapper_renders_as_array() {
    assert_eq!(str_to_ts_type("Vec < u8 >", false), "Array<number>");
    assert_eq!(str_to_ts_type("Vec < u8 >", true), "Array<number>");
    assert_eq!(str_to_ts_type("Vec < String >", false), "Array<string>");
}

#[test]
fn nested_sequences_render_recursively() {
    assert_eq!(str_to_ts_type("Vec < Vec < u8 > >", false), "Array<Array<number>>");
}

#[test]
fn optional_wrapper_renders_as_null_union() {
    assert_eq!(str_to_ts_type("Option < String >", false), "string | null");
    assert_eq!(str_to_ts_type("Option < String >", true), "string | null");
    assert_eq!(str_to_ts_type("Option < Foo >", false), "Foo | null");
}

#[test]
fn fallible_wrapper_keeps_error_union_when_nested() {
    assert_eq!(str_to_ts_type("Result < u32 , String >", false), "Error | number");
    assert_eq!(str_to_ts_type("Result < u32 >", false), "Error | number");
}

#[test]
fn fallible_wrapper_is_stripped_at_top_level() {
    assert_eq!(str_to_ts_type("Result < u32 , String >", true), "number");
    assert_eq!(str_to_ts_type("Result < u32 >", true), "number");
}

#[test]
fn map_wrapper_renders_as_record() {
    assert_eq!(
        str_to_ts_type("HashMap < String , u64 >", false),
        "Record<string, BigInt>"
    );
    assert_eq!(
        str_to_ts_type("HashMap < String , u8 >", true),
        "Record<string, number>"
    );
}

#[test]
fn nested_wrappers_render_inside_out() {
    assert_eq!(
        str_to_ts_type("Option < Vec < Result < u32 , String > > >", false),
        "Array<Error | number> | null"
    );
}

#[test]
fn fallible_flag_is_off_below_the_top_level() {
    assert_eq!(str_to_ts_type("Vec < Result < u8 , E > >", true), "Array<Error | number>");
}

#[test]
fn unknown_names_pass_through_unchanged() {
    assert_eq!(str_to_ts_type("Foo", false), "Foo");
    assert_eq!(str_to_ts_type("Foo", true), "Foo");
    assert_eq!(str_to_ts_type("MyStruct", false), "MyStruct");
}

#[test]
fn passthrough_is_idempotent() {
    let once = str_to_ts_type("ExternalType", false);
    let twice = str_to_ts_type(&once, false);
    assert_eq!(once, "ExternalType");
    assert_eq!(twice, "ExternalType");
}

#[test]
fn already_translated_text_passes_through() {
    assert_eq!(str_to_ts_type("Array<number> | null", false), "Array<number> | null");
}

#[test]
fn empty_string_passes_through() {
    assert_eq!(str_to_ts_type("", false), "");
}

#[test]
fn unclosed_wrapper_passes_through() {
    assert_eq!(str_to_ts_type("Vec < u8", false), "Vec < u8");
    assert_eq!(str_to_ts_type("Option < u8", true), "Option < u8");
}
