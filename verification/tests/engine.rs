use jsonschema::context::{Draft, RefRegistry};
use jsonschema::errors::{CompilationErrorKind, ErrorKind};
use jsonschema::json::{Json, JsonType};
use jsonschema::schema::JSONSchema;
use jsonschema::validator::{IfElseValidator, IfThenElseValidator, IfThenValidator, Validator};

fn obj(pairs: Vec<(&str, Json)>) -> Json {
    Json::Obj(pairs.into_iter().map(|(k, v)| (k.to_string(), v)).collect())
}

fn text(x: &str) -> Json {
    Json::Str(x.to_string())
}

fn compile(schema: &Json) -> JSONSchema {
    match JSONSchema::compile(schema, RefRegistry::new(), Draft::Draft7, 16) {
        Ok(s) => s,
        Err(_) => panic!("schema did not compile"),
    }
}

fn compile_err(schema: &Json) -> jsonschema::errors::CompilationError {
    match JSONSchema::compile(schema, RefRegistry::new(), Draft::Draft7, 16) {
        Ok(_) => panic!("schema compiled but an error was expected"),
        Err(e) => e,
    }
}

fn conditional_schema() -> Json {
    obj(vec![
        ("if", obj(vec![("type", text("number"))])),
        ("then", obj(vec![("minimum", Json::Int(0))])),
        ("else", obj(vec![("minLength", Json::Int(3))])),
    ])
}

#[test]
fn condition_holds_then_passes() {
    let s = compile(&conditional_schema());
    let i = Json::Int(5);
    assert!(s.is_valid(&i));
    assert_eq!(s.validate(&i).len(), 0);
}

#[test]
fn condition_holds_then_fails() {
    let s = compile(&conditional_schema());
    let i = Json::Int(-5);
    assert!(!s.is_valid(&i));
    let diags = s.validate(&i);
    assert_eq!(diags.len(), 1);
    assert_eq!(diags[0].schema_path, vec!["then".to_string(), "minimum".to_string()]);
    assert_eq!(diags[0].instance_path.len(), 0);
    assert_eq!(diags[0].kind, ErrorKind::Minimum { limit: 0 });
}

#[test]
fn condition_fails_else_fails() {
    let s = compile(&conditional_schema());
    let i = text("ab");
    assert!(!s.is_valid(&i));
    let diags = s.validate(&i);
    assert_eq!(diags.len(), 1);
    assert_eq!(diags[0].schema_path, vec!["else".to_string(), "minLength".to_string()]);
    assert_eq!(diags[0].kind, ErrorKind::MinLength { limit: 3 });
}

#[test]
fn condition_fails_else_passes() {
    let s = compile(&conditional_schema());
    let i = text("abcd");
    assert!(s.is_valid(&i));
    assert_eq!(s.validate(&i).len(), 0);
}

#[test]
fn if_then_only_vacuous_pass() {
    let s = compile(&obj(vec![
        ("if", obj(vec![("type", text("number"))])),
        ("then", obj(vec![("minimum", Json::Int(0))])),
    ]));
    for i in [text(""), text("x"), Json::Null, Json::Bool(false), obj(vec![])] {
        assert!(s.is_valid(&i));
        assert_eq!(s.validate(&i).len(), 0);
    }
}

#[test]
fn if_else_only_empty_condition_never_takes_else() {
    let s = compile(&obj(vec![
        ("if", obj(vec![])),
        ("else", obj(vec![("minLength", Json::Int(3))])),
    ]));
    for i in [text(""), text("ab"), Json::Int(-9), Json::Null] {
        assert!(s.is_valid(&i));
        assert_eq!(s.validate(&i).len(), 0);
    }
}

#[test]
fn if_else_only_failing_condition_takes_else() {
    let s = compile(&obj(vec![
        ("if", obj(vec![("type", text("number"))])),
        ("else", obj(vec![("minLength", Json::Int(3))])),
    ]));
    let short = text("ab");
    assert!(!s.is_valid(&short));
    let diags = s.validate(&short);
    assert_eq!(diags.len(), 1);
    assert_eq!(diags[0].schema_path, vec!["else".to_string(), "minLength".to_string()]);
    let long = text("abc");
    assert!(s.is_valid(&long));
    let number = Json::Int(-100);
    assert!(s.is_valid(&number));
}

#[test]
fn if_without_branches_contributes_nothing() {
    let s = compile(&obj(vec![("if", obj(vec![("type", text("number"))]))]));
    assert!(s.is_valid(&text("anything")));
    assert!(s.is_valid(&Json::Int(-1)));
}

#[test]
fn boolean_schemas() {
    let t = compile(&Json::Bool(true));
    assert!(t.is_valid(&Json::Null));
    assert_eq!(t.validate(&Json::Null).len(), 0);
    let f = compile(&Json::Bool(false));
    assert!(!f.is_valid(&Json::Null));
    let diags = f.validate(&Json::Null);
    assert_eq!(diags.len(), 1);
    assert_eq!(diags[0].kind, ErrorKind::FalseSchema);
    assert_eq!(diags[0].schema_path.len(), 0);
}

#[test]
fn empty_object_schema_accepts_everything() {
    let s = compile(&obj(vec![]));
    assert!(s.is_valid(&Json::Null));
    assert!(s.is_valid(&text("x")));
}

#[test]
fn unknown_keywords_are_ignored() {
    let s = compile(&obj(vec![("frobnicate", Json::Int(1)), ("minimum", Json::Int(2))]));
    assert!(s.is_valid(&Json::Int(2)));
    assert!(!s.is_valid(&Json::Int(1)));
}

#[test]
fn type_keyword_matches_and_reports() {
    let s = compile(&obj(vec![("type", text("string"))]));
    assert!(s.is_valid(&text("")));
    assert!(!s.is_valid(&Json::Int(0)));
    let diags = s.validate(&Json::Int(0));
    assert_eq!(diags.len(), 1);
    assert_eq!(diags[0].kind, ErrorKind::TypeMismatch { expected: JsonType::Str });
    assert_eq!(diags[0].schema_path, vec!["type".to_string()]);
}

#[test]
fn number_and_integer_both_accept_integers() {
    let n = compile(&obj(vec![("type", text("number"))]));
    let i = compile(&obj(vec![("type", text("integer"))]));
    assert!(n.is_valid(&Json::Int(7)));
    assert!(i.is_valid(&Json::Int(7)));
    assert!(!n.is_valid(&text("7")));
    assert!(!i.is_valid(&text("7")));
}

#[test]
fn minimum_boundary() {
    let s = compile(&obj(vec![("minimum", Json::Int(0))]));
    assert!(s.is_valid(&Json::Int(0)));
    assert!(s.is_valid(&Json::Int(1)));
    assert!(!s.is_valid(&Json::Int(-1)));
    assert!(s.is_valid(&text("not a number")));
}

#[test]
fn min_length_boundary() {
    let s = compile(&obj(vec![("minLength", Json::Int(3))]));
    assert!(s.is_valid(&text("abc")));
    assert!(!s.is_valid(&text("ab")));
    assert!(s.is_valid(&text("abcd")));
    assert!(s.is_valid(&Json::Int(1)));
}

#[test]
fn sibling_keywords_conjoin_and_concatenate() {
    let s = compile(&obj(vec![("type", text("string")), ("minLength", Json::Int(3))]));
    let i = Json::Int(5);
    let diags = s.validate(&i);
    assert_eq!(diags.len(), 1);
    assert_eq!(diags[0].kind, ErrorKind::TypeMismatch { expected: JsonType::Str });
    let short = text("ab");
    let diags = s.validate(&short);
    assert_eq!(diags.len(), 1);
    assert_eq!(diags[0].kind, ErrorKind::MinLength { limit: 3 });
    assert!(s.is_valid(&text("abc")));
}

#[test]
fn is_valid_agrees_with_validate_everywhere() {
    let schemas = vec![
        conditional_schema(),
        Json::Bool(false),
        Json::Bool(true),
        obj(vec![("type", text("string")), ("minLength", Json::Int(2))]),
        obj(vec![("if", obj(vec![])), ("else", Json::Bool(false))]),
    ];
    let instances = vec![Json::Null, Json::Bool(true), Json::Int(-5), Json::Int(5), text(""), text("abc")];
    for schema in &schemas {
        let s = compile(schema);
        for i in &instances {
            assert_eq!(s.is_valid(i), s.validate(i).is_empty());
        }
    }
}

#[test]
fn compiling_twice_is_behaviorally_identical() {
    let schema = conditional_schema();
    let s1 = compile(&schema);
    let s2 = compile(&schema);
    let instances = vec![Json::Int(5), Json::Int(-5), text("ab"), text("abc"), Json::Null];
    for i in &instances {
        assert_eq!(s1.is_valid(i), s2.is_valid(i));
        let d1 = s1.validate(i);
        let d2 = s2.validate(i);
        assert_eq!(d1.len(), d2.len());
        for (a, b) in d1.iter().zip(d2.iter()) {
            assert_eq!(a.schema_path, b.schema_path);
            assert_eq!(a.instance_path, b.instance_path);
            assert_eq!(a.kind, b.kind);
        }
    }
}

#[test]
fn malformed_type_keyword_is_rejected() {
    let e = compile_err(&obj(vec![("type", Json::Int(5))]));
    assert_eq!(e.kind, CompilationErrorKind::InvalidKeywordValue);
    assert_eq!(e.schema_path, vec!["type".to_string()]);
}

#[test]
fn unknown_type_name_is_rejected() {
    let e = compile_err(&obj(vec![("type", text("float"))]));
    assert_eq!(e.kind, CompilationErrorKind::InvalidKeywordValue);
}

#[test]
fn negative_min_length_is_rejected() {
    let e = compile_err(&obj(vec![("minLength", Json::Int(-1))]));
    assert_eq!(e.kind, CompilationErrorKind::InvalidKeywordValue);
    assert_eq!(e.schema_path, vec!["minLength".to_string()]);
}

#[test]
fn non_object_schema_is_rejected() {
    let e = compile_err(&Json::Int(3));
    assert_eq!(e.kind, CompilationErrorKind::InvalidSchemaKind);
    assert_eq!(e.schema_path.len(), 0);
}

#[test]
fn branch_compilation_failure_aborts_the_combinator() {
    let e = compile_err(&obj(vec![
        ("if", obj(vec![("type", text("number"))])),
        ("then", obj(vec![("minimum", text("zero"))])),
    ]));
    assert_eq!(e.kind, CompilationErrorKind::InvalidKeywordValue);
    assert_eq!(e.schema_path, vec!["then".to_string(), "minimum".to_string()]);
}

#[test]
fn condition_compilation_failure_aborts_the_combinator() {
    let e = compile_err(&obj(vec![
        ("if", Json::Int(9)),
        ("else", obj(vec![])),
    ]));
    assert_eq!(e.kind, CompilationErrorKind::InvalidSchemaKind);
    assert_eq!(e.schema_path, vec!["if".to_string()]);
}

#[test]
fn unresolvable_reference_is_rejected() {
    let e = compile_err(&obj(vec![("$ref", text("#missing"))]));
    assert_eq!(e.kind, CompilationErrorKind::UnresolvableReference);
    assert_eq!(e.schema_path, vec!["$ref".to_string()]);
}

#[test]
fn reference_resolves_through_the_registry() {
    let mut reg = RefRegistry::new();
    reg.register("#num".to_string(), obj(vec![("type", text("number"))]));
    let s = match JSONSchema::compile(&obj(vec![("$ref", text("#num"))]), reg, Draft::Draft7, 16) {
        Ok(s) => s,
        Err(_) => panic!("schema did not compile"),
    };
    assert!(s.is_valid(&Json::Int(1)));
    assert!(!s.is_valid(&text("1")));
}

#[test]
fn cyclic_reference_is_rejected() {
    let mut reg = RefRegistry::new();
    reg.register("#a".to_string(), obj(vec![("$ref", text("#a"))]));
    let e = match JSONSchema::compile(&obj(vec![("$ref", text("#a"))]), reg, Draft::Draft7, 16) {
        Ok(_) => panic!("a cyclic schema compiled"),
        Err(e) => e,
    };
    assert_eq!(e.kind, CompilationErrorKind::DepthExceeded);
}

#[test]
fn mutually_cyclic_references_are_rejected() {
    let mut reg = RefRegistry::new();
    reg.register("#a".to_string(), obj(vec![("$ref", text("#b"))]));
    reg.register("#b".to_string(), obj(vec![("$ref", text("#a"))]));
    let e = match JSONSchema::compile(&obj(vec![("$ref", text("#a"))]), reg, Draft::Draft7, 8) {
        Ok(_) => panic!("a cyclic schema compiled"),
        Err(e) => e,
    };
    assert_eq!(e.kind, CompilationErrorKind::DepthExceeded);
}

#[test]
fn nested_conditionals_compile_and_run() {
    let s = compile(&obj(vec![
        ("if", obj(vec![("type", text("number"))])),
        (
            "then",
            obj(vec![
                ("if", obj(vec![("minimum", Json::Int(10))])),
                ("then", obj(vec![("minimum", Json::Int(100))])),
                ("else", obj(vec![("minimum", Json::Int(0))])),
            ]),
        ),
    ]));
    assert!(s.is_valid(&Json::Int(5)));
    assert!(!s.is_valid(&Json::Int(-5)));
    assert!(!s.is_valid(&Json::Int(50)));
    assert!(s.is_valid(&Json::Int(150)));
    assert!(s.is_valid(&text("not a number")));
}

#[test]
fn node_labels() {
    let it = IfThenValidator { schema: vec![], then_schema: vec![] };
    assert_eq!(it.name().as_str(), "<if-then: [] []>");
    let ie = IfElseValidator { schema: vec![], else_schema: vec![] };
    assert_eq!(ie.name().as_str(), "<if-else: [] []>");
    let ite = IfThenElseValidator { schema: vec![], then_schema: vec![], else_schema: vec![] };
    assert_eq!(ite.name().as_str(), "<if-then-else: [] [] []>");
}

#[test]
fn labels_embed_the_compiled_children() {
    let it = IfThenValidator {
        schema: vec![
            Validator::TypeCheck {
                expected: JsonType::Integer,
                schema_path: vec!["if".to_string(), "type".to_string()],
            },
        ],
        then_schema: vec![
            Validator::Minimum {
                limit: 0,
                schema_path: vec!["then".to_string(), "minimum".to_string()],
            },
            Validator::AlwaysValid,
        ],
    };
    assert_eq!(it.name().as_str(), "<if-then: [<type>] [<minimum> <true>]>");
    let neg = Validator::Negation {
        schema: vec![Validator::IfThen(Box::new(it))],
        schema_path: vec!["not".to_string()],
    };
    assert_eq!(
        neg.name().as_str(),
        "<not: [<if-then: [<type>] [<minimum> <true>]>]>"
    );
}

#[test]
fn direct_node_evaluation_matches_the_table() {
    let fail = Validator::AlwaysInvalid { schema_path: vec![] };
    let it = IfThenValidator { schema: vec![], then_schema: vec![fail] };
    assert!(!it.is_valid(&Json::Null));
    assert_eq!(it.validate(&Json::Null).len(), 1);
    let fail = Validator::AlwaysInvalid { schema_path: vec![] };
    let ie = IfElseValidator { schema: vec![], else_schema: vec![fail] };
    assert!(ie.is_valid(&Json::Null));
    assert_eq!(ie.validate(&Json::Null).len(), 0);
}

#[test]
fn diagnostic_messages_exist() {
    let s = compile(&obj(vec![("minimum", Json::Int(0))]));
    let diags = s.validate(&Json::Int(-1));
    assert_eq!(diags[0].message().as_str(), "the number is below the minimum");
    let e = compile_err(&Json::Null);
    assert_eq!(e.message().as_str(), "a schema fragment must be an object or a boolean");
}

#[test]
fn first_member_wins_on_duplicate_keys() {
    let s = compile(&Json::Obj(vec![
        ("minimum".to_string(), Json::Int(5)),
        ("minimum".to_string(), Json::Int(100)),
    ]));
    assert!(s.is_valid(&Json::Int(5)));
    assert!(!s.is_valid(&Json::Int(4)));
}

#[test]
fn not_keyword_negates() {
    let s = compile(&obj(vec![("not", obj(vec![("type", text("string"))]))]));
    assert!(s.is_valid(&Json::Int(1)));
    assert!(!s.is_valid(&text("x")));
    let diags = s.validate(&text("x"));
    assert_eq!(diags.len(), 1);
    assert_eq!(diags[0].kind, ErrorKind::Negation);
    assert_eq!(diags[0].schema_path, vec!["not".to_string()]);
}

#[test]
fn not_of_empty_schema_rejects_everything() {
    let s = compile(&obj(vec![("not", obj(vec![]))]));
    assert!(!s.is_valid(&Json::Null));
    assert!(!s.is_valid(&Json::Int(0)));
    assert_eq!(s.validate(&Json::Null).len(), 1);
}

#[test]
fn not_of_false_schema_accepts_everything() {
    let s = compile(&obj(vec![("not", Json::Bool(false))]));
    assert!(s.is_valid(&Json::Null));
    assert!(s.is_valid(&text("x")));
    assert_eq!(s.validate(&Json::Null).len(), 0);
}

#[test]
fn negated_fragment_compilation_failure_propagates() {
    let e = compile_err(&obj(vec![("not", obj(vec![("type", Json::Int(1))]))]));
    assert_eq!(e.kind, CompilationErrorKind::InvalidKeywordValue);
    assert_eq!(e.schema_path, vec!["not".to_string(), "type".to_string()]);
}

#[test]
fn cyclic_reference_through_negation_is_rejected() {
    let mut reg = RefRegistry::new();
    reg.register("#n".to_string(), obj(vec![("not", obj(vec![("$ref", text("#n"))]))]));
    let e = match JSONSchema::compile(&obj(vec![("$ref", text("#n"))]), reg, Draft::Draft7, 12) {
        Ok(_) => panic!("a cyclic schema compiled"),
        Err(e) => e,
    };
    assert_eq!(e.kind, CompilationErrorKind::DepthExceeded);
}

#[test]
fn node_label_for_negation() {
    let v = Validator::Negation { schema: vec![], schema_path: vec![] };
    assert_eq!(v.name().as_str(), "<not: []>");
    assert_eq!(Validator::AlwaysValid.name().as_str(), "<true>");
}

#[test]
fn all_of_conjoins_branches() {
    let s = compile(&obj(vec![(
        "allOf",
        Json::Arr(vec![
            obj(vec![("type", text("string"))]),
            obj(vec![("minLength", Json::Int(3))]),
        ]),
    )]));
    assert!(s.is_valid(&text("abc")));
    assert!(!s.is_valid(&text("ab")));
    assert!(!s.is_valid(&Json::Int(1)));
}

#[test]
fn all_of_surfaces_every_failing_branch() {
    let s = compile(&obj(vec![(
        "allOf",
        Json::Arr(vec![
            obj(vec![("minimum", Json::Int(10))]),
            obj(vec![("minimum", Json::Int(100))]),
        ]),
    )]));
    let diags = s.validate(&Json::Int(5));
    assert_eq!(diags.len(), 2);
    assert_eq!(diags[0].kind, ErrorKind::Minimum { limit: 10 });
    assert_eq!(diags[1].kind, ErrorKind::Minimum { limit: 100 });
    assert_eq!(diags[0].schema_path, vec!["allOf".to_string(), "minimum".to_string()]);
    let diags = s.validate(&Json::Int(50));
    assert_eq!(diags.len(), 1);
    assert_eq!(diags[0].kind, ErrorKind::Minimum { limit: 100 });
}

#[test]
fn all_of_branch_compilation_failure_propagates() {
    let e = compile_err(&obj(vec![(
        "allOf",
        Json::Arr(vec![obj(vec![]), Json::Int(7)]),
    )]));
    assert_eq!(e.kind, CompilationErrorKind::InvalidSchemaKind);
    assert_eq!(e.schema_path, vec!["allOf".to_string()]);
}

#[test]
fn all_of_must_hold_an_array() {
    let e = compile_err(&obj(vec![("allOf", Json::Int(1))]));
    assert_eq!(e.kind, CompilationErrorKind::InvalidKeywordValue);
    assert_eq!(e.schema_path, vec!["allOf".to_string()]);
}

#[test]
fn all_of_inside_conditional_branch() {
    let s = compile(&obj(vec![
        ("if", obj(vec![("type", text("string"))])),
        (
            "then",
            obj(vec![(
                "allOf",
                Json::Arr(vec![
                    obj(vec![("minLength", Json::Int(2))]),
                    obj(vec![("not", obj(vec![("minLength", Json::Int(10))]))]),
                ]),
            )]),
        ),
    ]));
    assert!(s.is_valid(&text("abc")));
    assert!(!s.is_valid(&text("a")));
    assert!(!s.is_valid(&text("abcdefghijk")));
    assert!(s.is_valid(&Json::Int(0)));
}

#[test]
fn any_of_accepts_any_matching_branch() {
    let s = compile(&obj(vec![(
        "anyOf",
        Json::Arr(vec![
            obj(vec![("type", text("string"))]),
            obj(vec![("minimum", Json::Int(10))]),
        ]),
    )]));
    assert!(s.is_valid(&text("hello")));
    assert!(s.is_valid(&Json::Int(11)));
    assert!(!s.is_valid(&Json::Int(3)));
}

#[test]
fn any_of_failure_surfaces_every_branch() {
    let s = compile(&obj(vec![(
        "anyOf",
        Json::Arr(vec![
            obj(vec![("type", text("string"))]),
            obj(vec![("minimum", Json::Int(10))]),
        ]),
    )]));
    let diags = s.validate(&Json::Int(3));
    assert_eq!(diags.len(), 3);
    assert_eq!(diags[0].kind, ErrorKind::AnyOfMismatch);
    assert_eq!(diags[0].schema_path, vec!["anyOf".to_string()]);
    assert_eq!(diags[1].kind, ErrorKind::TypeMismatch { expected: JsonType::Str });
    assert_eq!(diags[2].kind, ErrorKind::Minimum { limit: 10 });
}

#[test]
fn one_of_requires_exactly_one_match() {
    let s = compile(&obj(vec![(
        "oneOf",
        Json::Arr(vec![
            obj(vec![("minimum", Json::Int(0))]),
            obj(vec![("minimum", Json::Int(10))]),
        ]),
    )]));
    assert!(s.is_valid(&Json::Int(5)));
    assert!(!s.is_valid(&Json::Int(15)));
    let diags = s.validate(&Json::Int(15));
    assert_eq!(diags.len(), 1);
    assert_eq!(diags[0].kind, ErrorKind::OneOfMismatch);
    assert_eq!(diags[0].schema_path, vec!["oneOf".to_string()]);
    assert!(s.is_valid(&text("a string matches neither branch, so both are vacuous")) == false);
}

#[test]
fn empty_combinator_arrays_are_rejected() {
    for kw in ["allOf", "anyOf", "oneOf"] {
        let e = compile_err(&obj(vec![(kw, Json::Arr(vec![]))]));
        assert_eq!(e.kind, CompilationErrorKind::InvalidKeywordValue);
        assert_eq!(e.schema_path, vec![kw.to_string()]);
    }
}

#[test]
fn combinator_labels() {
    let any = Validator::AnyOf { branches: vec![], schema_path: vec![] };
    assert_eq!(any.name().as_str(), "<anyOf: []>");
    let one = Validator::OneOf { branches: vec![], schema_path: vec![] };
    assert_eq!(one.name().as_str(), "<oneOf: []>");
    let frag = Validator::Fragment { schema: vec![], schema_path: vec![] };
    assert_eq!(frag.name().as_str(), "<fragment: []>");
}
