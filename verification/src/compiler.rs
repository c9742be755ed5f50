//! The recursive compiler: schema fragments to validator collections.
//!
//! [`spec_compile`] is the compiler's mathematical model: a total
//! function from a fragment, the registry contents, the base location
//! and the remaining depth budget to either the models of the compiled
//! nodes or a compilation error.  The executable
//! [`compile_validators`] is proved to return exactly what the model
//! says, which also makes compilation deterministic: equal fragments
//! and equivalent contexts give behaviorally identical trees.
//!
//! Recognized keywords are examined in a fixed order: `$ref` (which,
//! when present, replaces all sibling keywords), then `type`,
//! `minimum`, `minLength`, `allOf`, `anyOf`, `oneOf`, `not`, and `if`
//! with its `then`/`else` counterparts.  Unrecognized keywords
//! contribute nothing.  A boolean fragment compiles to a single
//! always-valid or always-invalid node; any fragment that is neither
//! an object nor a boolean is rejected.

use vstd::prelude::*;
use crate::json::{Json, JsonType, spec_obj_get, obj_get};
use crate::errors::{CompilationError, CompilationErrorKind, CompilationErrorView};
use crate::context::{ResolutionContext, push_segment};
use crate::validator::{
    Validator, ValidatorView, clone_path, lemma_views_concat, lemma_views_push, view_of, views_of,
};

verus! {

/// The `type` keyword's name for a type, or `None` for an unknown name.
/// The words `number` and `integer` both denote the integer type.
pub open spec fn spec_type_from_name(s: Seq<char>) -> Option<JsonType> {
    if s == "null"@ {
        Some(JsonType::Null)
    } else if s == "boolean"@ {
        Some(JsonType::Boolean)
    } else if s == "number"@ {
        Some(JsonType::Integer)
    } else if s == "integer"@ {
        Some(JsonType::Integer)
    } else if s == "string"@ {
        Some(JsonType::Str)
    } else if s == "array"@ {
        Some(JsonType::Array)
    } else if s == "object"@ {
        Some(JsonType::Object)
    } else {
        None
    }
}

/// Executable counterpart of [`spec_type_from_name`].
pub fn type_from_name(s: &String) -> (r: Option<JsonType>)
    ensures
        r == spec_type_from_name(s@),
{
    if *s == String::from_str("null") {
        Some(JsonType::Null)
    } else if *s == String::from_str("boolean") {
        Some(JsonType::Boolean)
    } else if *s == String::from_str("number") {
        Some(JsonType::Integer)
    } else if *s == String::from_str("integer") {
        Some(JsonType::Integer)
    } else if *s == String::from_str("string") {
        Some(JsonType::Str)
    } else if *s == String::from_str("array") {
        Some(JsonType::Array)
    } else if *s == String::from_str("object") {
        Some(JsonType::Object)
    } else {
        None
    }
}

/// The model of a compilation error at `path` with cause `kind`.
pub open spec fn err_view(path: Seq<Seq<char>>, kind: CompilationErrorKind) -> CompilationErrorView {
    CompilationErrorView { schema_path: path, kind: kind }
}

/// What the `type` keyword of an object fragment contributes.
#[verifier::opaque]
pub open spec fn spec_kw_type(fields: Seq<(String, Json)>, path: Seq<Seq<char>>) -> Result<
    Seq<ValidatorView>,
    CompilationErrorView,
> {
    match spec_obj_get(fields, "type"@) {
        Option::None => Ok(Seq::empty()),
        Option::Some(v) => match v {
            Json::Str(name) => match spec_type_from_name(name@) {
                Option::Some(t) => Ok(
                    seq![
                        ValidatorView::TypeCheck { expected: t, schema_path: path.push("type"@) },
                    ],
                ),
                Option::None => Err(
                    err_view(path.push("type"@), CompilationErrorKind::InvalidKeywordValue),
                ),
            },
            _ => Err(err_view(path.push("type"@), CompilationErrorKind::InvalidKeywordValue)),
        },
    }
}

/// What the `minimum` keyword of an object fragment contributes.
#[verifier::opaque]
pub open spec fn spec_kw_minimum(fields: Seq<(String, Json)>, path: Seq<Seq<char>>) -> Result<
    Seq<ValidatorView>,
    CompilationErrorView,
> {
    match spec_obj_get(fields, "minimum"@) {
        Option::None => Ok(Seq::empty()),
        Option::Some(v) => match v {
            Json::Int(n) => Ok(
                seq![ValidatorView::Minimum { limit: n, schema_path: path.push("minimum"@) }],
            ),
            _ => Err(err_view(path.push("minimum"@), CompilationErrorKind::InvalidKeywordValue)),
        },
    }
}

/// What the `minLength` keyword of an object fragment contributes.
#[verifier::opaque]
pub open spec fn spec_kw_min_length(fields: Seq<(String, Json)>, path: Seq<Seq<char>>) -> Result<
    Seq<ValidatorView>,
    CompilationErrorView,
> {
    match spec_obj_get(fields, "minLength"@) {
        Option::None => Ok(Seq::empty()),
        Option::Some(v) => match v {
            Json::Int(n) => if n >= 0 {
                Ok(
                    seq![
                        ValidatorView::MinLength {
                            limit: n as u64,
                            schema_path: path.push("minLength"@),
                        },
                    ],
                )
            } else {
                Err(err_view(path.push("minLength"@), CompilationErrorKind::InvalidKeywordValue))
            },
            _ => Err(err_view(path.push("minLength"@), CompilationErrorKind::InvalidKeywordValue)),
        },
    }
}

/// The compilation of the elements of a combinator's array from
/// position `k` on: one fragment node per element, each compiled from
/// its sub-schema, in array order.  The first element that fails to
/// compile aborts the list.
pub open spec fn spec_compile_list(
    items: Seq<Json>,
    reg: Seq<(String, Json)>,
    path: Seq<Seq<char>>,
    depth: nat,
    k: int,
) -> Result<Seq<ValidatorView>, CompilationErrorView>
    decreases depth, 0int, items.len() - k,
{
    if k < 0 || k >= items.len() {
        Ok(Seq::empty())
    } else if depth == 0 {
        Err(err_view(path, CompilationErrorKind::DepthExceeded))
    } else {
        match spec_compile(items[k], reg, path, (depth - 1) as nat) {
            Err(e) => Err(e),
            Ok(vs) => match spec_compile_list(items, reg, path, depth, k + 1) {
                Err(e) => Err(e),
                Ok(rest) => Ok(
                    seq![ValidatorView::Fragment { schema: vs, schema_path: path }] + rest,
                ),
            },
        }
    }
}

/// What the `allOf` keyword of an object fragment contributes: one
/// conjunction-branch node per element of its array, in array order.
#[verifier::opaque]
pub open spec fn spec_kw_allof(
    fields: Seq<(String, Json)>,
    reg: Seq<(String, Json)>,
    path: Seq<Seq<char>>,
    depth: nat,
) -> Result<Seq<ValidatorView>, CompilationErrorView>
    decreases depth, 1int, 0int,
{
    match spec_obj_get(fields, "allOf"@) {
        Option::None => Ok(Seq::empty()),
        Option::Some(v) => match v {
            Json::Arr(items) => if items@.len() == 0 {
                Err(err_view(path.push("allOf"@), CompilationErrorKind::InvalidKeywordValue))
            } else if depth == 0 {
                Err(err_view(path.push("allOf"@), CompilationErrorKind::DepthExceeded))
            } else {
                spec_compile_list(items@, reg, path.push("allOf"@), depth, 0)
            },
            _ => Err(err_view(path.push("allOf"@), CompilationErrorKind::InvalidKeywordValue)),
        },
    }
}

/// What the `anyOf` keyword of an object fragment contributes: one
/// disjunction node over one fragment node per element of its array.
#[verifier::opaque]
pub open spec fn spec_kw_anyof(
    fields: Seq<(String, Json)>,
    reg: Seq<(String, Json)>,
    path: Seq<Seq<char>>,
    depth: nat,
) -> Result<Seq<ValidatorView>, CompilationErrorView>
    decreases depth, 1int, 0int,
{
    match spec_obj_get(fields, "anyOf"@) {
        Option::None => Ok(Seq::empty()),
        Option::Some(v) => match v {
            Json::Arr(items) => if items@.len() == 0 {
                Err(err_view(path.push("anyOf"@), CompilationErrorKind::InvalidKeywordValue))
            } else if depth == 0 {
                Err(err_view(path.push("anyOf"@), CompilationErrorKind::DepthExceeded))
            } else {
                match spec_compile_list(items@, reg, path.push("anyOf"@), depth, 0) {
                    Err(e) => Err(e),
                    Ok(branches) => Ok(
                        seq![
                            ValidatorView::AnyOf {
                                branches: branches,
                                schema_path: path.push("anyOf"@),
                            },
                        ],
                    ),
                }
            },
            _ => Err(err_view(path.push("anyOf"@), CompilationErrorKind::InvalidKeywordValue)),
        },
    }
}

/// What the `oneOf` keyword of an object fragment contributes: one
/// exactly-one node over one fragment node per element of its array.
#[verifier::opaque]
pub open spec fn spec_kw_oneof(
    fields: Seq<(String, Json)>,
    reg: Seq<(String, Json)>,
    path: Seq<Seq<char>>,
    depth: nat,
) -> Result<Seq<ValidatorView>, CompilationErrorView>
    decreases depth, 1int, 0int,
{
    match spec_obj_get(fields, "oneOf"@) {
        Option::None => Ok(Seq::empty()),
        Option::Some(v) => match v {
            Json::Arr(items) => if items@.len() == 0 {
                Err(err_view(path.push("oneOf"@), CompilationErrorKind::InvalidKeywordValue))
            } else if depth == 0 {
                Err(err_view(path.push("oneOf"@), CompilationErrorKind::DepthExceeded))
            } else {
                match spec_compile_list(items@, reg, path.push("oneOf"@), depth, 0) {
                    Err(e) => Err(e),
                    Ok(branches) => Ok(
                        seq![
                            ValidatorView::OneOf {
                                branches: branches,
                                schema_path: path.push("oneOf"@),
                            },
                        ],
                    ),
                }
            },
            _ => Err(err_view(path.push("oneOf"@), CompilationErrorKind::InvalidKeywordValue)),
        },
    }
}

/// What the `not` keyword of an object fragment contributes: a
/// negation node compiled from the negated fragment.
#[verifier::opaque]
pub open spec fn spec_kw_not(
    fields: Seq<(String, Json)>,
    reg: Seq<(String, Json)>,
    path: Seq<Seq<char>>,
    depth: nat,
) -> Result<Seq<ValidatorView>, CompilationErrorView>
    decreases depth, 1int, 0int,
{
    match spec_obj_get(fields, "not"@) {
        Option::None => Ok(Seq::empty()),
        Option::Some(frag) => if depth == 0 {
            Err(err_view(path.push("not"@), CompilationErrorKind::DepthExceeded))
        } else {
            match spec_compile(frag, reg, path.push("not"@), (depth - 1) as nat) {
                Err(e) => Err(e),
                Ok(vs) => Ok(
                    seq![
                        ValidatorView::Negation { schema: vs, schema_path: path.push("not"@) },
                    ],
                ),
            }
        },
    }
}

/// What the `if` keyword of an object fragment contributes, together
/// with its `then`/`else` counterparts.  Absent `if`, or `if` without
/// either counterpart, contributes nothing; otherwise one of the three
/// specialized conditional nodes, compiled from the condition and the
/// present branches.
#[verifier::opaque]
pub open spec fn spec_kw_conditional(
    fields: Seq<(String, Json)>,
    reg: Seq<(String, Json)>,
    path: Seq<Seq<char>>,
    depth: nat,
) -> Result<Seq<ValidatorView>, CompilationErrorView>
    decreases depth, 1int, 0int,
{
    match spec_obj_get(fields, "if"@) {
        Option::None => Ok(Seq::empty()),
        Option::Some(cond_frag) => {
            let then_frag = spec_obj_get(fields, "then"@);
            let else_frag = spec_obj_get(fields, "else"@);
            if then_frag is None && else_frag is None {
                Ok(Seq::empty())
            } else if depth == 0 {
                Err(err_view(path.push("if"@), CompilationErrorKind::DepthExceeded))
            } else {
                match spec_compile(cond_frag, reg, path.push("if"@), (depth - 1) as nat) {
                    Err(e) => Err(e),
                    Ok(cvs) => match (then_frag, else_frag) {
                        (Option::Some(tf), Option::Some(ef)) => match spec_compile(
                            tf,
                            reg,
                            path.push("then"@),
                            (depth - 1) as nat,
                        ) {
                            Err(e) => Err(e),
                            Ok(tvs) => match spec_compile(
                                ef,
                                reg,
                                path.push("else"@),
                                (depth - 1) as nat,
                            ) {
                                Err(e) => Err(e),
                                Ok(evs) => Ok(
                                    seq![
                                        ValidatorView::IfThenElse {
                                            schema: cvs,
                                            then_schema: tvs,
                                            else_schema: evs,
                                        },
                                    ],
                                ),
                            },
                        },
                        (Option::Some(tf), Option::None) => match spec_compile(
                            tf,
                            reg,
                            path.push("then"@),
                            (depth - 1) as nat,
                        ) {
                            Err(e) => Err(e),
                            Ok(tvs) => Ok(
                                seq![ValidatorView::IfThen { schema: cvs, then_schema: tvs }],
                            ),
                        },
                        (Option::None, Option::Some(ef)) => match spec_compile(
                            ef,
                            reg,
                            path.push("else"@),
                            (depth - 1) as nat,
                        ) {
                            Err(e) => Err(e),
                            Ok(evs) => Ok(
                                seq![ValidatorView::IfElse { schema: cvs, else_schema: evs }],
                            ),
                        },
                        (Option::None, Option::None) => Ok(Seq::empty()),
                    },
                }
            }
        },
    }
}

/// The contributions of the value-testing keywords of an object
/// fragment, chained in keyword order: `type`, `minimum`, `minLength`,
/// `allOf`.
pub open spec fn spec_object_parts_a(
    fields: Seq<(String, Json)>,
    reg: Seq<(String, Json)>,
    path: Seq<Seq<char>>,
    depth: nat,
) -> Result<Seq<ValidatorView>, CompilationErrorView>
    decreases depth, 2int, 0int,
{
    let tpart = spec_kw_type(fields, path);
    let mpart = spec_kw_minimum(fields, path);
    let lpart = spec_kw_min_length(fields, path);
    let apart = spec_kw_allof(fields, reg, path, depth);
    match tpart {
        Err(e) => Err(e),
        Ok(tvs) => match mpart {
            Err(e) => Err(e),
            Ok(mvs) => match lpart {
                Err(e) => Err(e),
                Ok(lvs) => match apart {
                    Err(e) => Err(e),
                    Ok(avs) => Ok(tvs + mvs + lvs + avs),
                },
            },
        },
    }
}

/// The contributions of the remaining combinator keywords of an object
/// fragment, chained in keyword order: `anyOf`, `oneOf`, `not`, `if`.
pub open spec fn spec_object_parts_b(
    fields: Seq<(String, Json)>,
    reg: Seq<(String, Json)>,
    path: Seq<Seq<char>>,
    depth: nat,
) -> Result<Seq<ValidatorView>, CompilationErrorView>
    decreases depth, 2int, 0int,
{
    let anypart = spec_kw_anyof(fields, reg, path, depth);
    let onepart = spec_kw_oneof(fields, reg, path, depth);
    let npart = spec_kw_not(fields, reg, path, depth);
    let cpart = spec_kw_conditional(fields, reg, path, depth);
    match anypart {
        Err(e) => Err(e),
        Ok(anyvs) => match onepart {
            Err(e) => Err(e),
            Ok(onevs) => match npart {
                Err(e) => Err(e),
                Ok(nvs) => match cpart {
                    Err(e) => Err(e),
                    Ok(cvs) => Ok(anyvs + onevs + nvs + cvs),
                },
            },
        },
    }
}

/// The contributions of all recognized keywords of an object fragment
/// without a reference: the first failing keyword's error, or the
/// concatenation of every keyword's nodes, in keyword order.
pub open spec fn spec_object_parts(
    fields: Seq<(String, Json)>,
    reg: Seq<(String, Json)>,
    path: Seq<Seq<char>>,
    depth: nat,
) -> Result<Seq<ValidatorView>, CompilationErrorView>
    decreases depth, 3int, 0int,
{
    match spec_object_parts_a(fields, reg, path, depth) {
        Err(e) => Err(e),
        Ok(avs) => match spec_object_parts_b(fields, reg, path, depth) {
            Err(e) => Err(e),
            Ok(bvs) => Ok(avs + bvs),
        },
    }
}

/// What a fragment's `$ref` designates: the registry entry for its
/// reference, where the fragment is an object whose `$ref` value is a
/// string the registry resolves; `None` otherwise.
pub open spec fn spec_ref_target(f: Json, reg: Seq<(String, Json)>) -> Option<Json> {
    match f {
        Json::Obj(fields) => match spec_obj_get(fields@, "$ref"@) {
            Option::Some(v) => match v {
                Json::Str(target) => spec_obj_get(reg, target@),
                _ => Option::None,
            },
            Option::None => Option::None,
        },
        _ => Option::None,
    }
}

/// The compiler's model: what compiling `schema` against registry
/// contents `reg`, at base location `path`, with `depth` budget levels
/// left, must produce.
pub open spec fn spec_compile(
    schema: Json,
    reg: Seq<(String, Json)>,
    path: Seq<Seq<char>>,
    depth: nat,
) -> Result<Seq<ValidatorView>, CompilationErrorView>
    decreases depth, 4int, 0int,
{
    match schema {
        Json::Bool(b) => if b {
            Ok(seq![ValidatorView::AlwaysValid])
        } else {
            Ok(seq![ValidatorView::AlwaysInvalid { schema_path: path }])
        },
        Json::Obj(fields) => match spec_obj_get(fields@, "$ref"@) {
            Option::Some(refv) => match refv {
                Json::Str(target) => match spec_obj_get(reg, target@) {
                    Option::Some(frag) => if depth == 0 {
                        Err(err_view(path.push("$ref"@), CompilationErrorKind::DepthExceeded))
                    } else {
                        spec_compile(frag, reg, path.push("$ref"@), (depth - 1) as nat)
                    },
                    Option::None => Err(
                        err_view(path.push("$ref"@), CompilationErrorKind::UnresolvableReference),
                    ),
                },
                _ => Err(err_view(path.push("$ref"@), CompilationErrorKind::InvalidKeywordValue)),
            },
            Option::None => spec_object_parts(fields@, reg, path, depth),
        },
        _ => Err(err_view(path, CompilationErrorKind::InvalidSchemaKind)),
    }
}

/// A compilation error whose location is the context's base location
/// extended by `segment`.
pub fn error_at(path: &Vec<String>, segment: &str, kind: CompilationErrorKind) -> (r:
    CompilationError)
    ensures
        r@ == err_view(path.deep_view().push(segment@), kind),
{
    let mut p = clone_path(path);
    push_segment(&mut p, segment);
    CompilationError { schema_path: p, kind }
}

/// A compilation error located at the context's base location itself.
pub fn error_here(path: &Vec<String>, kind: CompilationErrorKind) -> (r: CompilationError)
    ensures
        r@ == err_view(path.deep_view(), kind),
{
    CompilationError { schema_path: clone_path(path), kind }
}

/// The `type` keyword's compiler: absent, compiled, or malformed.
fn compile_type(fields: &Vec<(String, Json)>, context: &ResolutionContext) -> (r: Option<
    Result<Validator, CompilationError>,
>)
    ensures
        ({
            let part = spec_kw_type(fields@, context.schema_path.deep_view());
            match r {
                None => part == Ok::<Seq<ValidatorView>, CompilationErrorView>(
                    Seq::<ValidatorView>::empty(),
                ),
                Some(res) => match res {
                    Ok(v) => part == Ok::<Seq<ValidatorView>, CompilationErrorView>(
                        seq![view_of(v)],
                    ),
                    Err(e) => part matches Err(ev) && ev == e@,
                },
            }
        }),
{
    proof {
        reveal(spec_kw_type);
    }
    match obj_get(fields, "type") {
        None => None,
        Some(tv) => match tv {
            Json::Str(name) => match type_from_name(name) {
                Some(t) => {
                    let mut p = clone_path(&context.schema_path);
                    push_segment(&mut p, "type");
                    Some(Ok(Validator::TypeCheck { expected: t, schema_path: p }))
                },
                None => Some(
                    Err(
                        error_at(
                            &context.schema_path,
                            "type",
                            CompilationErrorKind::InvalidKeywordValue,
                        ),
                    ),
                ),
            },
            _ => Some(
                Err(
                    error_at(
                        &context.schema_path,
                        "type",
                        CompilationErrorKind::InvalidKeywordValue,
                    ),
                ),
            ),
        },
    }
}

/// The `minimum` keyword's compiler: absent, compiled, or malformed.
fn compile_minimum(fields: &Vec<(String, Json)>, context: &ResolutionContext) -> (r: Option<
    Result<Validator, CompilationError>,
>)
    ensures
        ({
            let part = spec_kw_minimum(fields@, context.schema_path.deep_view());
            match r {
                None => part == Ok::<Seq<ValidatorView>, CompilationErrorView>(
                    Seq::<ValidatorView>::empty(),
                ),
                Some(res) => match res {
                    Ok(v) => part == Ok::<Seq<ValidatorView>, CompilationErrorView>(
                        seq![view_of(v)],
                    ),
                    Err(e) => part matches Err(ev) && ev == e@,
                },
            }
        }),
{
    proof {
        reveal(spec_kw_minimum);
    }
    match obj_get(fields, "minimum") {
        None => None,
        Some(mv) => match mv {
            Json::Int(n) => {
                let mut p = clone_path(&context.schema_path);
                push_segment(&mut p, "minimum");
                Some(Ok(Validator::Minimum { limit: *n, schema_path: p }))
            },
            _ => Some(
                Err(
                    error_at(
                        &context.schema_path,
                        "minimum",
                        CompilationErrorKind::InvalidKeywordValue,
                    ),
                ),
            ),
        },
    }
}

/// The `minLength` keyword's compiler: absent, compiled, or malformed.
/// A negative limit is rejected.
fn compile_min_length(fields: &Vec<(String, Json)>, context: &ResolutionContext) -> (r: Option<
    Result<Validator, CompilationError>,
>)
    ensures
        ({
            let part = spec_kw_min_length(fields@, context.schema_path.deep_view());
            match r {
                None => part == Ok::<Seq<ValidatorView>, CompilationErrorView>(
                    Seq::<ValidatorView>::empty(),
                ),
                Some(res) => match res {
                    Ok(v) => part == Ok::<Seq<ValidatorView>, CompilationErrorView>(
                        seq![view_of(v)],
                    ),
                    Err(e) => part matches Err(ev) && ev == e@,
                },
            }
        }),
{
    proof {
        reveal(spec_kw_min_length);
    }
    match obj_get(fields, "minLength") {
        None => None,
        Some(lv) => match lv {
            Json::Int(n) => {
                if *n >= 0 {
                    let mut p = clone_path(&context.schema_path);
                    push_segment(&mut p, "minLength");
                    Some(Ok(Validator::MinLength { limit: *n as u64, schema_path: p }))
                } else {
                    Some(
                        Err(
                            error_at(
                                &context.schema_path,
                                "minLength",
                                CompilationErrorKind::InvalidKeywordValue,
                            ),
                        ),
                    )
                }
            },
            _ => Some(
                Err(
                    error_at(
                        &context.schema_path,
                        "minLength",
                        CompilationErrorKind::InvalidKeywordValue,
                    ),
                ),
            ),
        },
    }
}

/// Compiles each element of a combinator's array into one fragment
/// node, in array order, under the base location extended by `segment`.
/// The first element that fails to compile aborts the list.
#[verifier::rlimit(60)]
fn compile_branch_list(items: &Vec<Json>, segment: &str, context: &ResolutionContext) -> (r:
    Result<Vec<Validator>, CompilationError>)
    requires
        context.depth > 0,
    ensures
        ({
            let outcome = spec_compile_list(
                items@,
                context.registry.entries@,
                context.schema_path.deep_view().push(segment@),
                context.depth as nat,
                0,
            );
            match r {
                Ok(vs) => outcome == Ok::<Seq<ValidatorView>, CompilationErrorView>(views_of(vs@)),
                Err(e) => outcome matches Err(ev) && ev == e@,
            }
        }),
    decreases context.depth, 0int,
{
    let ghost reg = context.registry.entries@;
    let ghost depth = context.depth as nat;
    let sub = context.descend(segment);
    let ghost path_b = context.schema_path.deep_view().push(segment@);
    let ghost full = spec_compile_list(items@, reg, path_b, depth, 0);
    let mut branches: Vec<Validator> = Vec::new();
    proof {
        assert(views_of(branches@) =~= Seq::<ValidatorView>::empty());
        if let Ok(rest) = full {
            assert(views_of(branches@) + rest =~= rest);
        }
    }
    let mut k: usize = 0;
    while k < items.len()
        invariant
            0 <= k <= items@.len(),
            context.depth > 0,
            sub.registry == context.registry,
            sub.depth == context.depth - 1,
            sub.schema_path.deep_view() == path_b,
            reg == context.registry.entries@,
            depth == context.depth as nat,
            path_b == context.schema_path.deep_view().push(segment@),
            full == spec_compile_list(items@, reg, path_b, depth, 0),
            full == (match spec_compile_list(items@, reg, path_b, depth, k as int) {
                Err(e) => Err::<Seq<ValidatorView>, CompilationErrorView>(e),
                Ok(rest) => Ok::<Seq<ValidatorView>, CompilationErrorView>(
                    views_of(branches@) + rest,
                ),
            }),
        decreases items@.len() - k,
    {
        match compile_validators(&items[k], &sub) {
            Err(e) => {
                proof {
                    assert(spec_compile_list(items@, reg, path_b, depth, k as int)
                        == Err::<Seq<ValidatorView>, CompilationErrorView>(e@));
                }
                return Err(e);
            },
            Ok(vs) => {
                let mut p = clone_path(&context.schema_path);
                push_segment(&mut p, segment);
                let node = Validator::Fragment { schema: vs, schema_path: p };
                let ghost before = branches@;
                branches.push(node);
                proof {
                    lemma_views_push(before, node);
                    if let Ok(rest2) = spec_compile_list(items@, reg, path_b, depth, k as int
                        + 1) {
                        assert(views_of(before) + (seq![view_of(node)] + rest2) =~= views_of(
                            before,
                        ).push(view_of(node)) + rest2);
                    }
                }
            },
        }
        k = k + 1;
    }
    proof {
        if let Ok(rest) = spec_compile_list(items@, reg, path_b, depth, k as int) {
            assert(views_of(branches@) + rest =~= views_of(branches@));
        }
    }
    Ok(branches)
}

/// The `allOf` keyword's compiler: absent, compiled into one fragment
/// node per array element, or failed.  An empty array is rejected.
fn compile_allof(fields: &Vec<(String, Json)>, context: &ResolutionContext) -> (r: Option<
    Result<Vec<Validator>, CompilationError>,
>)
    ensures
        ({
            let part = spec_kw_allof(
                fields@,
                context.registry.entries@,
                context.schema_path.deep_view(),
                context.depth as nat,
            );
            match r {
                None => part == Ok::<Seq<ValidatorView>, CompilationErrorView>(
                    Seq::<ValidatorView>::empty(),
                ),
                Some(res) => match res {
                    Ok(vs) => part == Ok::<Seq<ValidatorView>, CompilationErrorView>(
                        views_of(vs@),
                    ),
                    Err(e) => part matches Err(ev) && ev == e@,
                },
            }
        }),
    decreases context.depth, 1int,
{
    proof {
        reveal(spec_kw_allof);
    }
    match obj_get(fields, "allOf") {
        None => None,
        Some(av) => match av {
            Json::Arr(items) => {
                if items.len() == 0 {
                    Some(
                        Err(
                            error_at(
                                &context.schema_path,
                                "allOf",
                                CompilationErrorKind::InvalidKeywordValue,
                            ),
                        ),
                    )
                } else if context.depth == 0 {
                    Some(
                        Err(
                            error_at(
                                &context.schema_path,
                                "allOf",
                                CompilationErrorKind::DepthExceeded,
                            ),
                        ),
                    )
                } else {
                    match compile_branch_list(items, "allOf", context) {
                        Err(e) => Some(Err(e)),
                        Ok(vs) => Some(Ok(vs)),
                    }
                }
            },
            _ => Some(
                Err(
                    error_at(
                        &context.schema_path,
                        "allOf",
                        CompilationErrorKind::InvalidKeywordValue,
                    ),
                ),
            ),
        },
    }
}

/// The `anyOf` keyword's compiler: absent, compiled into one
/// disjunction node, or failed.  An empty array is rejected.
fn compile_anyof(fields: &Vec<(String, Json)>, context: &ResolutionContext) -> (r: Option<
    Result<Validator, CompilationError>,
>)
    ensures
        ({
            let part = spec_kw_anyof(
                fields@,
                context.registry.entries@,
                context.schema_path.deep_view(),
                context.depth as nat,
            );
            match r {
                None => part == Ok::<Seq<ValidatorView>, CompilationErrorView>(
                    Seq::<ValidatorView>::empty(),
                ),
                Some(res) => match res {
                    Ok(v) => part == Ok::<Seq<ValidatorView>, CompilationErrorView>(
                        seq![view_of(v)],
                    ),
                    Err(e) => part matches Err(ev) && ev == e@,
                },
            }
        }),
    decreases context.depth, 1int,
{
    proof {
        reveal(spec_kw_anyof);
    }
    match obj_get(fields, "anyOf") {
        None => None,
        Some(av) => match av {
            Json::Arr(items) => {
                if items.len() == 0 {
                    Some(
                        Err(
                            error_at(
                                &context.schema_path,
                                "anyOf",
                                CompilationErrorKind::InvalidKeywordValue,
                            ),
                        ),
                    )
                } else if context.depth == 0 {
                    Some(
                        Err(
                            error_at(
                                &context.schema_path,
                                "anyOf",
                                CompilationErrorKind::DepthExceeded,
                            ),
                        ),
                    )
                } else {
                    match compile_branch_list(items, "anyOf", context) {
                        Err(e) => Some(Err(e)),
                        Ok(vs) => {
                            let mut p = clone_path(&context.schema_path);
                            push_segment(&mut p, "anyOf");
                            Some(Ok(Validator::AnyOf { branches: vs, schema_path: p }))
                        },
                    }
                }
            },
            _ => Some(
                Err(
                    error_at(
                        &context.schema_path,
                        "anyOf",
                        CompilationErrorKind::InvalidKeywordValue,
                    ),
                ),
            ),
        },
    }
}

/// The `oneOf` keyword's compiler: absent, compiled into one
/// exactly-one node, or failed.  An empty array is rejected.
fn compile_oneof(fields: &Vec<(String, Json)>, context: &ResolutionContext) -> (r: Option<
    Result<Validator, CompilationError>,
>)
    ensures
        ({
            let part = spec_kw_oneof(
                fields@,
                context.registry.entries@,
                context.schema_path.deep_view(),
                context.depth as nat,
            );
            match r {
                None => part == Ok::<Seq<ValidatorView>, CompilationErrorView>(
                    Seq::<ValidatorView>::empty(),
                ),
                Some(res) => match res {
                    Ok(v) => part == Ok::<Seq<ValidatorView>, CompilationErrorView>(
                        seq![view_of(v)],
                    ),
                    Err(e) => part matches Err(ev) && ev == e@,
                },
            }
        }),
    decreases context.depth, 1int,
{
    proof {
        reveal(spec_kw_oneof);
    }
    match obj_get(fields, "oneOf") {
        None => None,
        Some(av) => match av {
            Json::Arr(items) => {
                if items.len() == 0 {
                    Some(
                        Err(
                            error_at(
                                &context.schema_path,
                                "oneOf",
                                CompilationErrorKind::InvalidKeywordValue,
                            ),
                        ),
                    )
                } else if context.depth == 0 {
                    Some(
                        Err(
                            error_at(
                                &context.schema_path,
                                "oneOf",
                                CompilationErrorKind::DepthExceeded,
                            ),
                        ),
                    )
                } else {
                    match compile_branch_list(items, "oneOf", context) {
                        Err(e) => Some(Err(e)),
                        Ok(vs) => {
                            let mut p = clone_path(&context.schema_path);
                            push_segment(&mut p, "oneOf");
                            Some(Ok(Validator::OneOf { branches: vs, schema_path: p }))
                        },
                    }
                }
            },
            _ => Some(
                Err(
                    error_at(
                        &context.schema_path,
                        "oneOf",
                        CompilationErrorKind::InvalidKeywordValue,
                    ),
                ),
            ),
        },
    }
}

/// The `not` keyword's compiler: absent, compiled, or failed.  The
/// negated fragment is compiled through the recursive compiler; its
/// failure propagates unchanged.
fn compile_not(fields: &Vec<(String, Json)>, context: &ResolutionContext) -> (r: Option<
    Result<Validator, CompilationError>,
>)
    ensures
        ({
            let part = spec_kw_not(
                fields@,
                context.registry.entries@,
                context.schema_path.deep_view(),
                context.depth as nat,
            );
            match r {
                None => part == Ok::<Seq<ValidatorView>, CompilationErrorView>(
                    Seq::<ValidatorView>::empty(),
                ),
                Some(res) => match res {
                    Ok(v) => part == Ok::<Seq<ValidatorView>, CompilationErrorView>(
                        seq![view_of(v)],
                    ),
                    Err(e) => part matches Err(ev) && ev == e@,
                },
            }
        }),
    decreases context.depth, 1int,
{
    proof {
        reveal(spec_kw_not);
    }
    match obj_get(fields, "not") {
        None => None,
        Some(frag) => {
            if context.depth == 0 {
                Some(
                    Err(
                        error_at(&context.schema_path, "not", CompilationErrorKind::DepthExceeded),
                    ),
                )
            } else {
                let sub = context.descend("not");
                match compile_validators(frag, &sub) {
                    Err(e) => Some(Err(e)),
                    Ok(vs) => {
                        let mut p = clone_path(&context.schema_path);
                        push_segment(&mut p, "not");
                        Some(Ok(Validator::Negation { schema: vs, schema_path: p }))
                    },
                }
            }
        },
    }
}

/// Compiles the value-testing keywords of an object fragment, in
/// keyword order.  Returns exactly what [`spec_object_parts_a`] says.
#[verifier::rlimit(100)]
#[verifier::spinoff_prover]
fn compile_keywords_a(fields: &Vec<(String, Json)>, context: &ResolutionContext) -> (r: Result<
    Vec<Validator>,
    CompilationError,
>)
    ensures
        match r {
            Ok(vs) => spec_object_parts_a(
                fields@,
                context.registry.entries@,
                context.schema_path.deep_view(),
                context.depth as nat,
            ) == Ok::<Seq<ValidatorView>, CompilationErrorView>(views_of(vs@)),
            Err(e) => spec_object_parts_a(
                fields@,
                context.registry.entries@,
                context.schema_path.deep_view(),
                context.depth as nat,
            ) == Err::<Seq<ValidatorView>, CompilationErrorView>(e@),
        },
    decreases context.depth, 2int,
{
    let ghost reg = context.registry.entries@;
    let ghost path = context.schema_path.deep_view();
    let ghost depth = context.depth as nat;
    let ghost tpart = spec_kw_type(fields@, path);
    let ghost mpart = spec_kw_minimum(fields@, path);
    let ghost lpart = spec_kw_min_length(fields@, path);
    let ghost apart = spec_kw_allof(fields@, reg, path, depth);
    let mut out: Vec<Validator> = Vec::new();
    match compile_type(fields, context) {
        Some(res) => match res {
            Ok(v) => {
                let ghost before = out@;
                out.push(v);
                proof {
                    lemma_views_push(before, v);
                }
            },
            Err(e) => {
                return Err(e);
            },
        },
        None => {},
    }
    proof {
        assert(views_of(out@) =~= tpart->Ok_0);
    }
    match compile_minimum(fields, context) {
        Some(res) => match res {
            Ok(v) => {
                let ghost before = out@;
                out.push(v);
                proof {
                    lemma_views_push(before, v);
                }
            },
            Err(e) => {
                return Err(e);
            },
        },
        None => {},
    }
    proof {
        assert(views_of(out@) =~= tpart->Ok_0 + mpart->Ok_0);
    }
    match compile_min_length(fields, context) {
        Some(res) => match res {
            Ok(v) => {
                let ghost before = out@;
                out.push(v);
                proof {
                    lemma_views_push(before, v);
                }
            },
            Err(e) => {
                return Err(e);
            },
        },
        None => {},
    }
    proof {
        assert(views_of(out@) =~= tpart->Ok_0 + mpart->Ok_0 + lpart->Ok_0);
    }
    match compile_allof(fields, context) {
        Some(res) => match res {
            Ok(mut vs) => {
                let ghost before = out@;
                let ghost added = vs@;
                out.append(&mut vs);
                proof {
                    lemma_views_concat(before, added);
                    assert(out@ =~= before + added);
                }
            },
            Err(e) => {
                return Err(e);
            },
        },
        None => {},
    }
    proof {
        assert(views_of(out@) =~= tpart->Ok_0 + mpart->Ok_0 + lpart->Ok_0 + apart->Ok_0);
    }
    Ok(out)
}

/// A fragment without an `if` keyword gets no conditional node.
proof fn lemma_no_if_no_conditional(
    fields: Seq<(String, Json)>,
    reg: Seq<(String, Json)>,
    path: Seq<Seq<char>>,
    depth: nat,
)
    requires
        spec_obj_get(fields, "if"@) is None,
    ensures
        spec_kw_conditional(fields, reg, path, depth) == Ok::<
            Seq<ValidatorView>,
            CompilationErrorView,
        >(Seq::<ValidatorView>::empty()),
{
    reveal(spec_kw_conditional);
}

/// Compiles the combinator keywords of an object fragment, in keyword
/// order.  Returns exactly what [`spec_object_parts_b`] says.
#[verifier::rlimit(100)]
#[verifier::spinoff_prover]
fn compile_keywords_b(fields: &Vec<(String, Json)>, context: &ResolutionContext) -> (r: Result<
    Vec<Validator>,
    CompilationError,
>)
    ensures
        match r {
            Ok(vs) => spec_object_parts_b(
                fields@,
                context.registry.entries@,
                context.schema_path.deep_view(),
                context.depth as nat,
            ) == Ok::<Seq<ValidatorView>, CompilationErrorView>(views_of(vs@)),
            Err(e) => spec_object_parts_b(
                fields@,
                context.registry.entries@,
                context.schema_path.deep_view(),
                context.depth as nat,
            ) == Err::<Seq<ValidatorView>, CompilationErrorView>(e@),
        },
    decreases context.depth, 2int,
{
    let ghost reg = context.registry.entries@;
    let ghost path = context.schema_path.deep_view();
    let ghost depth = context.depth as nat;
    let ghost anypart = spec_kw_anyof(fields@, reg, path, depth);
    let ghost onepart = spec_kw_oneof(fields@, reg, path, depth);
    let ghost npart = spec_kw_not(fields@, reg, path, depth);
    let ghost cpart = spec_kw_conditional(fields@, reg, path, depth);
    let mut out: Vec<Validator> = Vec::new();
    match compile_anyof(fields, context) {
        Some(res) => match res {
            Ok(v) => {
                let ghost before = out@;
                out.push(v);
                proof {
                    lemma_views_push(before, v);
                }
            },
            Err(e) => {
                return Err(e);
            },
        },
        None => {},
    }
    proof {
        assert(views_of(out@) =~= anypart->Ok_0);
    }
    match compile_oneof(fields, context) {
        Some(res) => match res {
            Ok(v) => {
                let ghost before = out@;
                out.push(v);
                proof {
                    lemma_views_push(before, v);
                }
            },
            Err(e) => {
                return Err(e);
            },
        },
        None => {},
    }
    proof {
        assert(views_of(out@) =~= anypart->Ok_0 + onepart->Ok_0);
    }
    match compile_not(fields, context) {
        Some(res) => match res {
            Ok(v) => {
                let ghost before = out@;
                out.push(v);
                proof {
                    lemma_views_push(before, v);
                }
            },
            Err(e) => {
                return Err(e);
            },
        },
        None => {},
    }
    proof {
        assert(views_of(out@) =~= anypart->Ok_0 + onepart->Ok_0 + npart->Ok_0);
    }
    if let Some(ifv) = obj_get(fields, "if") {
        match crate::conditional::compile(fields, ifv, context) {
            Some(res) => match res {
                Ok(node) => {
                    let ghost before = out@;
                    out.push(node);
                    proof {
                        lemma_views_push(before, node);
                    }
                },
                Err(e) => {
                    return Err(e);
                },
            },
            None => {},
        }
    } else {
        proof {
            lemma_no_if_no_conditional(fields@, reg, path, depth);
        }
    }
    proof {
        assert(views_of(out@) =~= anypart->Ok_0 + onepart->Ok_0 + npart->Ok_0 + cpart->Ok_0);
    }
    Ok(out)
}

/// Compiles the recognized keywords of an object fragment without a
/// reference, in keyword order.  Returns exactly what
/// [`spec_object_parts`] says.
fn compile_keywords(fields: &Vec<(String, Json)>, context: &ResolutionContext) -> (r: Result<
    Vec<Validator>,
    CompilationError,
>)
    ensures
        match r {
            Ok(vs) => spec_object_parts(
                fields@,
                context.registry.entries@,
                context.schema_path.deep_view(),
                context.depth as nat,
            ) == Ok::<Seq<ValidatorView>, CompilationErrorView>(views_of(vs@)),
            Err(e) => spec_object_parts(
                fields@,
                context.registry.entries@,
                context.schema_path.deep_view(),
                context.depth as nat,
            ) == Err::<Seq<ValidatorView>, CompilationErrorView>(e@),
        },
    decreases context.depth, 3int,
{
    match compile_keywords_a(fields, context) {
        Err(e) => Err(e),
        Ok(mut out) => match compile_keywords_b(fields, context) {
            Err(e) => Err(e),
            Ok(mut more) => {
                let ghost before = out@;
                let ghost added = more@;
                out.append(&mut more);
                proof {
                    lemma_views_concat(before, added);
                    assert(out@ =~= before + added);
                }
                Ok(out)
            },
        },
    }
}

/// Compiles one schema fragment into its ordered validator collection.
/// Returns exactly what the compiler's model [`spec_compile`] says for
/// this fragment, registry, base location and depth budget; in
/// particular, compilation is total, deterministic, and fails fast on
/// the first malformed keyword, unresolvable reference, or exhausted
/// depth budget.
pub fn compile_validators(schema: &Json, context: &ResolutionContext) -> (r: Result<
    Vec<Validator>,
    CompilationError,
>)
    ensures
        match r {
            Ok(vs) => spec_compile(
                *schema,
                context.registry.entries@,
                context.schema_path.deep_view(),
                context.depth as nat,
            ) == Ok::<Seq<ValidatorView>, CompilationErrorView>(views_of(vs@)),
            Err(e) => spec_compile(
                *schema,
                context.registry.entries@,
                context.schema_path.deep_view(),
                context.depth as nat,
            ) == Err::<Seq<ValidatorView>, CompilationErrorView>(e@),
        },
    decreases context.depth, 4int,
{
    let ghost reg = context.registry.entries@;
    let ghost path = context.schema_path.deep_view();
    let ghost depth = context.depth as nat;
    match schema {
        Json::Bool(b) => {
            let mut vs: Vec<Validator> = Vec::new();
            if *b {
                vs.push(Validator::AlwaysValid);
            } else {
                vs.push(Validator::AlwaysInvalid { schema_path: clone_path(&context.schema_path) });
            }
            proof {
                lemma_views_push(Seq::<Validator>::empty(), vs@[0]);
                assert(vs@ =~= Seq::<Validator>::empty().push(vs@[0]));
                assert(views_of(Seq::<Validator>::empty()) =~= Seq::<ValidatorView>::empty());
                assert(views_of(vs@) =~= seq![view_of(vs@[0])]);
            }
            Ok(vs)
        },
        Json::Obj(fields) => {
            if let Some(refv) = obj_get(fields, "$ref") {
                match refv {
                    Json::Str(target) => {
                        match context.registry.resolve(target.as_str()) {
                            Some(frag) => {
                                if context.depth == 0 {
                                    Err(
                                        error_at(
                                            &context.schema_path,
                                            "$ref",
                                            CompilationErrorKind::DepthExceeded,
                                        ),
                                    )
                                } else {
                                    let sub = context.descend("$ref");
                                    compile_validators(frag, &sub)
                                }
                            },
                            None => Err(
                                error_at(
                                    &context.schema_path,
                                    "$ref",
                                    CompilationErrorKind::UnresolvableReference,
                                ),
                            ),
                        }
                    },
                    _ => Err(
                        error_at(
                            &context.schema_path,
                            "$ref",
                            CompilationErrorKind::InvalidKeywordValue,
                        ),
                    ),
                }
            } else {
                compile_keywords(fields, context)
            }
        },
        _ => Err(error_here(&context.schema_path, CompilationErrorKind::InvalidSchemaKind)),
    }
}

} // verus!
