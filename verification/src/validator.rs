//! Validator nodes and the dual validation contract.
//!
//! A compiled schema fragment is an ordered collection of [`Validator`]
//! nodes, one per recognized keyword; siblings combine by conjunction.
//! Every node answers the same two questions about an instance: a cheap
//! boolean check ([`Validator::is_valid`]) and the full enumeration of
//! violated constraints ([`Validator::validate`]).  The two always agree:
//! an instance is valid exactly when the enumeration is empty.
//!
//! The mathematical model of a node is [`ValidatorView`]; validity and
//! the diagnostic sequence are defined over the model by [`spec_valid`]
//! and [`spec_errors`], and every executable method is proved against
//! those definitions.

use vstd::prelude::*;
use crate::json::{Json, JsonType, spec_type_of};
use crate::errors::{Diagnostic, DiagnosticView, ErrorKind, no_error};

verus! {

/// A compiled constraint node.  Leaf variants carry the schema location
/// they were compiled from, so a diagnostic can point back at its keyword.
pub enum Validator {
    /// The boolean schema `true`: every instance satisfies it.
    AlwaysValid,
    /// The boolean schema `false`: no instance satisfies it.
    AlwaysInvalid { schema_path: Vec<String> },
    /// The `type` keyword.
    TypeCheck { expected: JsonType, schema_path: Vec<String> },
    /// The `minimum` keyword; applies to numbers only.
    Minimum { limit: i64, schema_path: Vec<String> },
    /// The `minLength` keyword; applies to strings only.
    MinLength { limit: u64, schema_path: Vec<String> },
    /// A whole sub-fragment's compiled collection as one node: the
    /// instance must satisfy every member.  The elements of an `allOf`
    /// array and the branches of `anyOf` and `oneOf` take this shape.
    Fragment { schema: Vec<Validator>, schema_path: Vec<String> },
    /// The `anyOf` keyword: at least one branch must be satisfied.
    AnyOf { branches: Vec<Validator>, schema_path: Vec<String> },
    /// The `oneOf` keyword: exactly one branch must be satisfied.
    OneOf { branches: Vec<Validator>, schema_path: Vec<String> },
    /// The `not` keyword: the instance must fail the negated fragment.
    Negation { schema: Vec<Validator>, schema_path: Vec<String> },
    /// The conditional combinator with only a `then` branch.
    IfThen(Box<IfThenValidator>),
    /// The conditional combinator with only an `else` branch.
    IfElse(Box<IfElseValidator>),
    /// The conditional combinator with both branches.
    IfThenElse(Box<IfThenElseValidator>),
}

/// `if` together with `then` alone: when the condition holds the branch
/// is asserted, otherwise the instance passes vacuously.
pub struct IfThenValidator {
    pub schema: Vec<Validator>,
    pub then_schema: Vec<Validator>,
}

/// `if` together with `else` alone: when the condition fails the branch
/// is asserted, otherwise the instance passes.
pub struct IfElseValidator {
    pub schema: Vec<Validator>,
    pub else_schema: Vec<Validator>,
}

/// `if` together with both `then` and `else`: the condition's outcome
/// selects which branch is asserted.
pub struct IfThenElseValidator {
    pub schema: Vec<Validator>,
    pub then_schema: Vec<Validator>,
    pub else_schema: Vec<Validator>,
}

/// The mathematical model of a validator node.
pub enum ValidatorView {
    AlwaysValid,
    AlwaysInvalid { schema_path: Seq<Seq<char>> },
    TypeCheck { expected: JsonType, schema_path: Seq<Seq<char>> },
    Minimum { limit: i64, schema_path: Seq<Seq<char>> },
    MinLength { limit: u64, schema_path: Seq<Seq<char>> },
    Fragment { schema: Seq<ValidatorView>, schema_path: Seq<Seq<char>> },
    AnyOf { branches: Seq<ValidatorView>, schema_path: Seq<Seq<char>> },
    OneOf { branches: Seq<ValidatorView>, schema_path: Seq<Seq<char>> },
    Negation { schema: Seq<ValidatorView>, schema_path: Seq<Seq<char>> },
    IfThen { schema: Seq<ValidatorView>, then_schema: Seq<ValidatorView> },
    IfElse { schema: Seq<ValidatorView>, else_schema: Seq<ValidatorView> },
    IfThenElse {
        schema: Seq<ValidatorView>,
        then_schema: Seq<ValidatorView>,
        else_schema: Seq<ValidatorView>,
    },
}

/// The model of one node.
pub open spec fn view_of(v: Validator) -> ValidatorView
    decreases v, 2int,
{
    match v {
        Validator::AlwaysValid => ValidatorView::AlwaysValid,
        Validator::AlwaysInvalid { schema_path } => ValidatorView::AlwaysInvalid {
            schema_path: schema_path.deep_view(),
        },
        Validator::TypeCheck { expected, schema_path } => ValidatorView::TypeCheck {
            expected: expected,
            schema_path: schema_path.deep_view(),
        },
        Validator::Minimum { limit, schema_path } => ValidatorView::Minimum {
            limit: limit,
            schema_path: schema_path.deep_view(),
        },
        Validator::MinLength { limit, schema_path } => ValidatorView::MinLength {
            limit: limit,
            schema_path: schema_path.deep_view(),
        },
        Validator::Fragment { schema, schema_path } => ValidatorView::Fragment {
            schema: views_from(schema@, 0),
            schema_path: schema_path.deep_view(),
        },
        Validator::AnyOf { branches, schema_path } => ValidatorView::AnyOf {
            branches: views_from(branches@, 0),
            schema_path: schema_path.deep_view(),
        },
        Validator::OneOf { branches, schema_path } => ValidatorView::OneOf {
            branches: views_from(branches@, 0),
            schema_path: schema_path.deep_view(),
        },
        Validator::Negation { schema, schema_path } => ValidatorView::Negation {
            schema: views_from(schema@, 0),
            schema_path: schema_path.deep_view(),
        },
        Validator::IfThen(b) => if_then_view(*b),
        Validator::IfElse(b) => if_else_view(*b),
        Validator::IfThenElse(b) => if_then_else_view(*b),
    }
}

/// The model of an `if`/`then` node.
pub open spec fn if_then_view(s: IfThenValidator) -> ValidatorView
    decreases s, 1int,
{
    ValidatorView::IfThen {
        schema: views_from(s.schema@, 0),
        then_schema: views_from(s.then_schema@, 0),
    }
}

/// The model of an `if`/`else` node.
pub open spec fn if_else_view(s: IfElseValidator) -> ValidatorView
    decreases s, 1int,
{
    ValidatorView::IfElse {
        schema: views_from(s.schema@, 0),
        else_schema: views_from(s.else_schema@, 0),
    }
}

/// The model of an `if`/`then`/`else` node.
pub open spec fn if_then_else_view(s: IfThenElseValidator) -> ValidatorView
    decreases s, 1int,
{
    ValidatorView::IfThenElse {
        schema: views_from(s.schema@, 0),
        then_schema: views_from(s.then_schema@, 0),
        else_schema: views_from(s.else_schema@, 0),
    }
}

/// The models of the nodes of `vs` from position `k` on, in order.
pub open spec fn views_from(vs: Seq<Validator>, k: int) -> Seq<ValidatorView>
    decreases vs, vs.len() - k,
{
    if k < 0 || k >= vs.len() {
        Seq::empty()
    } else {
        seq![view_of(vs[k])] + views_from(vs, k + 1)
    }
}

/// The models of a whole collection, in compiled order.
pub open spec fn views_of(vs: Seq<Validator>) -> Seq<ValidatorView> {
    views_from(vs, 0)
}

/// Does the instance satisfy the node?  The definition of validity.
pub open spec fn spec_valid(m: ValidatorView, i: Json) -> bool
    decreases m, 1int, 0int,
{
    match m {
        ValidatorView::AlwaysValid => true,
        ValidatorView::AlwaysInvalid { .. } => false,
        ValidatorView::TypeCheck { expected, .. } => spec_type_of(i) == expected,
        ValidatorView::Minimum { limit, .. } => match i {
            Json::Int(n) => n >= limit,
            _ => true,
        },
        ValidatorView::MinLength { limit, .. } => match i {
            Json::Str(s) => s@.len() >= limit,
            _ => true,
        },
        ValidatorView::Fragment { schema, .. } => spec_valid_all(schema, i),
        ValidatorView::AnyOf { branches, .. } => spec_any_valid(branches, i),
        ValidatorView::OneOf { branches, .. } => spec_count_valid(branches, i, 0) == 1,
        ValidatorView::Negation { schema, .. } => !spec_valid_all(schema, i),
        ValidatorView::IfThen { schema, then_schema } => spec_valid_all(schema, i)
            ==> spec_valid_all(then_schema, i),
        ValidatorView::IfElse { schema, else_schema } => spec_valid_all(schema, i)
            || spec_valid_all(else_schema, i),
        ValidatorView::IfThenElse { schema, then_schema, else_schema } => if spec_valid_all(
            schema,
            i,
        ) {
            spec_valid_all(then_schema, i)
        } else {
            spec_valid_all(else_schema, i)
        },
    }
}

/// Conjunction over a collection of sibling nodes: the instance satisfies
/// the collection exactly when it satisfies every member.
pub open spec fn spec_valid_all(ms: Seq<ValidatorView>, i: Json) -> bool
    decreases ms, 2int, 0int,
{
    forall|k: int| 0 <= k < ms.len() ==> spec_valid(#[trigger] ms[k], i)
}

/// Disjunction over a collection: does the instance satisfy at least
/// one member?
pub open spec fn spec_any_valid(ms: Seq<ValidatorView>, i: Json) -> bool
    decreases ms, 2int, 0int,
{
    exists|k: int| 0 <= k < ms.len() && spec_valid(#[trigger] ms[k], i)
}

/// How many members of the collection from position `k` on the
/// instance satisfies.
pub open spec fn spec_count_valid(ms: Seq<ValidatorView>, i: Json, k: int) -> nat
    decreases ms, 0int, ms.len() - k,
{
    if k < 0 || k >= ms.len() {
        0
    } else {
        (if spec_valid(ms[k], i) {
            1nat
        } else {
            0nat
        }) + spec_count_valid(ms, i, k + 1)
    }
}

/// The diagnostic sequence of one node: every violated constraint
/// reachable from it, in compiled order.  A condition collection's own
/// diagnostics are never reported; only its boolean outcome selects the
/// branch whose diagnostics are returned verbatim.
pub open spec fn spec_errors(m: ValidatorView, i: Json) -> Seq<DiagnosticView>
    decreases m, 0int,
{
    match m {
        ValidatorView::AlwaysValid => Seq::empty(),
        ValidatorView::AlwaysInvalid { schema_path } => seq![
            DiagnosticView {
                instance_path: Seq::empty(),
                schema_path: schema_path,
                kind: ErrorKind::FalseSchema,
            },
        ],
        ValidatorView::TypeCheck { expected, schema_path } => if spec_type_of(i) == expected {
            Seq::empty()
        } else {
            seq![
                DiagnosticView {
                    instance_path: Seq::empty(),
                    schema_path: schema_path,
                    kind: ErrorKind::TypeMismatch { expected },
                },
            ]
        },
        ValidatorView::Minimum { limit, schema_path } => match i {
            Json::Int(n) => if n >= limit {
                Seq::empty()
            } else {
                seq![
                    DiagnosticView {
                        instance_path: Seq::empty(),
                        schema_path: schema_path,
                        kind: ErrorKind::Minimum { limit },
                    },
                ]
            },
            _ => Seq::empty(),
        },
        ValidatorView::MinLength { limit, schema_path } => match i {
            Json::Str(s) => if s@.len() >= limit {
                Seq::empty()
            } else {
                seq![
                    DiagnosticView {
                        instance_path: Seq::empty(),
                        schema_path: schema_path,
                        kind: ErrorKind::MinLength { limit },
                    },
                ]
            },
            _ => Seq::empty(),
        },
        ValidatorView::Fragment { schema, .. } => spec_errors_from(schema, i, 0),
        ValidatorView::AnyOf { branches, schema_path } => if spec_any_valid(branches, i) {
            Seq::empty()
        } else {
            seq![
                DiagnosticView {
                    instance_path: Seq::empty(),
                    schema_path: schema_path,
                    kind: ErrorKind::AnyOfMismatch,
                },
            ] + spec_errors_from(branches, i, 0)
        },
        ValidatorView::OneOf { branches, schema_path } => if spec_count_valid(branches, i, 0)
            == 1 {
            Seq::empty()
        } else {
            seq![
                DiagnosticView {
                    instance_path: Seq::empty(),
                    schema_path: schema_path,
                    kind: ErrorKind::OneOfMismatch,
                },
            ]
        },
        ValidatorView::Negation { schema, schema_path } => if spec_valid_all(schema, i) {
            seq![
                DiagnosticView {
                    instance_path: Seq::empty(),
                    schema_path: schema_path,
                    kind: ErrorKind::Negation,
                },
            ]
        } else {
            Seq::empty()
        },
        ValidatorView::IfThen { schema, then_schema } => if spec_valid_all(schema, i) {
            spec_errors_from(then_schema, i, 0)
        } else {
            Seq::empty()
        },
        ValidatorView::IfElse { schema, else_schema } => if spec_valid_all(schema, i) {
            Seq::empty()
        } else {
            spec_errors_from(else_schema, i, 0)
        },
        ValidatorView::IfThenElse { schema, then_schema, else_schema } => if spec_valid_all(
            schema,
            i,
        ) {
            spec_errors_from(then_schema, i, 0)
        } else {
            spec_errors_from(else_schema, i, 0)
        },
    }
}

/// The diagnostics of the members of `ms` from position `k` on,
/// concatenated in order.
pub open spec fn spec_errors_from(ms: Seq<ValidatorView>, i: Json, k: int) -> Seq<DiagnosticView>
    decreases ms, ms.len() - k,
{
    if k < 0 || k >= ms.len() {
        Seq::empty()
    } else {
        spec_errors(ms[k], i) + spec_errors_from(ms, i, k + 1)
    }
}

/// The diagnostic sequence of a whole collection: the concatenation, in
/// compiled order, of each member's own diagnostics.
pub open spec fn spec_errors_all(ms: Seq<ValidatorView>, i: Json) -> Seq<DiagnosticView> {
    spec_errors_from(ms, i, 0)
}

/// The members of a collection from position `k` on are all satisfied
/// exactly when their concatenated diagnostics are empty.
pub proof fn lemma_valid_all_iff_no_errors_from(ms: Seq<ValidatorView>, i: Json, k: int)
    requires
        0 <= k <= ms.len(),
    ensures
        (forall|j: int| k <= j < ms.len() ==> spec_valid(#[trigger] ms[j], i))
            <==> spec_errors_from(ms, i, k).len() == 0,
    decreases ms, ms.len() - k,
{
    if k < ms.len() {
        lemma_valid_iff_no_errors(ms[k], i);
        lemma_valid_all_iff_no_errors_from(ms, i, k + 1);
    }
}

/// For any node and any instance: the instance is valid exactly when the
/// node's diagnostic sequence for it is empty.
#[verifier::rlimit(100)]
#[verifier::spinoff_prover]
pub proof fn lemma_valid_iff_no_errors(m: ValidatorView, i: Json)
    ensures
        spec_valid(m, i) <==> spec_errors(m, i).len() == 0,
    decreases m, 0int,
{
    match m {
        ValidatorView::AlwaysValid => {
            assert(spec_valid(m, i) <==> spec_errors(m, i).len() == 0);
        },
        ValidatorView::AlwaysInvalid { .. } => {
            assert(spec_valid(m, i) <==> spec_errors(m, i).len() == 0);
        },
        ValidatorView::TypeCheck { .. } => {
            assert(spec_valid(m, i) <==> spec_errors(m, i).len() == 0);
        },
        ValidatorView::Minimum { .. } => {
            assert(spec_valid(m, i) <==> spec_errors(m, i).len() == 0);
        },
        ValidatorView::MinLength { .. } => {
            assert(spec_valid(m, i) <==> spec_errors(m, i).len() == 0);
        },
        ValidatorView::Fragment { schema, .. } => {
            lemma_valid_all_iff_no_errors_from(schema, i, 0);
            assert(spec_valid(m, i) == spec_valid_all(schema, i));
            assert(spec_errors(m, i) == spec_errors_from(schema, i, 0));
            assert(spec_valid_all(schema, i) <==> (forall|j: int|
                0 <= j < schema.len() ==> spec_valid(#[trigger] schema[j], i)));
            assert((forall|j: int| 0 <= j < schema.len() ==> spec_valid(#[trigger] schema[j], i))
                <==> spec_errors_from(schema, i, 0).len() == 0);
            assert(spec_valid(m, i) <==> spec_errors(m, i).len() == 0);
        },
        ValidatorView::AnyOf { .. } => {
            assert(spec_valid(m, i) <==> spec_errors(m, i).len() == 0);
        },
        ValidatorView::OneOf { .. } => {
            assert(spec_valid(m, i) <==> spec_errors(m, i).len() == 0);
        },
        ValidatorView::Negation { .. } => {
            assert(spec_valid(m, i) <==> spec_errors(m, i).len() == 0);
        },
        ValidatorView::IfThen { schema, then_schema } => {
            lemma_valid_all_iff_no_errors_from(then_schema, i, 0);
            assert(spec_valid_all(then_schema, i) <==> (forall|j: int|
                0 <= j < then_schema.len() ==> spec_valid(#[trigger] then_schema[j], i)));
            assert(spec_valid(m, i) <==> spec_errors(m, i).len() == 0);
        },
        ValidatorView::IfElse { schema, else_schema } => {
            lemma_valid_all_iff_no_errors_from(else_schema, i, 0);
            assert(spec_valid_all(else_schema, i) <==> (forall|j: int|
                0 <= j < else_schema.len() ==> spec_valid(#[trigger] else_schema[j], i)));
            assert(spec_valid(m, i) <==> spec_errors(m, i).len() == 0);
        },
        ValidatorView::IfThenElse { schema, then_schema, else_schema } => {
            lemma_valid_all_iff_no_errors_from(then_schema, i, 0);
            lemma_valid_all_iff_no_errors_from(else_schema, i, 0);
            assert(spec_valid_all(then_schema, i) <==> (forall|j: int|
                0 <= j < then_schema.len() ==> spec_valid(#[trigger] then_schema[j], i)));
            assert(spec_valid_all(else_schema, i) <==> (forall|j: int|
                0 <= j < else_schema.len() ==> spec_valid(#[trigger] else_schema[j], i)));
            assert(spec_valid(m, i) <==> spec_errors(m, i).len() == 0);
        },
    }
}

/// Each position's model is the model of the node at that position.
pub proof fn lemma_views_from_index(vs: Seq<Validator>, k: int)
    requires
        0 <= k <= vs.len(),
    ensures
        views_from(vs, k).len() == vs.len() - k,
        forall|j: int|
            0 <= j < vs.len() - k ==> #[trigger] views_from(vs, k)[j] == view_of(vs[k + j]),
    decreases vs.len() - k,
{
    if k < vs.len() {
        lemma_views_from_index(vs, k + 1);
        assert forall|j: int|
            0 <= j < vs.len() - k implies #[trigger] views_from(vs, k)[j] == view_of(
            vs[k + j],
        ) by {
            if j > 0 {
                assert(views_from(vs, k)[j] == views_from(vs, k + 1)[j - 1]);
                assert(views_from(vs, k + 1)[j - 1] == view_of(vs[k + 1 + (j - 1)]));
            }
        }
    }
}

/// Appending a node to a collection appends its model to the
/// collection's model.
pub proof fn lemma_views_push(vs: Seq<Validator>, v: Validator)
    ensures
        views_of(vs.push(v)) == views_of(vs).push(view_of(v)),
{
    lemma_views_from_index(vs, 0);
    lemma_views_from_index(vs.push(v), 0);
    assert(views_of(vs.push(v)) =~= views_of(vs).push(view_of(v)));
}

/// The model of a concatenation of collections is the concatenation of
/// their models.
pub proof fn lemma_views_concat(a: Seq<Validator>, b: Seq<Validator>)
    ensures
        views_of(a + b) == views_of(a) + views_of(b),
{
    lemma_views_from_index(a, 0);
    lemma_views_from_index(b, 0);
    lemma_views_from_index(a + b, 0);
    assert forall|j: int|
        0 <= j < (a + b).len() implies #[trigger] views_of(a + b)[j] == (views_of(a) + views_of(
        b,
    ))[j] by {
        if j < a.len() {
            assert((a + b)[j] == a[j]);
        } else {
            assert((a + b)[j] == b[j - a.len()]);
        }
    }
    assert(views_of(a + b) =~= views_of(a) + views_of(b));
}

/// Does the instance satisfy every node of the collection?  Short-circuits
/// at the first failing member and allocates nothing.
pub fn all_valid(vs: &Vec<Validator>, instance: &Json) -> (r: bool)
    ensures
        r == spec_valid_all(views_of(vs@), *instance),
    decreases vs@,
{
    let ghost ms = views_of(vs@);
    proof {
        lemma_views_from_index(vs@, 0);
        assert forall|j: int| 0 <= j < ms.len() implies #[trigger] ms[j] == view_of(vs@[j]) by {
            assert(views_from(vs@, 0)[j] == view_of(vs@[0 + j]));
        }
    }
    let mut k: usize = 0;
    while k < vs.len()
        invariant
            0 <= k <= vs@.len(),
            ms == views_of(vs@),
            ms.len() == vs@.len(),
            forall|j: int| 0 <= j < ms.len() ==> #[trigger] ms[j] == view_of(vs@[j]),
            forall|j: int| 0 <= j < k ==> spec_valid(#[trigger] ms[j], *instance),
        decreases vs@.len() - k,
    {
        if !vs[k].is_valid(instance) {
            proof {
                assert(!spec_valid(ms[k as int], *instance));
            }
            return false;
        }
        k = k + 1;
    }
    true
}

/// Does the instance satisfy at least one node of the collection?
/// Short-circuits at the first satisfied member and allocates nothing.
pub fn any_valid(vs: &Vec<Validator>, instance: &Json) -> (r: bool)
    ensures
        r == spec_any_valid(views_of(vs@), *instance),
    decreases vs@,
{
    let ghost ms = views_of(vs@);
    proof {
        lemma_views_from_index(vs@, 0);
        assert forall|j: int| 0 <= j < ms.len() implies #[trigger] ms[j] == view_of(vs@[j]) by {
            assert(views_from(vs@, 0)[j] == view_of(vs@[0 + j]));
        }
    }
    let mut k: usize = 0;
    while k < vs.len()
        invariant
            0 <= k <= vs@.len(),
            ms == views_of(vs@),
            ms.len() == vs@.len(),
            forall|j: int| 0 <= j < ms.len() ==> #[trigger] ms[j] == view_of(vs@[j]),
            forall|j: int| 0 <= j < k ==> !spec_valid(#[trigger] ms[j], *instance),
        decreases vs@.len() - k,
    {
        if vs[k].is_valid(instance) {
            proof {
                assert(spec_valid(ms[k as int], *instance));
            }
            return true;
        }
        k = k + 1;
    }
    false
}

/// How many nodes of the collection the instance satisfies.
pub fn count_valid(vs: &Vec<Validator>, instance: &Json) -> (r: usize)
    ensures
        r == spec_count_valid(views_of(vs@), *instance, 0),
    decreases vs@,
{
    let ghost ms = views_of(vs@);
    proof {
        lemma_views_from_index(vs@, 0);
        assert forall|j: int| 0 <= j < ms.len() implies #[trigger] ms[j] == view_of(vs@[j]) by {
            assert(views_from(vs@, 0)[j] == view_of(vs@[0 + j]));
        }
    }
    let mut n: usize = 0;
    let mut k: usize = 0;
    while k < vs.len()
        invariant
            0 <= k <= vs@.len(),
            n <= k,
            ms == views_of(vs@),
            ms.len() == vs@.len(),
            forall|j: int| 0 <= j < ms.len() ==> #[trigger] ms[j] == view_of(vs@[j]),
            spec_count_valid(ms, *instance, 0) == n + spec_count_valid(ms, *instance, k as int),
        decreases vs@.len() - k,
    {
        if vs[k].is_valid(instance) {
            n = n + 1;
        }
        k = k + 1;
    }
    n
}

/// Every member's diagnostics for the instance, concatenated in compiled
/// order.
pub fn validate_all(vs: &Vec<Validator>, instance: &Json) -> (r: Vec<Diagnostic>)
    ensures
        r.deep_view() == spec_errors_all(views_of(vs@), *instance),
    decreases vs@,
{
    let ghost ms = views_of(vs@);
    proof {
        lemma_views_from_index(vs@, 0);
        assert forall|j: int| 0 <= j < ms.len() implies #[trigger] ms[j] == view_of(vs@[j]) by {
            assert(views_from(vs@, 0)[j] == view_of(vs@[0 + j]));
        }
    }
    let mut r: Vec<Diagnostic> = no_error();
    let mut k: usize = 0;
    while k < vs.len()
        invariant
            0 <= k <= vs@.len(),
            ms == views_of(vs@),
            ms.len() == vs@.len(),
            forall|j: int| 0 <= j < ms.len() ==> #[trigger] ms[j] == view_of(vs@[j]),
            r.deep_view() + spec_errors_from(ms, *instance, k as int) == spec_errors_all(
                ms,
                *instance,
            ),
        decreases vs@.len() - k,
    {
        let mut part = vs[k].validate(instance);
        let ghost old_r = r.deep_view();
        let ghost old_part = part.deep_view();
        r.append(&mut part);
        proof {
            assert(r.deep_view() =~= old_r + old_part);
            assert(old_r + (old_part + spec_errors_from(ms, *instance, k as int + 1)) =~= (old_r
                + old_part) + spec_errors_from(ms, *instance, k as int + 1));
        }
        k = k + 1;
    }
    r
}

impl Validator {
    /// The cheap boolean check: does the instance satisfy this node?
    /// Never allocates diagnostics.
    #[verifier::rlimit(60)]
    pub fn is_valid(&self, instance: &Json) -> (r: bool)
        ensures
            r == spec_valid(view_of(*self), *instance),
        decreases *self,
    {
        match self {
            Validator::AlwaysValid => true,
            Validator::AlwaysInvalid { .. } => false,
            Validator::TypeCheck { expected, .. } => instance.json_type() == *expected,
            Validator::Minimum { limit, .. } => match instance {
                Json::Int(n) => *n >= *limit,
                _ => true,
            },
            Validator::MinLength { limit, .. } => match instance {
                Json::Str(s) => s.as_str().unicode_len() as u64 >= *limit,
                _ => true,
            },
            Validator::Fragment { schema, .. } => all_valid(schema, instance),
            Validator::AnyOf { branches, .. } => any_valid(branches, instance),
            Validator::OneOf { branches, .. } => count_valid(branches, instance) == 1,
            Validator::Negation { schema, .. } => !all_valid(schema, instance),
            Validator::IfThen(b) => b.is_valid(instance),
            Validator::IfElse(b) => b.is_valid(instance),
            Validator::IfThenElse(b) => b.is_valid(instance),
        }
    }

    /// The full diagnostic enumeration: every constraint this node finds
    /// violated in the instance, in compiled order.  Empty exactly when
    /// the instance is valid.
    #[verifier::rlimit(60)]
    pub fn validate(&self, instance: &Json) -> (r: Vec<Diagnostic>)
        ensures
            r.deep_view() == spec_errors(view_of(*self), *instance),
        decreases *self,
    {
        match self {
            Validator::AlwaysValid => no_error(),
            Validator::AlwaysInvalid { schema_path } => singleton_diagnostic(
                schema_path,
                ErrorKind::FalseSchema,
            ),
            Validator::TypeCheck { expected, schema_path } => {
                if instance.json_type() == *expected {
                    no_error()
                } else {
                    singleton_diagnostic(
                        schema_path,
                        ErrorKind::TypeMismatch { expected: *expected },
                    )
                }
            },
            Validator::Minimum { limit, schema_path } => match instance {
                Json::Int(n) => {
                    if *n >= *limit {
                        no_error()
                    } else {
                        singleton_diagnostic(schema_path, ErrorKind::Minimum { limit: *limit })
                    }
                },
                _ => no_error(),
            },
            Validator::MinLength { limit, schema_path } => match instance {
                Json::Str(s) => {
                    if s.as_str().unicode_len() as u64 >= *limit {
                        no_error()
                    } else {
                        singleton_diagnostic(schema_path, ErrorKind::MinLength { limit: *limit })
                    }
                },
                _ => no_error(),
            },
            Validator::Fragment { schema, .. } => validate_all(schema, instance),
            Validator::AnyOf { branches, schema_path } => {
                if any_valid(branches, instance) {
                    no_error()
                } else {
                    let mut r = singleton_diagnostic(schema_path, ErrorKind::AnyOfMismatch);
                    let mut rest = validate_all(branches, instance);
                    let ghost r0 = r.deep_view();
                    let ghost rest0 = rest.deep_view();
                    r.append(&mut rest);
                    proof {
                        assert(r.deep_view() =~= r0 + rest0);
                    }
                    r
                }
            },
            Validator::OneOf { branches, schema_path } => {
                if count_valid(branches, instance) == 1 {
                    no_error()
                } else {
                    singleton_diagnostic(schema_path, ErrorKind::OneOfMismatch)
                }
            },
            Validator::Negation { schema, schema_path } => {
                if all_valid(schema, instance) {
                    singleton_diagnostic(schema_path, ErrorKind::Negation)
                } else {
                    no_error()
                }
            },
            Validator::IfThen(b) => b.validate(instance),
            Validator::IfElse(b) => b.validate(instance),
            Validator::IfThenElse(b) => b.validate(instance),
        }
    }
}

/// The debug label of a node's model: the node kind, with the labels
/// of its compiled sub-collections embedded, in compiled order.
pub open spec fn spec_label(m: ValidatorView) -> Seq<char>
    decreases m, 2int, 0int,
{
    match m {
        ValidatorView::AlwaysValid => "<true>"@,
        ValidatorView::AlwaysInvalid { .. } => "<false>"@,
        ValidatorView::TypeCheck { .. } => "<type>"@,
        ValidatorView::Minimum { .. } => "<minimum>"@,
        ValidatorView::MinLength { .. } => "<minLength>"@,
        ValidatorView::Fragment { schema, .. } => "<fragment: "@ + spec_label_seq(schema) + ">"@,
        ValidatorView::AnyOf { branches, .. } => "<anyOf: "@ + spec_label_seq(branches) + ">"@,
        ValidatorView::OneOf { branches, .. } => "<oneOf: "@ + spec_label_seq(branches) + ">"@,
        ValidatorView::Negation { schema, .. } => "<not: "@ + spec_label_seq(schema) + ">"@,
        ValidatorView::IfThen { schema, then_schema } => "<if-then: "@ + spec_label_seq(schema)
            + " "@ + spec_label_seq(then_schema) + ">"@,
        ValidatorView::IfElse { schema, else_schema } => "<if-else: "@ + spec_label_seq(schema)
            + " "@ + spec_label_seq(else_schema) + ">"@,
        ValidatorView::IfThenElse { schema, then_schema, else_schema } => "<if-then-else: "@
            + spec_label_seq(schema) + " "@ + spec_label_seq(then_schema) + " "@ + spec_label_seq(
            else_schema,
        ) + ">"@,
    }
}

/// The label of a whole collection: its members' labels, bracketed, in
/// compiled order.
pub open spec fn spec_label_seq(ms: Seq<ValidatorView>) -> Seq<char>
    decreases ms, 1int, 0int,
{
    "["@ + spec_labels_from(ms, 0) + "]"@
}

/// The labels of the members from position `k` on, separated by spaces.
pub open spec fn spec_labels_from(ms: Seq<ValidatorView>, k: int) -> Seq<char>
    decreases ms, 0int, ms.len() - k,
{
    if k < 0 || k >= ms.len() {
        Seq::empty()
    } else {
        (if k > 0 {
            " "@
        } else {
            Seq::<char>::empty()
        }) + spec_label(ms[k]) + spec_labels_from(ms, k + 1)
    }
}

/// The label of a collection of nodes: each member's own label,
/// bracketed, in compiled order.
pub fn collection_label(vs: &Vec<Validator>) -> (r: String)
    ensures
        r@ == spec_label_seq(views_of(vs@)),
    decreases vs@, 1int,
{
    let ghost ms = views_of(vs@);
    proof {
        lemma_views_from_index(vs@, 0);
        assert forall|j: int| 0 <= j < ms.len() implies #[trigger] ms[j] == view_of(vs@[j]) by {
            assert(views_from(vs@, 0)[j] == view_of(vs@[0 + j]));
        }
    }
    let mut r = String::from_str("[");
    let mut k: usize = 0;
    while k < vs.len()
        invariant
            0 <= k <= vs@.len(),
            ms == views_of(vs@),
            ms.len() == vs@.len(),
            forall|j: int| 0 <= j < ms.len() ==> #[trigger] ms[j] == view_of(vs@[j]),
            r@ + spec_labels_from(ms, k as int) + "]"@ == spec_label_seq(ms),
        decreases vs@.len() - k,
    {
        let ghost r0 = r@;
        let ghost sep: Seq<char> = if k > 0 {
            " "@
        } else {
            Seq::<char>::empty()
        };
        if k > 0 {
            r.append(" ");
        }
        let n = vs[k].name();
        r.append(n.as_str());
        proof {
            assert(r@ =~= r0 + sep + spec_label(ms[k as int]));
            assert(spec_labels_from(ms, k as int) == sep + spec_label(ms[k as int])
                + spec_labels_from(ms, k as int + 1));
            assert(r@ + spec_labels_from(ms, k as int + 1) + "]"@ =~= r0 + spec_labels_from(
                ms,
                k as int,
            ) + "]"@);
        }
        k = k + 1;
    }
    let ghost r1 = r@;
    r.append("]");
    proof {
        assert(spec_labels_from(ms, vs@.len() as int) =~= Seq::<char>::empty());
        assert(r@ =~= r1 + spec_labels_from(ms, vs@.len() as int) + "]"@);
    }
    r
}

/// A collection's label between a node-kind prefix and a closing mark.
fn wrap_label(prefix: &str, vs: &Vec<Validator>) -> (r: String)
    ensures
        r@ == prefix@ + spec_label_seq(views_of(vs@)) + ">"@,
    decreases vs@, 2int,
{
    let mut r = String::from_str(prefix);
    let inner = collection_label(vs);
    r.append(inner.as_str());
    r.append(">");
    r
}

impl Validator {
    /// A debug label summarizing the node and its compiled
    /// sub-fragments; for diagnostics and tracing only, never for
    /// control flow.
    pub fn name(&self) -> (r: String)
        ensures
            r@ == spec_label(view_of(*self)),
        decreases *self, 3int,
    {
        match self {
            Validator::AlwaysValid => String::from_str("<true>"),
            Validator::AlwaysInvalid { .. } => String::from_str("<false>"),
            Validator::TypeCheck { .. } => String::from_str("<type>"),
            Validator::Minimum { .. } => String::from_str("<minimum>"),
            Validator::MinLength { .. } => String::from_str("<minLength>"),
            Validator::Fragment { schema, .. } => wrap_label("<fragment: ", schema),
            Validator::AnyOf { branches, .. } => wrap_label("<anyOf: ", branches),
            Validator::OneOf { branches, .. } => wrap_label("<oneOf: ", branches),
            Validator::Negation { schema, .. } => wrap_label("<not: ", schema),
            Validator::IfThen(b) => b.name(),
            Validator::IfElse(b) => b.name(),
            Validator::IfThenElse(b) => b.name(),
        }
    }
}

/// One diagnostic at the root of the instance, for the given keyword
/// location and failure kind.
fn singleton_diagnostic(schema_path: &Vec<String>, kind: ErrorKind) -> (r: Vec<Diagnostic>)
    ensures
        r.deep_view() =~= seq![
            DiagnosticView {
                instance_path: Seq::empty(),
                schema_path: schema_path.deep_view(),
                kind: kind,
            },
        ],
{
    let mut r: Vec<Diagnostic> = Vec::new();
    let d = Diagnostic { instance_path: Vec::new(), schema_path: clone_path(schema_path), kind };
    assert(d.instance_path.deep_view() =~= Seq::<Seq<char>>::empty());
    r.push(d);
    assert(r.deep_view() =~= seq![d@]);
    r
}

/// A copy of a path with the same textual content.
pub fn clone_path(p: &Vec<String>) -> (r: Vec<String>)
    ensures
        r.deep_view() == p.deep_view(),
{
    let mut r: Vec<String> = Vec::new();
    let mut k: usize = 0;
    while k < p.len()
        invariant
            0 <= k <= p@.len(),
            r@.len() == k,
            forall|j: int| 0 <= j < k ==> #[trigger] r@[j]@ == p@[j]@,
        decreases p@.len() - k,
    {
        let c = String::from_str(p[k].as_str());
        r.push(c);
        k = k + 1;
    }
    assert forall|j: int| 0 <= j < p@.len() implies r.deep_view()[j] == p.deep_view()[j] by {
        assert(r@[j]@ == p@[j]@);
    }
    assert(r.deep_view() =~= p.deep_view());
    r
}

} // verus!
