//! The laws of the engine, stated and proved once for all inputs.

use vstd::prelude::*;
use crate::json::Json;
use crate::errors::{CompilationErrorKind, CompilationErrorView};
use crate::compiler::{spec_compile, spec_ref_target};
use crate::validator::{
    ValidatorView, lemma_valid_all_iff_no_errors_from, lemma_valid_iff_no_errors, spec_errors,
    spec_errors_all, spec_errors_from, spec_valid, spec_valid_all,
};

verus! {

/// For any node and any instance, the boolean check and the diagnostic
/// enumeration agree: the instance is valid exactly when the node's
/// diagnostic sequence for it is empty.
pub proof fn law_valid_iff_no_errors(m: ValidatorView, i: Json)
    ensures
        spec_valid(m, i) <==> spec_errors(m, i).len() == 0,
{
    lemma_valid_iff_no_errors(m, i);
}

/// The conjunction rule of a fragment's validator collection, for any
/// collection and any instance: the collection is satisfied exactly
/// when every member is satisfied — equivalently, exactly when the
/// collection's diagnostic sequence is empty — and that sequence is the
/// concatenation, in compiled order, of each member's own diagnostics,
/// members that are satisfied contributing nothing.
pub proof fn law_conjunction(ms: Seq<ValidatorView>, i: Json)
    ensures
        spec_valid_all(ms, i) <==> (forall|k: int|
            0 <= k < ms.len() ==> spec_valid(#[trigger] ms[k], i)),
        spec_valid_all(ms, i) <==> spec_errors_all(ms, i).len() == 0,
        forall|k: int|
            0 <= k < ms.len() ==> spec_errors_from(ms, i, k) == spec_errors(#[trigger] ms[k], i)
                + spec_errors_from(ms, i, k + 1),
        forall|k: int|
            0 <= k < ms.len() && spec_valid(#[trigger] ms[k], i) ==> spec_errors_from(ms, i, k)
                == spec_errors_from(ms, i, k + 1),
{
    lemma_valid_all_iff_no_errors_from(ms, i, 0);
    assert forall|k: int|
        0 <= k < ms.len() && spec_valid(#[trigger] ms[k], i) implies spec_errors_from(ms, i, k)
        == spec_errors_from(ms, i, k + 1) by {
        lemma_valid_iff_no_errors(ms[k], i);
        assert(spec_errors_from(ms, i, k) =~= spec_errors(ms[k], i) + spec_errors_from(
            ms,
            i,
            k + 1,
        ));
        assert(spec_errors_from(ms, i, k) =~= spec_errors_from(ms, i, k + 1));
    }
}

/// Vacuous pass of the `if`/`then` shape, for any condition, branch and
/// instance: when the condition fails, the node reports no diagnostics
/// and holds, whatever the branch or the instance.
pub proof fn law_if_then_vacuous(
    schema: Seq<ValidatorView>,
    then_schema: Seq<ValidatorView>,
    i: Json,
)
    requires
        !spec_valid_all(schema, i),
    ensures
        spec_errors(ValidatorView::IfThen { schema, then_schema }, i).len() == 0,
        spec_valid(ValidatorView::IfThen { schema, then_schema }, i),
{
}

/// An empty condition collection holds trivially, so the `else` branch
/// of an `if`/`else` node compiled from an empty condition fragment is
/// never evaluated: no instance gets its diagnostics, and every
/// instance passes the node, whatever the branch holds.
pub proof fn law_if_else_empty_condition(else_schema: Seq<ValidatorView>, i: Json)
    ensures
        spec_valid(ValidatorView::IfElse { schema: Seq::empty(), else_schema }, i),
        spec_errors(ValidatorView::IfElse { schema: Seq::empty(), else_schema }, i).len() == 0,
{
}

/// Compilation is idempotent: compiling the same fragment twice against
/// equal registry contents, base location and depth budget yields trees
/// that are behaviorally indistinguishable — the same validity and the
/// same diagnostics for every instance.
pub proof fn law_compile_idempotent(
    schema: Json,
    reg: Seq<(String, Json)>,
    path: Seq<Seq<char>>,
    depth: nat,
    vs1: Seq<ValidatorView>,
    vs2: Seq<ValidatorView>,
    i: Json,
)
    requires
        spec_compile(schema, reg, path, depth) == Ok::<Seq<ValidatorView>, CompilationErrorView>(
            vs1,
        ),
        spec_compile(schema, reg, path, depth) == Ok::<Seq<ValidatorView>, CompilationErrorView>(
            vs2,
        ),
    ensures
        spec_valid_all(vs1, i) == spec_valid_all(vs2, i),
        spec_errors_all(vs1, i) == spec_errors_all(vs2, i),
{
}

/// A schema fragment that references an ancestor of itself is rejected
/// at compile time with a definite error, whatever the depth budget and
/// base location: if the fragment lies on a cycle of references — each
/// fragment of `chain` resolving, through the registry, to the next,
/// and the last back to the first — its compilation returns the
/// depth-exceeded compilation error rather than looping or exhausting
/// resources.
pub proof fn law_cyclic_reference_rejected(
    chain: Seq<Json>,
    reg: Seq<(String, Json)>,
    path: Seq<Seq<char>>,
    depth: nat,
    j: int,
)
    requires
        chain.len() > 0,
        0 <= j < chain.len(),
        forall|i: int|
            0 <= i < chain.len() ==> #[trigger] spec_ref_target(chain[i], reg) == Some(
                chain[(i + 1) % (chain.len() as int)],
            ),
    ensures
        spec_compile(chain[j], reg, path, depth) matches Err(e) && e.kind
            == CompilationErrorKind::DepthExceeded,
    decreases depth,
{
    assert(spec_ref_target(chain[j], reg) == Some(chain[(j + 1) % (chain.len() as int)]));
    if depth > 0 {
        law_cyclic_reference_rejected(
            chain,
            reg,
            path.push("$ref"@),
            (depth - 1) as nat,
            (j + 1) % (chain.len() as int),
        );
    }
}

} // verus!
