//! The conditional combinator family: `if` with `then` and/or `else`.
//!
//! A fragment that holds an `if` keyword compiles to one of three
//! specialized node shapes, chosen once at compile time by which of the
//! counterpart keywords are present.  An absent branch is logically
//! "always satisfied", so no runtime slot represents it.  The condition
//! collection's own diagnostics are never reported: only its boolean
//! outcome selects the branch whose diagnostics are returned.

use vstd::prelude::*;
use crate::json::{Json, spec_obj_get, obj_get};
use crate::errors::{CompilationError, CompilationErrorKind, Diagnostic, no_error};
use crate::context::ResolutionContext;
use crate::compiler::{compile_validators, error_at, spec_compile, spec_kw_conditional};
use crate::validator::{
    IfElseValidator, IfThenElseValidator, IfThenValidator, Validator, ValidatorView, all_valid,
    collection_label, if_else_view, if_then_else_view, if_then_view, spec_errors, spec_label,
    spec_valid, validate_all, view_of,
};

verus! {

impl IfThenValidator {
    /// Compiles the condition fragment and the `then` fragment, each
    /// through the recursive compiler; either failure aborts the node
    /// and propagates the underlying error unchanged.
    pub fn compile(schema: &Json, then_schema: &Json, context: &ResolutionContext) -> (r: Result<
        Validator,
        CompilationError,
    >)
        requires
            context.depth > 0,
        ensures
            ({
                let cond = spec_compile(
                    *schema,
                    context.registry.entries@,
                    context.schema_path.deep_view().push("if"@),
                    (context.depth - 1) as nat,
                );
                let thn = spec_compile(
                    *then_schema,
                    context.registry.entries@,
                    context.schema_path.deep_view().push("then"@),
                    (context.depth - 1) as nat,
                );
                match r {
                    Ok(v) => cond matches Ok(cvs) && thn matches Ok(tvs) && view_of(v)
                        == (ValidatorView::IfThen { schema: cvs, then_schema: tvs }),
                    Err(e) => match cond {
                        Err(e1) => e@ == e1,
                        Ok(_) => thn matches Err(e2) && e@ == e2,
                    },
                }
            }),
        decreases context.depth, 0int,
    {
        let sub_if = context.descend("if");
        match compile_validators(schema, &sub_if) {
            Err(e) => Err(e),
            Ok(cond) => {
                let sub_then = context.descend("then");
                match compile_validators(then_schema, &sub_then) {
                    Err(e) => Err(e),
                    Ok(thn) => Ok(
                        Validator::IfThen(
                            Box::new(IfThenValidator { schema: cond, then_schema: thn }),
                        ),
                    ),
                }
            },
        }
    }

    /// The boolean outcome: if the condition holds, the `then` branch
    /// must hold; otherwise the instance passes vacuously.
    pub fn is_valid(&self, instance: &Json) -> (r: bool)
        ensures
            r == spec_valid(if_then_view(*self), *instance),
        decreases *self,
    {
        if all_valid(&self.schema, instance) {
            all_valid(&self.then_schema, instance)
        } else {
            true
        }
    }

    /// If every condition validator holds of the instance, the `then`
    /// branch's full diagnostics; otherwise no diagnostics.
    pub fn validate(&self, instance: &Json) -> (r: Vec<Diagnostic>)
        ensures
            r.deep_view() == spec_errors(if_then_view(*self), *instance),
        decreases *self,
    {
        if all_valid(&self.schema, instance) {
            validate_all(&self.then_schema, instance)
        } else {
            no_error()
        }
    }

    /// A debug label identifying the node's compiled condition and
    /// `then` collections; for diagnostics and tracing only.
    pub fn name(&self) -> (r: String)
        ensures
            r@ == spec_label(if_then_view(*self)),
        decreases *self, 3int,
    {
        let mut r = String::from_str("<if-then: ");
        let c = collection_label(&self.schema);
        r.append(c.as_str());
        r.append(" ");
        let t = collection_label(&self.then_schema);
        r.append(t.as_str());
        r.append(">");
        r
    }
}

impl IfElseValidator {
    /// Compiles the condition fragment and the `else` fragment, each
    /// through the recursive compiler; either failure aborts the node
    /// and propagates the underlying error unchanged.
    pub fn compile(schema: &Json, else_schema: &Json, context: &ResolutionContext) -> (r: Result<
        Validator,
        CompilationError,
    >)
        requires
            context.depth > 0,
        ensures
            ({
                let cond = spec_compile(
                    *schema,
                    context.registry.entries@,
                    context.schema_path.deep_view().push("if"@),
                    (context.depth - 1) as nat,
                );
                let els = spec_compile(
                    *else_schema,
                    context.registry.entries@,
                    context.schema_path.deep_view().push("else"@),
                    (context.depth - 1) as nat,
                );
                match r {
                    Ok(v) => cond matches Ok(cvs) && els matches Ok(evs) && view_of(v)
                        == (ValidatorView::IfElse { schema: cvs, else_schema: evs }),
                    Err(e) => match cond {
                        Err(e1) => e@ == e1,
                        Ok(_) => els matches Err(e2) && e@ == e2,
                    },
                }
            }),
        decreases context.depth, 0int,
    {
        let sub_if = context.descend("if");
        match compile_validators(schema, &sub_if) {
            Err(e) => Err(e),
            Ok(cond) => {
                let sub_else = context.descend("else");
                match compile_validators(else_schema, &sub_else) {
                    Err(e) => Err(e),
                    Ok(els) => Ok(
                        Validator::IfElse(
                            Box::new(IfElseValidator { schema: cond, else_schema: els }),
                        ),
                    ),
                }
            },
        }
    }

    /// The boolean outcome: if any condition validator fails, the `else`
    /// branch must hold; otherwise the instance passes.
    pub fn is_valid(&self, instance: &Json) -> (r: bool)
        ensures
            r == spec_valid(if_else_view(*self), *instance),
        decreases *self,
    {
        if all_valid(&self.schema, instance) {
            true
        } else {
            all_valid(&self.else_schema, instance)
        }
    }

    /// If any condition validator fails of the instance, the `else`
    /// branch's full diagnostics; otherwise no diagnostics.
    pub fn validate(&self, instance: &Json) -> (r: Vec<Diagnostic>)
        ensures
            r.deep_view() == spec_errors(if_else_view(*self), *instance),
        decreases *self,
    {
        if all_valid(&self.schema, instance) {
            no_error()
        } else {
            validate_all(&self.else_schema, instance)
        }
    }

    /// A debug label identifying the node's compiled condition and
    /// `else` collections; for diagnostics and tracing only.
    pub fn name(&self) -> (r: String)
        ensures
            r@ == spec_label(if_else_view(*self)),
        decreases *self, 3int,
    {
        let mut r = String::from_str("<if-else: ");
        let c = collection_label(&self.schema);
        r.append(c.as_str());
        r.append(" ");
        let e = collection_label(&self.else_schema);
        r.append(e.as_str());
        r.append(">");
        r
    }
}

impl IfThenElseValidator {
    /// Compiles the condition fragment and both branch fragments, each
    /// through the recursive compiler; any failure aborts the node and
    /// propagates the underlying error unchanged.
    pub fn compile(
        schema: &Json,
        then_schema: &Json,
        else_schema: &Json,
        context: &ResolutionContext,
    ) -> (r: Result<Validator, CompilationError>)
        requires
            context.depth > 0,
        ensures
            ({
                let cond = spec_compile(
                    *schema,
                    context.registry.entries@,
                    context.schema_path.deep_view().push("if"@),
                    (context.depth - 1) as nat,
                );
                let thn = spec_compile(
                    *then_schema,
                    context.registry.entries@,
                    context.schema_path.deep_view().push("then"@),
                    (context.depth - 1) as nat,
                );
                let els = spec_compile(
                    *else_schema,
                    context.registry.entries@,
                    context.schema_path.deep_view().push("else"@),
                    (context.depth - 1) as nat,
                );
                match r {
                    Ok(v) => cond matches Ok(cvs) && thn matches Ok(tvs) && els matches Ok(evs)
                        && view_of(v) == (ValidatorView::IfThenElse {
                        schema: cvs,
                        then_schema: tvs,
                        else_schema: evs,
                    }),
                    Err(e) => match cond {
                        Err(e1) => e@ == e1,
                        Ok(_) => match thn {
                            Err(e2) => e@ == e2,
                            Ok(_) => els matches Err(e3) && e@ == e3,
                        },
                    },
                }
            }),
        decreases context.depth, 0int,
    {
        let sub_if = context.descend("if");
        match compile_validators(schema, &sub_if) {
            Err(e) => Err(e),
            Ok(cond) => {
                let sub_then = context.descend("then");
                match compile_validators(then_schema, &sub_then) {
                    Err(e) => Err(e),
                    Ok(thn) => {
                        let sub_else = context.descend("else");
                        match compile_validators(else_schema, &sub_else) {
                            Err(e) => Err(e),
                            Ok(els) => Ok(
                                Validator::IfThenElse(
                                    Box::new(
                                        IfThenElseValidator {
                                            schema: cond,
                                            then_schema: thn,
                                            else_schema: els,
                                        },
                                    ),
                                ),
                            ),
                        }
                    },
                }
            },
        }
    }

    /// The boolean outcome: the condition selects which branch must hold.
    pub fn is_valid(&self, instance: &Json) -> (r: bool)
        ensures
            r == spec_valid(if_then_else_view(*self), *instance),
        decreases *self,
    {
        if all_valid(&self.schema, instance) {
            all_valid(&self.then_schema, instance)
        } else {
            all_valid(&self.else_schema, instance)
        }
    }

    /// The condition selects the branch whose full diagnostics are
    /// returned verbatim.
    pub fn validate(&self, instance: &Json) -> (r: Vec<Diagnostic>)
        ensures
            r.deep_view() == spec_errors(if_then_else_view(*self), *instance),
        decreases *self,
    {
        if all_valid(&self.schema, instance) {
            validate_all(&self.then_schema, instance)
        } else {
            validate_all(&self.else_schema, instance)
        }
    }

    /// A debug label identifying the node's compiled condition and both
    /// branch collections; for diagnostics and tracing only.
    pub fn name(&self) -> (r: String)
        ensures
            r@ == spec_label(if_then_else_view(*self)),
        decreases *self, 3int,
    {
        let mut r = String::from_str("<if-then-else: ");
        let c = collection_label(&self.schema);
        r.append(c.as_str());
        r.append(" ");
        let t = collection_label(&self.then_schema);
        r.append(t.as_str());
        r.append(" ");
        let e = collection_label(&self.else_schema);
        r.append(e.as_str());
        r.append(">");
        r
    }
}

/// The `if` keyword's compiler: dispatched when a fragment holds an
/// `if` keyword, whose value is `schema`.  Inspects which of `then` and
/// `else` are also present in the parent fragment and selects one of the
/// three specialized node shapes; with neither present the keyword
/// contributes nothing.
pub fn compile(parent: &Vec<(String, Json)>, schema: &Json, context: &ResolutionContext) -> (r:
    Option<Result<Validator, CompilationError>>)
    requires
        spec_obj_get(parent@, "if"@) == Some(*schema),
    ensures
        ({
            let outcome = spec_kw_conditional(
                parent@,
                context.registry.entries@,
                context.schema_path.deep_view(),
                context.depth as nat,
            );
            match r {
                None => outcome == Ok::<Seq<ValidatorView>, crate::errors::CompilationErrorView>(Seq::<ValidatorView>::empty()),
                Some(res) => match res {
                    Ok(v) => outcome == Ok::<Seq<ValidatorView>, crate::errors::CompilationErrorView>(seq![view_of(v)]),
                    Err(e) => outcome == Err::<Seq<ValidatorView>, crate::errors::CompilationErrorView>(e@),
                },
            }
        }),
    decreases context.depth, 1int,
{
    proof {
        reveal(crate::compiler::spec_kw_conditional);
    }
    let then_frag = obj_get(parent, "then");
    let else_frag = obj_get(parent, "else");
    if then_frag.is_none() && else_frag.is_none() {
        return None;
    }
    if context.depth == 0 {
        return Some(
            Err(error_at(&context.schema_path, "if", CompilationErrorKind::DepthExceeded)),
        );
    }
    match (then_frag, else_frag) {
        (Some(tf), Some(ef)) => Some(IfThenElseValidator::compile(schema, tf, ef, context)),
        (Some(tf), None) => Some(IfThenValidator::compile(schema, tf, context)),
        (None, Some(ef)) => Some(IfElseValidator::compile(schema, ef, context)),
        (None, None) => None,
    }
}

} // verus!
