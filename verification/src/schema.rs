//! The root schema object: a fully compiled, immutable validator tree
//! together with the reference registry it was compiled against.
//!
//! Compilation either yields this object or fails as a whole: no
//! partial tree is ever exposed.  Once built, the object is read-only;
//! `is_valid` and `validate` never mutate it, so it can be shared
//! across any number of concurrent validation calls.

use vstd::prelude::*;
use crate::json::Json;
use crate::errors::{CompilationError, CompilationErrorView, Diagnostic};
use crate::context::{Draft, RefRegistry, ResolutionContext};
use crate::compiler::{compile_validators, spec_compile};
use crate::validator::{Validator, ValidatorView, all_valid, spec_errors_all, spec_valid_all, validate_all, views_of};

verus! {

/// A compiled schema document: the validator tree, the registry, and
/// the draft it was compiled under.
pub struct JSONSchema {
    /// The compiled validator collection of the root fragment.
    pub validators: Vec<Validator>,
    /// The reference registry the document was compiled against.
    pub registry: RefRegistry,
    /// The draft the document was compiled under.
    pub draft: Draft,
}

impl JSONSchema {
    /// What this schema accepts: the conjunction of its root validators.
    pub open spec fn spec_is_valid(&self, instance: Json) -> bool {
        spec_valid_all(views_of(self.validators@), instance)
    }

    /// Compiles a whole schema document against a registry, with
    /// `depth` budget levels for nested and referenced sub-schemas.
    /// The result is exactly what the compiler's model says: either a
    /// root object owning the compiled tree, or the model's error.
    pub fn compile(schema: &Json, registry: RefRegistry, draft: Draft, depth: usize) -> (r: Result<
        JSONSchema,
        CompilationError,
    >)
        ensures
            match r {
                Ok(s) => spec_compile(*schema, registry.entries@, Seq::empty(), depth as nat)
                    == Ok::<Seq<ValidatorView>, CompilationErrorView>(views_of(s.validators@))
                    && s.registry == registry && s.draft == draft,
                Err(e) => spec_compile(*schema, registry.entries@, Seq::empty(), depth as nat)
                    == Err::<Seq<ValidatorView>, CompilationErrorView>(e@),
            },
    {
        let context = ResolutionContext::new(&registry, draft, depth);
        match compile_validators(schema, &context) {
            Ok(vs) => Ok(JSONSchema { validators: vs, registry, draft }),
            Err(e) => Err(e),
        }
    }

    /// The cheap boolean check at the root: does the instance satisfy
    /// every compiled root validator?  Allocates no diagnostics.
    pub fn is_valid(&self, instance: &Json) -> (r: bool)
        ensures
            r == self.spec_is_valid(*instance),
    {
        all_valid(&self.validators, instance)
    }

    /// Every constraint the instance violates, in compiled order.
    /// Empty exactly when the instance is valid.
    pub fn validate(&self, instance: &Json) -> (r: Vec<Diagnostic>)
        ensures
            r.deep_view() == spec_errors_all(views_of(self.validators@), *instance),
    {
        validate_all(&self.validators, instance)
    }
}

} // verus!
