//! The resolution context threaded through compilation.
//!
//! It carries the active base-location stack (the path of keywords from
//! the schema root), the active specification draft, a borrow of the
//! shared reference registry, and the remaining resolution-depth budget
//! that guards against unbounded recursion through self-referential
//! schemas.  Validation never touches it: it exists only while a schema
//! document is compiled.

use vstd::prelude::*;
use crate::json::{Json, spec_obj_get, obj_get};
use crate::validator::clone_path;

verus! {

/// The specification draft a schema is compiled under.
#[derive(Clone, Copy, PartialEq, Eq, Structural, Debug)]
pub enum Draft {
    Draft4,
    Draft6,
    Draft7,
}

/// The shared reference registry: a lookup from location identifiers to
/// the schema fragments they designate.  How fragments got here (files,
/// caches) is a collaborator's concern; compilation only looks them up.
pub struct RefRegistry {
    pub entries: Vec<(String, Json)>,
}

impl RefRegistry {
    /// An empty registry.
    pub fn new() -> (r: RefRegistry)
        ensures
            r.entries@.len() == 0,
    {
        RefRegistry { entries: Vec::new() }
    }

    /// Make `fragment` resolvable under `key`.
    pub fn register(&mut self, key: String, fragment: Json)
        ensures
            final(self).entries@ == old(self).entries@.push((key, fragment)),
    {
        self.entries.push((key, fragment));
    }

    /// The fragment a location identifier designates, if the registry
    /// holds one.
    pub fn resolve<'a>(&'a self, key: &str) -> (r: Option<&'a Json>)
        ensures
            match r {
                Some(v) => spec_obj_get(self.entries@, key@) == Some(*v),
                None => spec_obj_get(self.entries@, key@) is None,
            },
    {
        obj_get(&self.entries, key)
    }
}

/// Appends one path segment, keeping the rest of the path intact.
pub fn push_segment(path: &mut Vec<String>, segment: &str)
    ensures
        final(path).deep_view() == old(path).deep_view().push(segment@),
{
    let ghost before = path.deep_view();
    path.push(String::from_str(segment));
    proof {
        assert forall|j: int| 0 <= j < path@.len() implies path.deep_view()[j] == before.push(
            segment@,
        )[j] by {
            if j < before.len() {
                assert(path@[j] == old(path)@[j]);
            }
        }
        assert(path.deep_view() =~= before.push(segment@));
    }
}

/// Compile-time state: the registry handle, the draft, the remaining
/// resolution-depth budget, and the base-location stack.
pub struct ResolutionContext<'a> {
    /// The shared reference registry.
    pub registry: &'a RefRegistry,
    /// The draft the document is compiled under.
    pub draft: Draft,
    /// How many more levels of nested or referenced sub-schemas may be
    /// entered before compilation is rejected.
    pub depth: usize,
    /// The path of keywords from the schema root to the fragment being
    /// compiled.
    pub schema_path: Vec<String>,
}

impl<'a> ResolutionContext<'a> {
    /// A context at the schema root with the given depth budget.
    pub fn new(registry: &'a RefRegistry, draft: Draft, depth: usize) -> (r: ResolutionContext<'a>)
        ensures
            r.registry == registry,
            r.draft == draft,
            r.depth == depth,
            r.schema_path.deep_view() == Seq::<Seq<char>>::empty(),
    {
        let r = ResolutionContext { registry, draft, depth, schema_path: Vec::new() };
        assert(r.schema_path.deep_view() =~= Seq::<Seq<char>>::empty());
        r
    }

    /// The context for a sub-schema reached through `segment`: one level
    /// of the depth budget is spent and the base-location stack grows.
    pub fn descend(&self, segment: &str) -> (r: ResolutionContext<'a>)
        requires
            self.depth > 0,
        ensures
            r.registry == self.registry,
            r.draft == self.draft,
            r.depth == self.depth - 1,
            r.schema_path.deep_view() == self.schema_path.deep_view().push(segment@),
    {
        let mut path = clone_path(&self.schema_path);
        push_segment(&mut path, segment);
        ResolutionContext {
            registry: self.registry,
            draft: self.draft,
            depth: self.depth - 1,
            schema_path: path,
        }
    }
}

} // verus!
