//! The provider contract: the capability set every extension point satisfies.
//!
//! A provider has a stable name (the registry key), a list of extensions used
//! by the default key-matching rule, a support predicate, and a selection
//! priority. The registry selects providers through this interface only.

use vstd::prelude::*;

use crate::text::default_supports;
use crate::text::extension_match;

verus! {

/// The capability contract for extension points.
///
/// Each executable method is pinned to a spec-level counterpart, so registry
/// contracts can speak about names, support and priority of stored providers.
pub trait Provider: Sized {
    /// The provider's identity, as the registry sees it; empty unless the
    /// implementor says otherwise.
    open spec fn spec_name(&self) -> Seq<char> {
        Seq::empty()
    }

    /// The extension list used by default matching; empty by default.
    open spec fn spec_extensions(&self) -> Seq<Seq<char>> {
        Seq::empty()
    }

    /// The support predicate for a key. By default a key is supported iff it
    /// ends with one of the extensions; with no extensions, nothing is.
    open spec fn spec_supports(&self, key: Seq<char>) -> bool {
        default_supports(self.spec_extensions(), key)
    }

    /// The support predicate for a path, rendered as text; by default the
    /// same as for a key.
    open spec fn spec_supports_path(&self, path: Seq<char>) -> bool {
        self.spec_supports(path)
    }

    /// The selection priority; 0 by default.
    open spec fn spec_priority(&self) -> i32 {
        0
    }

    /// Returns the unique name of this provider, used for registration and
    /// lookup in the registry.
    fn name(&self) -> (r: String)
        ensures
            r@ == self.spec_name(),
    ;

    /// Returns the extensions this provider handles; empty when the provider
    /// does not use extension-based matching.
    fn extensions(&self) -> (r: Vec<String>)
        ensures
            r.deep_view() == self.spec_extensions(),
    ;

    /// Check if this provider supports the given key (a file name, language
    /// name, format name, and the like).
    fn supports(&self, key: &str) -> (r: bool)
        ensures
            r == self.spec_supports(key@),
    ;

    /// Check if this provider supports the given path, rendered as text.
    fn supports_path(&self, path: &str) -> (r: bool)
        ensures
            r == self.spec_supports_path(path@),
    ;

    /// Returns the priority of this provider (higher = preferred). Used as
    /// the tie-break in best-match selection; negative values are legal.
    fn priority(&self) -> (r: i32)
        ensures
            r == self.spec_priority(),
    ;
}

/// `a` and `b` agree on every capability the registry selects by: name,
/// extensions, priority, and both support predicates.
pub open spec fn same_capabilities<P: Provider>(a: P, b: P) -> bool {
    &&& a.spec_name() == b.spec_name()
    &&& a.spec_extensions() == b.spec_extensions()
    &&& a.spec_priority() == b.spec_priority()
    &&& forall|k: Seq<char>| #[trigger] a.spec_supports(k) == b.spec_supports(k)
    &&& forall|p: Seq<char>| #[trigger] a.spec_supports_path(p) == b.spec_supports_path(p)
}

/// A provider that can be duplicated behind the abstract interface.
///
/// The copy must be indistinguishable from the original through every
/// `Provider` capability; a registry of such providers can be cloned.
pub trait CloneableProvider: Provider {
    /// Clone the provider into an independent boxed copy.
    fn clone_box(&self) -> (r: Box<Self>)
        ensures
            same_capabilities(*r, *self),
    ;
}

/// Extension trait for provider type checking.
pub trait ProviderExt: Provider + 'static {
    /// Check if this provider is of concrete type `T`.
    fn is<T: Provider + 'static>(&self) -> bool;

    /// Downcast this provider to concrete type `T`.
    fn downcast_ref<T: Provider + 'static>(&self) -> Option<&T>;
}

/// Relies on core::any::Any::is: a runtime check that the concrete type of
/// `x` is `T`. Nothing is claimed of the result.
#[verifier::external_body]
fn any_is<S: 'static, T: 'static>(x: &S) -> bool {
    <dyn core::any::Any>::is::<T>(x)
}

/// Relies on core::any::Any::downcast_ref: a checked cast of `x` to the
/// concrete type `T`. Nothing is claimed of the result.
#[verifier::external_body]
fn any_downcast_ref<'a, S: 'static, T: 'static>(x: &'a S) -> Option<&'a T> {
    <dyn core::any::Any>::downcast_ref::<T>(x)
}

impl<P: Provider + 'static> ProviderExt for P {
    fn is<T: Provider + 'static>(&self) -> bool {
        any_is::<Self, T>(self)
    }

    fn downcast_ref<T: Provider + 'static>(&self) -> Option<&T> {
        any_downcast_ref::<Self, T>(self)
    }
}

/// A ready-made provider selecting by name, extension suffixes and priority.
///
/// Its support predicate is the default matching rule: a key is supported iff
/// it ends with one of the extensions.
#[derive(Debug, Clone)]
pub struct SimpleProvider {
    /// The unique name.
    pub name: String,
    /// Extension suffixes for default matching.
    pub extensions: Vec<String>,
    /// Selection priority.
    pub priority: i32,
}

impl SimpleProvider {
    /// Create a provider with the given name and extensions, at priority 0.
    pub fn new(name: &str, extensions: Vec<String>) -> (r: SimpleProvider)
        ensures
            r.name@ == name@,
            r.extensions.deep_view() == extensions.deep_view(),
            r.priority == 0,
    {
        SimpleProvider { name: name.to_owned(), extensions, priority: 0 }
    }

    /// Set the priority.
    pub fn with_priority(self, priority: i32) -> (r: SimpleProvider)
        ensures
            r.name@ == self.name@,
            r.extensions.deep_view() == self.extensions.deep_view(),
            r.priority == priority,
    {
        SimpleProvider { priority, ..self }
    }
}

/// Clone a string vector; the copy holds the same texts.
fn clone_string_vec(v: &Vec<String>) -> (r: Vec<String>)
    ensures
        r.deep_view() == v.deep_view(),
{
    let r = v.clone();
    proof {
        assert forall|i: int| 0 <= i < v@.len() implies r.deep_view()[i] == v.deep_view()[i] by {
            assert(cloned::<String>(v[i], r[i]));
        }
        assert(r.deep_view() =~= v.deep_view());
    }
    r
}

impl Provider for SimpleProvider {
    open spec fn spec_name(&self) -> Seq<char> {
        self.name@
    }

    open spec fn spec_extensions(&self) -> Seq<Seq<char>> {
        self.extensions.deep_view()
    }

    open spec fn spec_supports(&self, key: Seq<char>) -> bool {
        default_supports(self.extensions.deep_view(), key)
    }

    open spec fn spec_supports_path(&self, path: Seq<char>) -> bool {
        default_supports(self.extensions.deep_view(), path)
    }

    open spec fn spec_priority(&self) -> i32 {
        self.priority
    }

    fn name(&self) -> (r: String) {
        self.name.clone()
    }

    fn extensions(&self) -> (r: Vec<String>) {
        clone_string_vec(&self.extensions)
    }

    fn supports(&self, key: &str) -> (r: bool) {
        extension_match(&self.extensions, key)
    }

    fn supports_path(&self, path: &str) -> (r: bool) {
        extension_match(&self.extensions, path)
    }

    fn priority(&self) -> (r: i32) {
        self.priority
    }
}

impl CloneableProvider for SimpleProvider {
    fn clone_box(&self) -> (r: Box<Self>) {
        Box::new(
            SimpleProvider {
                name: self.name.clone(),
                extensions: clone_string_vec(&self.extensions),
                priority: self.priority,
            },
        )
    }
}

} // verus!
