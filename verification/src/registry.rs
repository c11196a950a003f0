//! The registry: an ordered, name-keyed container of providers.
//!
//! The registry owns its providers, keyed by their unique names, and keeps
//! the registration order. Lookups select by exact name, by first match in
//! registration order, by all matches, or by highest priority. Selection
//! order is registration order, never an arbitrary container order, so a
//! caller controls tie-break precedence by registering earlier. Among equal
//! maximal priorities, `find_best` prefers the provider registered last.

use vstd::prelude::*;
use vstd::pervasive::VecAdditionalExecFns;

use crate::error::RegistryError;
use crate::provider::CloneableProvider;
use crate::provider::Provider;
use crate::provider::same_capabilities;
use crate::text::str_eq;

verus! {

/// The names of the providers, in registration order.
pub open spec fn names_of<P: Provider>(s: Seq<P>) -> Seq<Seq<char>> {
    s.map_values(|p: P| p.spec_name())
}

/// Some provider in `s` carries `name`.
pub open spec fn has_name<P: Provider>(s: Seq<P>, name: Seq<char>) -> bool {
    exists|i: int| 0 <= i < s.len() && s[i].spec_name() == name
}

/// An index of the provider carrying `name`; with distinct names, the index.
pub open spec fn name_index<P: Provider>(s: Seq<P>, name: Seq<char>) -> int {
    choose|i: int| 0 <= i < s.len() && s[i].spec_name() == name
}

/// No two providers share a name.
pub open spec fn distinct_names<P: Provider>(s: Seq<P>) -> bool {
    forall|i: int, j: int|
        0 <= i < j < s.len() ==> s[i].spec_name() != s[j].spec_name()
}

/// The provider at `i` supports `key`.
pub open spec fn supporter_at<P: Provider>(s: Seq<P>, key: Seq<char>, i: int) -> bool {
    0 <= i < s.len() && s[i].spec_supports(key)
}

/// Some provider in `s` supports `key`.
pub open spec fn has_supporter<P: Provider>(s: Seq<P>, key: Seq<char>) -> bool {
    exists|i: int| supporter_at(s, key, i)
}

/// The provider at `i` is the earliest-registered supporter of `key`.
pub open spec fn is_first_supporter<P: Provider>(s: Seq<P>, key: Seq<char>, i: int) -> bool {
    &&& supporter_at(s, key, i)
    &&& forall|j: int| 0 <= j < i ==> !s[j].spec_supports(key)
}

/// The provider at `i` supports the path `p`.
pub open spec fn path_supporter_at<P: Provider>(s: Seq<P>, path: Seq<char>, i: int) -> bool {
    0 <= i < s.len() && s[i].spec_supports_path(path)
}

/// Some provider in `s` supports the path.
pub open spec fn has_path_supporter<P: Provider>(s: Seq<P>, path: Seq<char>) -> bool {
    exists|i: int| path_supporter_at(s, path, i)
}

/// The provider at `i` is the earliest-registered supporter of the path.
pub open spec fn is_first_path_supporter<P: Provider>(s: Seq<P>, path: Seq<char>, i: int) -> bool {
    &&& path_supporter_at(s, path, i)
    &&& forall|j: int| 0 <= j < i ==> !s[j].spec_supports_path(path)
}

/// The provider at `i` supports `key` with the highest priority; among equal
/// priorities, it is the one registered last.
pub open spec fn is_best_supporter<P: Provider>(s: Seq<P>, key: Seq<char>, i: int) -> bool {
    &&& supporter_at(s, key, i)
    &&& forall|j: int|
        #[trigger] supporter_at(s, key, j) && j != i ==> s[j].spec_priority()
            < s[i].spec_priority() || (s[j].spec_priority() == s[i].spec_priority() && j < i)
}

/// With `name` present, `name_index` is a valid index carrying it.
pub proof fn lemma_name_index_valid<P: Provider>(s: Seq<P>, name: Seq<char>)
    requires
        has_name(s, name),
    ensures
        0 <= name_index(s, name) < s.len(),
        s[name_index(s, name)].spec_name() == name,
{
}

/// With distinct names, the index carrying a name is unique.
pub proof fn lemma_name_index_unique<P: Provider>(s: Seq<P>, name: Seq<char>, i: int)
    requires
        distinct_names(s),
        0 <= i < s.len(),
        s[i].spec_name() == name,
    ensures
        name_index(s, name) == i,
        has_name(s, name),
{
    assert(has_name(s, name));
    lemma_name_index_valid(s, name);
}

/// A registry for managing providers.
///
/// Stores providers under their names (unique keys) in registration order.
/// Its view is the stored providers as a sequence in that order, and its
/// invariant is that no two of them share a name.
#[derive(Debug)]
pub struct Registry<P> {
    providers: Vec<P>,
}

impl<P> View for Registry<P> {
    type V = Seq<P>;

    closed spec fn view(&self) -> Seq<P> {
        self.providers@
    }
}

impl<P: Provider> Registry<P> {
    /// The registry's invariant: registered names are distinct.
    pub open spec fn wf(&self) -> bool {
        distinct_names(self@)
    }

    /// Create a new empty registry.
    pub fn new() -> (r: Self)
        ensures
            r@ == Seq::<P>::empty(),
            r.wf(),
    {
        let r = Registry { providers: Vec::new() };
        proof {
            assert(r@ =~= Seq::<P>::empty());
        }
        r
    }

    /// The position of the provider registered under `name`, if any.
    fn index_of(&self, name: &str) -> (r: Option<usize>)
        ensures
            r matches Some(i) ==> {
                &&& i < self@.len()
                &&& self@[i as int].spec_name() == name@
                &&& forall|j: int| 0 <= j < i ==> self@[j].spec_name() != name@
            },
            (r is Some) <==> has_name(self@, name@),
    {
        let n = self.providers.len();
        let mut i: usize = 0;
        while i < n
            invariant
                n == self@.len(),
                0 <= i <= n,
                forall|j: int| 0 <= j < i ==> self@[j].spec_name() != name@,
            decreases n - i,
        {
            let pname = self.providers[i].name();
            if str_eq(pname.as_str(), name) {
                return Some(i);
            }
            i += 1;
        }
        None
    }

    /// Register a provider under its name. A new name is appended to the
    /// order; an existing name has its provider replaced in place, keeping
    /// its first-registration position.
    pub fn register(&mut self, provider: P)
        requires
            old(self).wf(),
        ensures
            final(self).wf(),
            has_name(old(self)@, provider.spec_name()) ==> final(self)@ == old(self)@.update(
                name_index(old(self)@, provider.spec_name()),
                provider,
            ),
            !has_name(old(self)@, provider.spec_name()) ==> final(self)@ == old(self)@.push(
                provider,
            ),
            names_of(final(self)@) == if has_name(old(self)@, provider.spec_name()) {
                names_of(old(self)@)
            } else {
                names_of(old(self)@).push(provider.spec_name())
            },
            final(self)@ == registered(old(self)@, provider),
    {
        let name = provider.name();
        match self.index_of(name.as_str()) {
            Some(i) => {
                proof {
                    lemma_name_index_unique(self@, provider.spec_name(), i as int);
                }
                self.providers.set(i, provider);
                proof {
                    assert(names_of(self@) =~= names_of(old(self)@));
                    assert(self.wf());
                }
            },
            None => {
                self.providers.push(provider);
                proof {
                    assert(names_of(self@) =~= names_of(old(self)@).push(provider.spec_name()));
                    assert forall|i: int, j: int| 0 <= i < j < self@.len() implies self@[i].spec_name()
                        != self@[j].spec_name() by {
                        if j == self@.len() - 1 {
                            assert(self@[i] == old(self)@[i]);
                        }
                    }
                }
            },
        }
    }

    /// Register a provider, failing with `AlreadyRegistered` when its name is
    /// taken; on failure the registry is unchanged.
    pub fn register_unique(&mut self, provider: P) -> (r: Result<(), RegistryError>)
        requires
            old(self).wf(),
        ensures
            final(self).wf(),
            has_name(old(self)@, provider.spec_name()) ==> {
                &&& final(self)@ == old(self)@
                &&& r matches Err(e) && e matches RegistryError::AlreadyRegistered(n) && n@
                    == provider.spec_name()
            },
            !has_name(old(self)@, provider.spec_name()) ==> {
                &&& final(self)@ == old(self)@.push(provider)
                &&& r is Ok
            },
    {
        let name = provider.name();
        match self.index_of(name.as_str()) {
            Some(_) => Err(RegistryError::AlreadyRegistered(name)),
            None => {
                self.providers.push(provider);
                proof {
                    assert forall|i: int, j: int| 0 <= i < j < self@.len() implies self@[i].spec_name()
                        != self@[j].spec_name() by {
                        if j == self@.len() - 1 {
                            assert(self@[i] == old(self)@[i]);
                        }
                    }
                }
                Ok(())
            },
        }
    }

    /// Get a provider by exact name.
    pub fn get(&self, name: &str) -> (r: Option<&P>)
        requires
            self.wf(),
        ensures
            (r is Some) <==> has_name(self@, name@),
            r matches Some(p) ==> has_name(self@, name@) && *p == self@[name_index(
                self@,
                name@,
            )],
    {
        match self.index_of(name) {
            Some(i) => {
                proof {
                    lemma_name_index_unique(self@, name@, i as int);
                }
                Some(&self.providers[i])
            },
            None => None,
        }
    }

    /// Check if a provider is registered under `name`.
    pub fn contains(&self, name: &str) -> (r: bool)
        ensures
            r == has_name(self@, name@),
    {
        self.index_of(name).is_some()
    }

    /// The number of registered providers.
    pub fn len(&self) -> (r: usize)
        ensures
            r == self@.len(),
    {
        self.providers.len()
    }

    /// Whether the registry is empty.
    pub fn is_empty(&self) -> (r: bool)
        ensures
            r == (self@.len() == 0),
    {
        self.providers.is_empty()
    }

    /// Get a mutable provider by exact name.
    pub fn get_mut(&mut self, name: &str) -> (r: Option<&mut P>)
        requires
            old(self).wf(),
        ensures
            (r is Some) <==> has_name(old(self)@, name@),
            r matches Some(p) ==> {
                &&& *p == old(self)@[name_index(old(self)@, name@)]
                &&& final(self)@ == old(self)@.update(name_index(old(self)@, name@), *final(p))
                &&& ((*final(p)).spec_name() == name@ ==> final(self).wf())
            },
            r is None ==> final(self)@ == old(self)@ && final(self).wf(),
    {
        let idx = self.index_of(name);
        match idx {
            Some(i) => {
                proof {
                    lemma_name_index_unique(self@, name@, i as int);
                }
                Some(&mut self.providers[i])
            },
            None => None,
        }
    }

    /// Find the earliest-registered provider that supports the given key.
    /// Providers are scanned in registration order.
    pub fn find(&self, key: &str) -> (r: Option<&P>)
        ensures
            (r is Some) <==> has_supporter(self@, key@),
            r matches Some(p) ==> exists|i: int|
                #[trigger] is_first_supporter(self@, key@, i) && *p == self@[i],
    {
        let n = self.providers.len();
        let mut i: usize = 0;
        while i < n
            invariant
                n == self@.len(),
                0 <= i <= n,
                forall|j: int| 0 <= j < i ==> !self@[j].spec_supports(key@),
            decreases n - i,
        {
            if self.providers[i].supports(key) {
                proof {
                    assert(is_first_supporter(self@, key@, i as int));
                }
                return Some(&self.providers[i]);
            }
            i += 1;
        }
        None
    }

    /// Find the earliest-registered provider that supports the given path.
    pub fn find_by_path(&self, path: &str) -> (r: Option<&P>)
        ensures
            (r is Some) <==> has_path_supporter(self@, path@),
            r matches Some(p) ==> exists|i: int|
                #[trigger] is_first_path_supporter(self@, path@, i) && *p == self@[i],
    {
        let n = self.providers.len();
        let mut i: usize = 0;
        while i < n
            invariant
                n == self@.len(),
                0 <= i <= n,
                forall|j: int| 0 <= j < i ==> !self@[j].spec_supports_path(path@),
            decreases n - i,
        {
            if self.providers[i].supports_path(path) {
                proof {
                    assert(is_first_path_supporter(self@, path@, i as int));
                }
                return Some(&self.providers[i]);
            }
            i += 1;
        }
        None
    }

    /// Find the best provider for the given key: the one with the highest
    /// priority among those that support it. Among equal maximal priorities,
    /// the provider registered last wins.
    pub fn find_best(&self, key: &str) -> (r: Option<&P>)
        ensures
            (r is Some) <==> has_supporter(self@, key@),
            r matches Some(p) ==> exists|i: int|
                #[trigger] is_best_supporter(self@, key@, i) && *p == self@[i],
    {
        let n = self.providers.len();
        let mut best: Option<usize> = None;
        let mut i: usize = 0;
        while i < n
            invariant
                n == self@.len(),
                0 <= i <= n,
                best is None ==> forall|j: int| 0 <= j < i ==> !self@[j].spec_supports(key@),
                best matches Some(b) ==> {
                    &&& b < i
                    &&& self@[b as int].spec_supports(key@)
                    &&& forall|j: int|
                        0 <= j < i && j != b && #[trigger] self@[j].spec_supports(key@)
                            ==> self@[j].spec_priority() < self@[b as int].spec_priority() || (
                            self@[j].spec_priority() == self@[b as int].spec_priority() && j < b)
                },
            decreases n - i,
        {
            if self.providers[i].supports(key) {
                match best {
                    None => {
                        best = Some(i);
                    },
                    Some(b) => {
                        if self.providers[i].priority() >= self.providers[b].priority() {
                            best = Some(i);
                        }
                    },
                }
            }
            i += 1;
        }
        match best {
            Some(b) => {
                proof {
                    assert(is_best_supporter(self@, key@, b as int));
                }
                Some(&self.providers[b])
            },
            None => None,
        }
    }

    /// Find all providers that support the given key, in registration order.
    pub fn find_all(&self, key: &str) -> (r: Vec<&P>)
        ensures
            r@.map_values(|p: &P| *p) == self@.filter(|p: P| p.spec_supports(key@)),
    {
        broadcast use vstd::seq_lib::group_filter_ensures;

        let n = self.providers.len();
        let mut r: Vec<&P> = Vec::new();
        let mut i: usize = 0;
        while i < n
            invariant
                n == self@.len(),
                0 <= i <= n,
                r@.map_values(|p: &P| *p) == self@.subrange(0, i as int).filter(
                    |p: P| p.spec_supports(key@)
                ),
            decreases n - i,
        {
            let ghost prefix = self@.subrange(0, i as int);
            proof {
                prefix.lemma_filter_push(self@[i as int], |p: P| p.spec_supports(key@));
                assert(self@.subrange(0, i + 1) =~= prefix.push(self@[i as int]));
            }
            let ghost pre_r = r@;
            if self.providers[i].supports(key) {
                r.push(&self.providers[i]);
                proof {
                    assert(r@.map_values(|p: &P| *p) =~= pre_r.map_values(|p: &P| *p).push(
                        self@[i as int],
                    ));
                }
            }
            i += 1;
        }
        proof {
            assert(self@.subrange(0, n as int) =~= self@);
        }
        r
    }

    /// The names of all registered providers, in registration order.
    pub fn names(&self) -> (r: Vec<String>)
        ensures
            r.deep_view() == names_of(self@),
    {
        let n = self.providers.len();
        let mut r: Vec<String> = Vec::new();
        let mut i: usize = 0;
        while i < n
            invariant
                n == self@.len(),
                0 <= i <= n,
                r@.len() == i,
                forall|j: int| 0 <= j < i ==> r@[j]@ == self@[j].spec_name(),
            decreases n - i,
        {
            r.push(self.providers[i].name());
            i += 1;
        }
        proof {
            assert forall|j: int| 0 <= j < r@.len() implies r.deep_view()[j]
                == self@[j].spec_name() by {
                assert(r.deep_view()[j] == r@[j]@);
            }
            assert(r.deep_view() =~= names_of(self@));
        }
        r
    }

    /// All registered providers, in registration order.
    pub fn providers(&self) -> (r: Vec<&P>)
        ensures
            r@.map_values(|p: &P| *p) == self@,
    {
        let n = self.providers.len();
        let mut r: Vec<&P> = Vec::new();
        let mut i: usize = 0;
        while i < n
            invariant
                n == self@.len(),
                0 <= i <= n,
                r@.len() == i,
                forall|j: int| 0 <= j < i ==> *r@[j] == self@[j],
            decreases n - i,
        {
            r.push(&self.providers[i]);
            i += 1;
        }
        proof {
            assert(r@.map_values(|p: &P| *p) =~= self@);
        }
        r
    }

    /// A traversal of all providers in registration order.
    pub fn iter(&self) -> (r: Vec<&P>)
        ensures
            r@.map_values(|p: &P| *p) == self@,
    {
        self.providers()
    }

    /// Remove a provider by name, returning it, or nothing when the name is
    /// absent.
    pub fn remove(&mut self, name: &str) -> (r: Option<P>)
        requires
            old(self).wf(),
        ensures
            final(self).wf(),
            (r is Some) <==> has_name(old(self)@, name@),
            r matches Some(p) ==> {
                &&& p == old(self)@[name_index(old(self)@, name@)]
                &&& final(self)@ == old(self)@.remove(name_index(old(self)@, name@))
                &&& !has_name(final(self)@, name@)
                &&& final(self)@.len() == old(self)@.len() - 1
            },
            r is None ==> final(self)@ == old(self)@,
    {
        let idx = self.index_of(name);
        match idx {
            Some(i) => {
                proof {
                    lemma_name_index_unique(self@, name@, i as int);
                }
                let p = self.providers.remove(i);
                proof {
                    let pre = old(self)@;
                    let post = self@;
                    assert forall|a: int, b: int| 0 <= a < b < post.len() implies post[a].spec_name()
                        != post[b].spec_name() by {
                        if b < i as int {
                        } else if a < i as int {
                            assert(post[b] == pre[b + 1]);
                        } else {
                            assert(post[a] == pre[a + 1]);
                            assert(post[b] == pre[b + 1]);
                        }
                    }
                    assert forall|a: int| 0 <= a < post.len() implies post[a].spec_name() != name@
                        by {
                        if a < i as int {
                        } else {
                            assert(post[a] == pre[a + 1]);
                        }
                    }
                }
                Some(p)
            },
            None => None,
        }
    }

    /// Remove all providers.
    pub fn clear(&mut self)
        ensures
            final(self)@ == Seq::<P>::empty(),
            final(self).wf(),
    {
        self.providers.clear();
        proof {
            assert(self@ =~= Seq::<P>::empty());
        }
    }
}

impl<P: Provider> Default for Registry<P> {
    /// An empty registry.
    fn default() -> (r: Self)
        ensures
            r@ == Seq::<P>::empty(),
            r.wf(),
    {
        Registry::new()
    }
}

impl<P: CloneableProvider> Registry<P> {
    /// Clone the registry and all its providers.
    ///
    /// Produces a fully independent copy: order is preserved and each copied
    /// provider has the capabilities of the original. Available only for
    /// registries of cloneable providers.
    pub fn clone(&self) -> (r: Self)
        requires
            self.wf(),
        ensures
            r.wf(),
            r@.len() == self@.len(),
            forall|i: int| 0 <= i < self@.len() ==> #[trigger] same_capabilities(r@[i], self@[i]),
            names_of(r@) == names_of(self@),
    {
        let n = self.providers.len();
        let mut v: Vec<P> = Vec::new();
        let mut i: usize = 0;
        while i < n
            invariant
                n == self@.len(),
                0 <= i <= n,
                v@.len() == i,
                forall|j: int| 0 <= j < i ==> #[trigger] same_capabilities(v@[j], self@[j]),
            decreases n - i,
        {
            let copy = self.providers[i].clone_box();
            v.push(*copy);
            i += 1;
        }
        let r = Registry { providers: v };
        proof {
            assert forall|a: int, b: int| 0 <= a < b < r@.len() implies r@[a].spec_name()
                != r@[b].spec_name() by {
                assert(same_capabilities(r@[a], self@[a]));
                assert(same_capabilities(r@[b], self@[b]));
            }
            assert forall|i: int| 0 <= i < r@.len() implies names_of(r@)[i] == names_of(self@)[i]
                by {
                assert(same_capabilities(r@[i], self@[i]));
            }
            assert(names_of(r@) =~= names_of(self@));
        }
        r
    }
}

/// Builder for creating registries with a fluent interface.
pub struct RegistryBuilder<P> {
    registry: Registry<P>,
}

impl<P> View for RegistryBuilder<P> {
    type V = Seq<P>;

    closed spec fn view(&self) -> Seq<P> {
        self.registry@
    }
}

impl<P: Provider> RegistryBuilder<P> {
    /// The builder's invariant: collected names are distinct.
    pub open spec fn wf(&self) -> bool {
        distinct_names(self@)
    }

    /// Create a new registry builder.
    pub fn new() -> (r: Self)
        ensures
            r@ == Seq::<P>::empty(),
            r.wf(),
    {
        RegistryBuilder { registry: Registry::new() }
    }

    /// Add a provider; a repeated name replaces the provider in place, as
    /// `register` does.
    pub fn with(self, provider: P) -> (r: Self)
        requires
            self.wf(),
        ensures
            r.wf(),
            has_name(self@, provider.spec_name()) ==> r@ == self@.update(
                name_index(self@, provider.spec_name()),
                provider,
            ),
            !has_name(self@, provider.spec_name()) ==> r@ == self@.push(provider),
            r@ == registered(self@, provider),
    {
        let mut b = self;
        b.registry.register(provider);
        b
    }

    /// Build the registry.
    pub fn build(self) -> (r: Registry<P>)
        ensures
            r@ == self@,
            self.wf() ==> r.wf(),
    {
        self.registry
    }
}

impl<P: Provider> Default for RegistryBuilder<P> {
    /// An empty builder.
    fn default() -> (r: Self)
        ensures
            r@ == Seq::<P>::empty(),
            r.wf(),
    {
        RegistryBuilder::new()
    }
}

/// What one `register` call leaves in a registry with contents `s`.
pub open spec fn registered<P: Provider>(s: Seq<P>, p: P) -> Seq<P> {
    if has_name(s, p.spec_name()) {
        s.update(name_index(s, p.spec_name()), p)
    } else {
        s.push(p)
    }
}

/// What a sequence of `register` calls, one per element of `ps` in order,
/// leaves in a registry with contents `s`.
pub open spec fn register_each<P: Provider>(s: Seq<P>, ps: Seq<P>) -> Seq<P>
    decreases ps.len(),
{
    if ps.len() == 0 {
        s
    } else {
        register_each(registered(s, ps[0]), ps.drop_first())
    }
}

/// Law: registering providers whose names are distinct, and fresh to the
/// registry, appends each in turn — so the registered names equal the call
/// order. From an empty registry, `register_each(Seq::empty(), ps)` is `ps`
/// itself and the names are `names_of(ps)`.
pub proof fn lemma_names_follow_call_order<P: Provider>(s: Seq<P>, ps: Seq<P>)
    requires
        distinct_names(s + ps),
    ensures
        register_each(s, ps) == s + ps,
        names_of(register_each(s, ps)) == names_of(s) + names_of(ps),
    decreases ps.len(),
{
    if ps.len() == 0 {
        assert(s + ps =~= s);
        assert(names_of(s) + names_of(ps) =~= names_of(s));
    } else {
        let p = ps[0];
        let combined = s + ps;
        assert forall|i: int| 0 <= i < s.len() implies s[i].spec_name() != p.spec_name() by {
            assert(combined[i] == s[i]);
            assert(combined[s.len() as int] == p);
        }
        assert(!has_name(s, p.spec_name()));
        assert(registered(s, p) == s.push(p));
        assert(s.push(p) + ps.drop_first() =~= s + ps);
        lemma_names_follow_call_order(s.push(p), ps.drop_first());
        assert(register_each(s, ps) == s + ps);
        assert(names_of(register_each(s, ps)) =~= names_of(s) + names_of(ps));
    }
}

/// Law: two providers at distinct positions cannot both be the earliest
/// supporter of a key, so `find`'s contract pins its result to one provider.
pub proof fn lemma_first_supporter_unique<P: Provider>(s: Seq<P>, key: Seq<char>, i: int, j: int)
    requires
        is_first_supporter(s, key, i),
        is_first_supporter(s, key, j),
    ensures
        i == j,
{
}

/// Law: two providers at distinct positions cannot both be the best
/// supporter of a key, so `find_best`'s contract pins its result to one
/// provider.
pub proof fn lemma_best_supporter_unique<P: Provider>(s: Seq<P>, key: Seq<char>, i: int, j: int)
    requires
        is_best_supporter(s, key, i),
        is_best_supporter(s, key, j),
    ensures
        i == j,
{
    if i != j {
        assert(supporter_at(s, key, i));
        assert(supporter_at(s, key, j));
    }
}

/// Law: a supporter of `key` whose priority is strictly above every other
/// supporter's is the best match, wherever it stands in the registration
/// order; `find_best` therefore returns it.
pub proof fn lemma_highest_priority_wins<P: Provider>(s: Seq<P>, key: Seq<char>, i: int)
    requires
        supporter_at(s, key, i),
        forall|j: int|
            #[trigger] supporter_at(s, key, j) && j != i ==> s[j].spec_priority()
                < s[i].spec_priority(),
    ensures
        is_best_supporter(s, key, i),
        forall|j: int| #[trigger] is_best_supporter(s, key, j) ==> j == i,
{
    assert forall|j: int| #[trigger] is_best_supporter(s, key, j) implies j == i by {
        lemma_best_supporter_unique(s, key, i, j);
    }
}

/// Law: once a provider with a name is registered, that name is taken — a
/// second `register_unique` of a provider with the same name must, by its
/// contract, fail with `AlreadyRegistered` and leave the registry in the
/// state the first call produced.
pub proof fn lemma_register_unique_idempotent<P: Provider>(pre: Seq<P>, p1: P, p2: P)
    requires
        p2.spec_name() == p1.spec_name(),
        !has_name(pre, p1.spec_name()),
    ensures
        has_name(pre.push(p1), p2.spec_name()),
{
    assert(pre.push(p1)[pre.len() as int] == p1);
}

} // verus!
