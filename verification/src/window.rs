//! Idempotent creation of the named application window.
//!
//! The registrar mirrors the set of live window names and decides whether a
//! window still has to be created: `ensure` creates a name only if it is not
//! already present, so no name ever occurs twice. The window resource itself
//! is built at the boundary exactly when `ensure` says so.

use vstd::prelude::*;

verus! {

/// The views of a sequence of owned names.
pub open spec fn views_of(names: Seq<String>) -> Seq<Seq<char>> {
    names.map_values(|s: String| s@)
}

/// Holds when `n` occurs among `names`.
pub open spec fn name_among(names: Seq<Seq<char>>, n: Seq<char>) -> bool {
    exists|i: int| 0 <= i < names.len() && names[i] == n
}

/// Holds when no name occurs twice among `names`.
pub open spec fn names_distinct(names: Seq<Seq<char>>) -> bool {
    forall|i: int, j: int| 0 <= i < j < names.len() ==> names[i] != names[j]
}

/// How many times `n` occurs among `names`.
pub open spec fn name_count(names: Seq<Seq<char>>, n: Seq<char>) -> nat
    decreases names.len(),
{
    if names.len() == 0 {
        0
    } else {
        name_count(names.drop_last(), n) + (if names.last() == n {
            1nat
        } else {
            0nat
        })
    }
}

/// The registry's names after ensuring `n`: unchanged if `n` is already
/// present, extended by `n` otherwise.
pub open spec fn ensured(names: Seq<Seq<char>>, n: Seq<char>) -> Seq<Seq<char>> {
    if name_among(names, n) {
        names
    } else {
        names.push(n)
    }
}

/// The registrar's mirror of the live window names.
pub struct WindowRegistry {
    names: Vec<String>,
}

impl WindowRegistry {
    /// The registered names, in creation order.
    pub closed spec fn names_seq(&self) -> Seq<Seq<char>> {
        views_of(self.names@)
    }

    /// Whether a window with this name is registered.
    pub open spec fn has_name(&self, n: Seq<char>) -> bool {
        name_among(self.names_seq(), n)
    }

    /// The registrar's invariant: no window name occurs twice.
    pub open spec fn wf(&self) -> bool {
        names_distinct(self.names_seq())
    }

    /// A registry with no windows yet.
    pub fn new() -> (r: Self)
        ensures
            r.wf(),
            r.names_seq() == Seq::<Seq<char>>::empty(),
    {
        let r = WindowRegistry { names: Vec::new() };
        proof {
            assert(r.names_seq() =~= Seq::<Seq<char>>::empty());
        }
        r
    }

    /// How many windows are registered.
    pub fn len(&self) -> (n: usize)
        ensures
            n == self.names_seq().len(),
    {
        self.names.len()
    }

    /// Whether a window with this name is registered.
    pub fn contains(&self, name: &String) -> (r: bool)
        ensures
            r == self.has_name(name@),
    {
        let n = self.names.len();
        let mut i: usize = 0;
        while i < n
            invariant
                n == self.names@.len(),
                i <= n,
                forall|j: int| 0 <= j < i ==> self.names_seq()[j] != name@,
            decreases n - i,
        {
            if self.names[i] == *name {
                proof {
                    assert(self.names_seq()[i as int] == name@);
                }
                return true;
            }
            i = i + 1;
        }
        false
    }

    /// Ensures exactly one window with this name exists: registers it and
    /// answers `true` — telling the boundary to create the window resource —
    /// only if the name is absent; answers `false` and changes nothing if it
    /// is already present.
    pub fn ensure(&mut self, name: &String) -> (created: bool)
        requires
            old(self).wf(),
        ensures
            created == !old(self).has_name(name@),
            final(self).names_seq() == ensured(old(self).names_seq(), name@),
            final(self).wf(),
            final(self).has_name(name@),
    {
        if self.contains(name) {
            false
        } else {
            self.names.push(name.clone());
            proof {
                assert(self.names_seq() =~= old(self).names_seq().push(name@));
                let ns = self.names_seq();
                assert(ns[ns.len() - 1] == name@);
            }
            true
        }
    }
}

impl WindowRegistry {
    /// Rebuilds the registrar's mirror from the names of the windows that
    /// already exist, keeping each name once.
    pub fn from_names(existing: &Vec<String>) -> (r: Self)
        ensures
            r.wf(),
            forall|n: Seq<char>| r.has_name(n) == name_among(views_of(existing@), n),
    {
        let mut r = WindowRegistry::new();
        let k = existing.len();
        let mut i: usize = 0;
        while i < k
            invariant
                r.wf(),
                k == existing@.len(),
                i <= k,
                forall|n: Seq<char>| name_among(r.names_seq(), n) == name_among(
                    views_of(existing@).take(i as int),
                    n,
                ),
            decreases k - i,
        {
            let ghost before = r.names_seq();
            let _ = r.ensure(&existing[i]);
            proof {
                let all = views_of(existing@);
                let e = existing@[i as int]@;
                assert(r.names_seq() == ensured(before, e));
                assert forall|n: Seq<char>| name_among(r.names_seq(), n) == name_among(
                    all.take(i as int + 1),
                    n,
                ) by {
                    lemma_ensured_among(before, e, n);
                    assert(name_among(before, n) == name_among(all.take(i as int), n));
                    if name_among(all.take(i as int), n) {
                        let w = choose|w: int|
                            0 <= w < i && #[trigger] all.take(i as int)[w] == n;
                        assert(all.take(i as int + 1)[w] == n);
                    }
                    if n == e {
                        assert(all.take(i as int + 1)[i as int] == n);
                    }
                    if name_among(all.take(i as int + 1), n) && n != e {
                        let w = choose|w: int|
                            0 <= w <= i && #[trigger] all.take(i as int + 1)[w] == n;
                        if w < i {
                            assert(all.take(i as int)[w] == n);
                        } else {
                            assert(all.take(i as int + 1)[i as int] == e);
                        }
                    }
                }
            }
            i = i + 1;
        }
        proof {
            assert(views_of(existing@).take(k as int) =~= views_of(existing@));
        }
        r
    }
}

/// Occurrence of a name after ensuring another: `ensure` adds `m` and
/// nothing else.
pub proof fn lemma_ensured_among(names: Seq<Seq<char>>, m: Seq<char>, n: Seq<char>)
    ensures
        name_among(ensured(names, m), n) == (name_among(names, n) || n == m),
{
    let e = ensured(names, m);
    if name_among(names, n) {
        let i = choose|i: int| 0 <= i < names.len() && names[i] == n;
        assert(e[i] == n);
    }
    if !name_among(names, m) {
        assert(e[names.len() as int] == m);
    }
    if name_among(e, n) && !(name_among(names, n) || n == m) {
        let i = choose|i: int| 0 <= i < e.len() && e[i] == n;
        assert(names[i] == n);
    }
}

proof fn lemma_count_zero(names: Seq<Seq<char>>, n: Seq<char>)
    requires
        !name_among(names, n),
    ensures
        name_count(names, n) == 0,
    decreases names.len(),
{
    if names.len() > 0 {
        assert forall|i: int| 0 <= i < names.drop_last().len() implies names.drop_last()[i]
            != n by {
            assert(names.drop_last()[i] == names[i]);
        }
        lemma_count_zero(names.drop_last(), n);
        assert(names.last() != n);
    }
}

proof fn lemma_count_one(names: Seq<Seq<char>>, n: Seq<char>)
    requires
        names_distinct(names),
        name_among(names, n),
    ensures
        name_count(names, n) == 1,
    decreases names.len(),
{
    let last = names.len() - 1;
    let front = names.drop_last();
    assert forall|i: int, j: int| 0 <= i < j < front.len() implies front[i] != front[j] by {
        assert(front[i] == names[i] && front[j] == names[j]);
    }
    if names.last() == n {
        assert forall|i: int| 0 <= i < front.len() implies front[i] != n by {
            assert(front[i] == names[i]);
            assert(names[i] != names[last]);
        }
        lemma_count_zero(front, n);
    } else {
        let i = choose|i: int| 0 <= i < names.len() && names[i] == n;
        assert(i != last);
        assert(front[i] == n);
        lemma_count_one(front, n);
    }
}

/// Law: idempotent window creation. Ensuring the same name a second time
/// changes nothing, and on a registry where no name occurs twice the ensured
/// name occurs exactly once afterwards — two calls of `ensure("main")`
/// create exactly one window named "main".
pub proof fn lemma_ensure_idempotent(names: Seq<Seq<char>>, n: Seq<char>)
    requires
        names_distinct(names),
    ensures
        ensured(ensured(names, n), n) == ensured(names, n),
        name_count(ensured(names, n), n) == 1,
{
    let e = ensured(names, n);
    lemma_ensured_among(names, n, n);
    assert(name_among(e, n));
    if !name_among(names, n) {
        assert forall|i: int, j: int| 0 <= i < j < e.len() implies e[i] != e[j] by {
            if j < names.len() {
                assert(e[i] == names[i] && e[j] == names[j]);
            } else {
                assert(e[i] == names[i] && e[j] == n);
            }
        }
    }
    lemma_count_one(e, n);
}

} // verus!
