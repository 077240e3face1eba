use vstd::prelude::*;
use crate::errors::ExtractError;
use crate::pattern::{compile_checked, regex_compiles, CompiledPattern};

verus! {

/// A counter increment that cannot overflow: the count sticks at the
/// maximum once reached.
pub open spec fn bump(c: u64) -> u64 {
    if c < u64::MAX {
        (c + 1) as u64
    } else {
        c
    }
}

/// A memoizing store of compiled patterns, keyed by their exact source
/// text. The mapping only grows, and a failed compilation leaves it
/// unchanged, so one bad pattern never poisons the cache for others.
///
/// The store itself is sequential; a holder that shares it across
/// threads puts it behind a lock and, to keep the critical section to
/// the lookup-or-insert alone, may compile outside the lock through
/// [`compile_checked`] and hand the result to [`PatternCache::insert`].
/// When two racing holders compile the same new pattern once each, the
/// second insert is a no-op and both handles behave alike.
pub struct PatternCache {
    entries: Vec<CompiledPattern>,
    compile_invocations: u64,
}

impl PatternCache {
    /// Every stored pattern compiled, and no source text is stored twice.
    pub closed spec fn wf(self) -> bool {
        &&& forall|i: int, j: int|
            0 <= i < self.entries@.len() && 0 <= j < self.entries@.len() && i != j
                ==> self.entries@[i]@ != self.entries@[j]@
        &&& forall|i: int|
            0 <= i < self.entries@.len() ==> regex_compiles(#[trigger] self.entries@[i]@)
    }

    /// Whether a pattern with this source text is cached.
    pub closed spec fn contains_pattern(self, p: Seq<char>) -> bool {
        exists|i: int| 0 <= i < self.entries@.len() && #[trigger] self.entries@[i]@ == p
    }

    /// How often the underlying compiler has been invoked through this
    /// cache, successfully or not.
    pub closed spec fn spec_compile_count(self) -> u64 {
        self.compile_invocations
    }

    /// An empty cache.
    pub fn new() -> (r: PatternCache)
        ensures
            r.wf(),
            r.spec_compile_count() == 0,
            forall|p: Seq<char>| !r.contains_pattern(p),
    {
        PatternCache { entries: Vec::new(), compile_invocations: 0 }
    }

    /// The instrumentation counter: how often the underlying compiler has
    /// been invoked through this cache.
    pub fn compile_count(&self) -> (n: u64)
        ensures
            n == self.spec_compile_count(),
    {
        self.compile_invocations
    }

    /// A handle to the already cached compiled form, without compiling.
    #[verifier::loop_isolation(false)]
    pub fn lookup(&self, p: &str) -> (r: Option<CompiledPattern>)
        requires
            self.wf(),
        ensures
            r is Some <==> self.contains_pattern(p@),
            r matches Some(c) ==> c@ == p@ && regex_compiles(p@),
    {
        let n = self.entries.len();
        let mut i: usize = 0;
        while i < n
            invariant
                0 <= i <= n,
                forall|j: int| 0 <= j < i ==> #[trigger] self.entries@[j]@ != p@,
            decreases n - i,
        {
            if self.entries[i].source_matches(p) {
                assert(self.entries@[i as int]@ == p@);
                return Some(self.entries[i].duplicate());
            }
            i += 1;
        }
        None
    }

    /// Stores a compiled pattern; when its source text is already cached
    /// the store is left as it was, so the source stays unique.
    pub fn insert(&mut self, c: CompiledPattern)
        requires
            old(self).wf(),
            regex_compiles(c@),
        ensures
            final(self).wf(),
            final(self).contains_pattern(c@),
            forall|q: Seq<char>|
                old(self).contains_pattern(q) ==> final(self).contains_pattern(q),
            forall|q: Seq<char>|
                final(self).contains_pattern(q) ==> old(self).contains_pattern(q) || q == c@,
            final(self).spec_compile_count() == old(self).spec_compile_count(),
    {
        if self.lookup(c.source_str()).is_none() {
            let ghost pre = self.entries@;
            self.entries.push(c);
            proof {
                assert(self.entries@[pre.len() as int]@ == c@);
                assert forall|q: Seq<char>|
                    old(self).contains_pattern(q) implies self.contains_pattern(q) by {
                    let w = choose|k: int| 0 <= k < pre.len() && #[trigger] pre[k]@ == q;
                    assert(self.entries@[w]@ == q);
                }
            }
        }
    }

    /// Looks the pattern up, compiling and storing it on a miss.
    ///
    /// A hit returns a handle sharing the already compiled form and leaves
    /// the cache untouched: in particular it does not re-invoke the
    /// compiler. A failed compilation reports the pattern and the
    /// compiler's diagnostic and changes no entry.
    pub fn get(&mut self, p: &str) -> (r: Result<CompiledPattern, ExtractError>)
        requires
            old(self).wf(),
        ensures
            final(self).wf(),
            r is Ok <==> regex_compiles(p@),
            r matches Ok(c) ==> c@ == p@ && final(self).contains_pattern(p@),
            r matches Err(e) ==> (e matches ExtractError::PatternCompile { pattern, .. }
                && pattern@ == p@),
            forall|q: Seq<char>|
                old(self).contains_pattern(q) ==> final(self).contains_pattern(q),
            forall|q: Seq<char>|
                final(self).contains_pattern(q) ==> old(self).contains_pattern(q) || q == p@,
            r is Err ==> forall|q: Seq<char>|
                final(self).contains_pattern(q) == old(self).contains_pattern(q),
            old(self).contains_pattern(p@) ==> *final(self) == *old(self),
            !old(self).contains_pattern(p@) ==> final(self).spec_compile_count() == bump(
                old(self).spec_compile_count(),
            ),
    {
        match self.lookup(p) {
            Some(c) => Ok(c),
            None => {
                if self.compile_invocations < u64::MAX {
                    self.compile_invocations = self.compile_invocations + 1;
                }
                match compile_checked(p) {
                    Ok(c) => {
                        let r = c.duplicate();
                        self.insert(c);
                        Ok(r)
                    },
                    Err(e) => Err(e),
                }
            },
        }
    }
}

} // verus!
