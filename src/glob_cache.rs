//! A memo of compiled glob patterns, keyed by the pattern's text. A pattern
//! that does not compile is remembered too, and never matches.
use vstd::prelude::*;
use crate::color::str_eq;

verus! {

#[verifier::external_type_specification]
#[verifier::external_body]
pub struct ExPattern(glob::Pattern);

/// Whether `glob::Pattern::new` accepts the pattern text.
pub uninterp spec fn glob_compiles(pattern: Seq<char>) -> bool;

/// Whether the compiled pattern matches the path, with default match options.
pub uninterp spec fn glob_match(pattern: Seq<char>, path: Seq<char>) -> bool;

/// The answer to "does `pattern` match `path`": an invalid pattern matches nothing.
pub open spec fn glob_result(pattern: Seq<char>, path: Seq<char>) -> bool {
    glob_compiles(pattern) && glob_match(pattern, path)
}

/// A compiled pattern together with the text it was compiled from.
pub struct Glob {
    source: String,
    pattern: glob::Pattern,
}

impl View for Glob {
    type V = Seq<char>;

    closed spec fn view(&self) -> Seq<char> {
        self.source@
    }
}

/// Relies on glob::Pattern::new: it succeeds exactly on the texts it accepts;
/// the text is kept beside the compiled pattern.
#[verifier::external_body]
fn compile_pattern(raw: &str) -> (r: Option<Glob>)
    ensures
        r is Some <==> glob_compiles(raw@),
        r matches Some(g) ==> g@ == raw@,
{
    match glob::Pattern::new(raw) {
        Ok(pattern) => Some(Glob { source: raw.to_string(), pattern }),
        Err(_) => None,
    }
}

/// Relies on glob::Pattern::matches_path: whether the pattern matches `path`
/// with default options. A `Glob` is made only by `compile_pattern`, so its
/// pattern is the one compiled from its text.
#[verifier::external_body]
fn pattern_matches_path(g: &Glob, path: &str) -> (r: bool)
    ensures
        r == glob_match(g@, path@),
{
    g.pattern.matches_path(std::path::Path::new(path))
}

impl Glob {
    /// Compiles a pattern, or `None` when it is not a valid glob.
    pub fn new(raw: &str) -> (r: Option<Glob>)
        ensures
            r is Some <==> glob_compiles(raw@),
            r matches Some(g) ==> g@ == raw@,
    {
        compile_pattern(raw)
    }

    /// Does the pattern match the path?
    pub fn matches(&self, path: &str) -> (r: bool)
        ensures
            r == glob_match(self@, path@),
    {
        pattern_matches_path(self, path)
    }
}

/// The outcome of compiling one pattern text, ready to be put in a cache.
pub struct Compiled {
    raw: String,
    glob: Option<Glob>,
}

impl Compiled {
    /// The pattern text.
    pub closed spec fn raw(&self) -> Seq<char> {
        self.raw@
    }

    /// The outcome belongs to its text.
    pub closed spec fn wf(&self) -> bool {
        &&& (self.glob is Some <==> glob_compiles(self.raw@))
        &&& (self.glob matches Some(g) ==> g@ == self.raw@)
    }

    /// Compiles `raw`, remembering a failure as well as a success.
    pub fn new(raw: &str) -> (r: Compiled)
        ensures
            r.wf(),
            r.raw() == raw@,
    {
        Compiled { raw: raw.to_string(), glob: Glob::new(raw) }
    }

    /// Does the outcome match the path? Never, for a failed compile.
    pub fn matches(&self, path: &str) -> (r: bool)
        requires
            self.wf(),
        ensures
            r == glob_result(self.raw(), path@),
    {
        match &self.glob {
            Some(g) => g.matches(path),
            None => false,
        }
    }
}

/// Compiled patterns by text, each text at most once.
pub struct GlobCache {
    memo: Vec<Compiled>,
}

impl View for GlobCache {
    type V = Set<Seq<char>>;

    /// The pattern texts that are cached.
    closed spec fn view(&self) -> Set<Seq<char>> {
        Set::new(|k: Seq<char>| exists|i: int| 0 <= i < self.memo@.len() && self.memo@[i].raw() == k)
    }
}

impl GlobCache {
    /// Each entry belongs to its text, and no text is cached twice.
    pub closed spec fn wf(&self) -> bool {
        &&& forall|i: int| 0 <= i < self.memo@.len() ==> #[trigger] self.memo@[i].wf()
        &&& forall|i: int, j: int|
            0 <= i < self.memo@.len() && 0 <= j < self.memo@.len() && i != j
                ==> #[trigger] self.memo@[i].raw() != #[trigger] self.memo@[j].raw()
    }

    /// An empty cache.
    pub fn new() -> (r: GlobCache)
        ensures
            r.wf(),
            r@ == Set::<Seq<char>>::empty(),
    {
        let r = GlobCache { memo: Vec::new() };
        assert(r@ =~= Set::<Seq<char>>::empty());
        r
    }

    /// The position of `raw` in the memo, if it is cached.
    fn position(&self, raw: &str) -> (r: Option<usize>)
        ensures
            match r {
                Some(i) => i < self.memo@.len() && self.memo@[i as int].raw() == raw@,
                None => forall|i: int| 0 <= i < self.memo@.len() ==> #[trigger] self.memo@[i].raw() != raw@,
            },
    {
        let mut i: usize = 0;
        while i < self.memo.len()
            invariant
                i <= self.memo@.len(),
                forall|j: int| 0 <= j < i ==> #[trigger] self.memo@[j].raw() != raw@,
            decreases self.memo@.len() - i,
        {
            if str_eq(self.memo[i].raw.as_str(), raw) {
                return Some(i);
            }
            i = i + 1;
        }
        None
    }

    /// The cached answer for `raw` against `path`, or `None` when `raw` is not cached.
    pub fn lookup(&self, raw: &str, path: &str) -> (r: Option<bool>)
        requires
            self.wf(),
        ensures
            r is Some <==> self@.contains(raw@),
            r matches Some(b) ==> b == glob_result(raw@, path@),
    {
        match self.position(raw) {
            Some(i) => {
                assert(self@.contains(raw@));
                Some(self.memo[i].matches(path))
            },
            None => None,
        }
    }

    /// Records a compile outcome; one already cached under the same text is
    /// replaced.
    pub fn insert(&mut self, compiled: Compiled)
        requires
            old(self).wf(),
            compiled.wf(),
        ensures
            final(self).wf(),
            final(self)@ == old(self)@.insert(compiled.raw()),
    {
        let ghost raw = compiled.raw();
        match self.position(compiled.raw.as_str()) {
            Some(i) => {
                self.memo.set(i, compiled);
                assert forall|k: Seq<char>| #[trigger] self@.contains(k) <==> old(self)@.insert(raw).contains(k) by {
                    if old(self)@.contains(k) {
                        let j = choose|j: int| 0 <= j < old(self).memo@.len() && old(self).memo@[j].raw() == k;
                        if j != i {
                            assert(self.memo@[j].raw() == k);
                        } else {
                            assert(self.memo@[i as int].raw() == k);
                        }
                    }
                    if k == raw {
                        assert(self.memo@[i as int].raw() == k);
                    }
                    if self@.contains(k) {
                        let j = choose|j: int| 0 <= j < self.memo@.len() && self.memo@[j].raw() == k;
                        if j != i {
                            assert(old(self).memo@[j].raw() == k);
                        }
                    }
                }
            },
            None => {
                self.memo.push(compiled);
                assert forall|k: Seq<char>| #[trigger] self@.contains(k) <==> old(self)@.insert(raw).contains(k) by {
                    let n = old(self).memo@.len();
                    if old(self)@.contains(k) {
                        let j = choose|j: int| 0 <= j < n && old(self).memo@[j].raw() == k;
                        assert(self.memo@[j].raw() == k);
                    }
                    if k == raw {
                        assert(self.memo@[n as int].raw() == k);
                    }
                    if self@.contains(k) {
                        let j = choose|j: int| 0 <= j < self.memo@.len() && self.memo@[j].raw() == k;
                        if j != n {
                            assert(old(self).memo@[j].raw() == k);
                        }
                    }
                }
            },
        }
        assert(self@ =~= old(self)@.insert(raw));
    }

    /// Does the pattern match the path? A cached outcome is used when there
    /// is one; otherwise the pattern is compiled and the outcome cached.
    pub fn matches(&mut self, raw: &str, path: &str) -> (r: bool)
        requires
            old(self).wf(),
        ensures
            final(self).wf(),
            final(self)@ == old(self)@.insert(raw@),
            r == glob_result(raw@, path@),
    {
        match self.lookup(raw, path) {
            Some(b) => {
                assert(self@.insert(raw@) =~= self@);
                b
            },
            None => {
                let compiled = Compiled::new(raw);
                let r = compiled.matches(path);
                self.insert(compiled);
                r
            },
        }
    }
}

/// Does the pattern match the path, compiled on demand and cached nowhere?
pub fn glob_matches_uncached(raw: &str, path: &str) -> (r: bool)
    ensures
        r == glob_result(raw@, path@),
{
    Compiled::new(raw).matches(path)
}

/// Two calls of `GlobCache::matches` with one pattern and one path agree,
/// whatever was inserted between them; an invalid pattern never matches; and
/// no pattern that was cached is lost.
pub proof fn glob_matches_is_stable(
    c0: GlobCache,
    c1: GlobCache,
    c2: GlobCache,
    c3: GlobCache,
    raw: Seq<char>,
    path: Seq<char>,
    r1: bool,
    r2: bool,
)
    requires
        c0.wf(),
        c1@ == c0@.insert(raw),
        r1 == glob_result(raw, path),
        c1@.subset_of(c2@),
        c2.wf(),
        c3@ == c2@.insert(raw),
        r2 == glob_result(raw, path),
    ensures
        r1 == r2,
        !glob_compiles(raw) ==> !r1 && !r2,
        c0@.subset_of(c3@),
        c3@.contains(raw),
{
}

} // verus!
