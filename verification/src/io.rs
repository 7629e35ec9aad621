//! Sources held in memory and looked up by path, as the tests supply them.
use vstd::prelude::*;

use crate::diagnostics::QasmError;

verus! {

/// The source that `sources` registers under `path`: the one of the last
/// pair with that path, or none when no pair has it.
pub open spec fn lookup(sources: Seq<(String, String)>, path: Seq<char>) -> Option<Seq<char>>
    decreases sources.len(),
{
    if sources.len() == 0 {
        None
    } else if sources.last().0@ == path {
        Some(sources.last().1@)
    } else {
        lookup(sources.drop_last(), path)
    }
}

/// Source files held in memory, as `(path, source)` pairs in the order they
/// were given; a path given twice resolves to its last source.
#[derive(Debug)]
pub struct InMemorySourceResolver {
    sources: Vec<(String, String)>,
}

impl InMemorySourceResolver {
    /// The pairs the resolver holds, in order.
    pub closed spec fn sources(&self) -> Seq<(String, String)> {
        self.sources@
    }

    /// A resolver that holds the given `(path, source)` pairs.
    pub fn from_iter(sources: Vec<(String, String)>) -> (r: InMemorySourceResolver)
        ensures
            r.sources() == sources@,
    {
        InMemorySourceResolver { sources }
    }

    /// Looks a path up: the path with its source, or a `NotFound` error
    /// naming the path when no source was given under it.
    pub fn resolve(&self, path: &String) -> (r: Result<(String, String), QasmError>)
        ensures
            match lookup(self.sources(), path@) {
                Some(src) => r matches Ok((p, s)) && p@ == path@ && s@ == src,
                None => r matches Err(QasmError::NotFound { path: p }) && p@ == path@,
            },
    {
        let mut i = self.sources.len();
        assert(self.sources@.take(i as int) =~= self.sources@);
        while i > 0
            invariant
                i <= self.sources@.len(),
                lookup(self.sources@, path@) == lookup(self.sources@.take(i as int), path@),
            decreases i,
        {
            let ghost prefix = self.sources@.take(i as int);
            assert(prefix.drop_last() =~= self.sources@.take(i - 1));
            if self.sources[i - 1].0 == *path {
                return Ok((path.clone(), self.sources[i - 1].1.clone()));
            }
            i = i - 1;
        }
        Err(QasmError::NotFound { path: path.clone() })
    }
}

/// The source resolved for a path is the one of the last pair given under
/// that path; and a path resolves exactly when some pair was given under it.
pub proof fn lemma_lookup_finds_last_registered(
    sources: Seq<(String, String)>,
    path: Seq<char>,
    i: int,
)
    requires
        0 <= i < sources.len(),
        sources[i].0@ == path,
        forall|j: int| i < j < sources.len() ==> (#[trigger] sources[j]).0@ != path,
    ensures
        lookup(sources, path) == Some(sources[i].1@),
    decreases sources.len(),
{
    if i < sources.len() - 1 {
        let shorter = sources.drop_last();
        assert forall|j: int| i < j < shorter.len() implies (#[trigger] shorter[j]).0@ != path by {
            assert(shorter[j] == sources[j]);
        }
        lemma_lookup_finds_last_registered(shorter, path, i);
    }
}

/// A path resolves to nothing exactly when no pair was given under it.
pub proof fn lemma_lookup_none_iff_unregistered(sources: Seq<(String, String)>, path: Seq<char>)
    ensures
        lookup(sources, path) is None <==> forall|j: int|
            0 <= j < sources.len() ==> (#[trigger] sources[j]).0@ != path,
    decreases sources.len(),
{
    if sources.len() > 0 {
        let shorter = sources.drop_last();
        lemma_lookup_none_iff_unregistered(shorter, path);
        assert forall|j: int| 0 <= j < shorter.len() implies #[trigger] shorter[j] == sources[j] by {}
        if lookup(sources, path) is None {
            assert forall|j: int| 0 <= j < sources.len() implies (#[trigger] sources[j]).0@ != path by {
                if j < shorter.len() {
                    assert(shorter[j] == sources[j]);
                }
            }
        } else if sources.last().0@ != path {
            let j = choose|j: int| 0 <= j < shorter.len() && (#[trigger] shorter[j]).0@ == path;
            assert(sources[j] == shorter[j]);
        }
    }
}

/// The source of the file a run starts from: what the resolver holds under
/// `path`, or the `NotFound` error for it when it holds nothing there.
pub fn entry_source(resolver: &InMemorySourceResolver, path: &String) -> (r: Result<String, Vec<QasmError>>)
    ensures
        match lookup(resolver.sources(), path@) {
            Some(src) => r matches Ok(s) && s@ == src,
            None => r matches Err(es) && es@.len() == 1 && (es@[0] matches QasmError::NotFound {
                path: p,
            } && p@ == path@),
        },
{
    match resolver.resolve(path) {
        Ok((_, source)) => Ok(source),
        Err(e) => {
            let mut es = Vec::new();
            es.push(e);
            Err(es)
        },
    }
}

} // verus!
