use vstd::prelude::*;

verus! {

use crate::spec_hidden;

#[verifier::external_type_specification]
#[verifier::external_body]
pub struct ExGlobPattern(glob::Pattern);

/// Whether `glob::Pattern::new` accepts the pattern text.
pub uninterp spec fn glob_compiles(pat: Seq<char>) -> bool;

/// The pattern text a compiled `glob::Pattern` was built from.
pub uninterp spec fn glob_source(p: glob::Pattern) -> Seq<char>;

/// Whether a glob pattern with the given text matches the given name, as
/// `glob::Pattern::matches` decides it.
pub uninterp spec fn glob_match(pat: Seq<char>, name: Seq<char>) -> bool;

/// Relies on `glob::Pattern::new`: compiles the pattern text, succeeding
/// exactly on well-formed glob syntax; the compiled value matches as its
/// source text prescribes.
#[verifier::external_body]
fn compile_pattern(pat: &str) -> (r: Option<glob::Pattern>)
    ensures
        r is Some <==> glob_compiles(pat@),
        r is Some ==> glob_source(r->0) == pat@,
{
    glob::Pattern::new(pat).ok()
}

/// Relies on `glob::Pattern::matches`: decides the match from the compiled
/// pattern's source text and the candidate name alone.
#[verifier::external_body]
fn pattern_matches(p: &glob::Pattern, name: &str) -> (r: bool)
    ensures
        r == glob_match(glob_source(*p), name@),
{
    p.matches(name)
}

/// Compiled exclusion rules for one batch. Patterns whose text does not
/// compile are dropped at construction; a partial pattern set is tolerated.
pub struct PatternFilter {
    pub pats: Vec<glob::Pattern>,
}

impl PatternFilter {
    /// The pattern texts this filter holds, in order.
    pub open spec fn sources(&self) -> Seq<Seq<char>> {
        self.pats@.map_values(|p: glob::Pattern| glob_source(p))
    }

    /// A name is excluded when it is hidden or matches one of the rules.
    pub open spec fn spec_excluded(&self, name: Seq<char>) -> bool {
        spec_excluded_by(self.sources(), name)
    }

    /// Compiles the given pattern texts, keeping exactly those that compile,
    /// in their given order.
    pub fn new(patterns: &Vec<String>) -> (f: PatternFilter)
        ensures
            f.sources() == patterns@.map_values(|s: String| s@).filter(
                |p: Seq<char>| glob_compiles(p),
            ),
    {
        let mut pats: Vec<glob::Pattern> = Vec::new();
        let mut i: usize = 0;
        while i < patterns.len()
            invariant
                i <= patterns@.len(),
                pats@.map_values(|p: glob::Pattern| glob_source(p)) == patterns@.take(
                    i as int,
                ).map_values(|s: String| s@).filter(|p: Seq<char>| glob_compiles(p)),
            decreases patterns@.len() - i,
        {
            proof {
                reveal(Seq::filter);
                let m1 = patterns@.take(i + 1 as int).map_values(|s: String| s@);
                let m0 = patterns@.take(i as int).map_values(|s: String| s@);
                assert(m1 =~= m0.push(patterns@[i as int]@));
                assert(m0.push(patterns@[i as int]@).drop_last() =~= m0);
            }
            let ghost prev = pats@.map_values(|p: glob::Pattern| glob_source(p));
            match compile_pattern(patterns[i].as_str()) {
                Some(p) => {
                    let ghost src = glob_source(p);
                    pats.push(p);
                    proof {
                        assert(pats@.map_values(|p: glob::Pattern| glob_source(p)) =~= prev.push(
                            src,
                        ));
                    }
                },
                None => {},
            }
            i = i + 1;
        }
        proof {
            assert(patterns@.take(patterns@.len() as int) =~= patterns@);
        }
        PatternFilter { pats }
    }

    /// Decides exclusion of a base name: hidden names are always excluded,
    /// independent of the rules; otherwise any matching rule excludes it.
    pub fn is_excluded(&self, name: &str) -> (r: bool)
        ensures
            r == self.spec_excluded(name@),
    {
        let n = vstd::string::StrSliceExecFns::unicode_len(name);
        if n > 0 {
            let c = vstd::string::StrSliceExecFns::get_char(name, 0);
            if c == '.' {
                return true;
            }
        }
        let mut i: usize = 0;
        while i < self.pats.len()
            invariant
                i <= self.pats@.len(),
                forall|j: int|
                    0 <= j < i ==> !glob_match(#[trigger] self.sources()[j], name@),
            decreases self.pats@.len() - i,
        {
            if pattern_matches(&self.pats[i], name) {
                proof {
                    assert(glob_match(self.sources()[i as int], name@));
                }
                return true;
            }
            i = i + 1;
        }
        false
    }
}

/// A name is excluded by a pattern set when it is hidden or some pattern
/// matches it.
pub open spec fn spec_excluded_by(sources: Seq<Seq<char>>, name: Seq<char>) -> bool {
    spec_hidden(name) || exists|j: int| 0 <= j < sources.len() && glob_match(sources[j], name)
}

/// Hidden names are excluded whatever the pattern list holds.
pub proof fn lemma_hidden_always_excluded(sources: Seq<Seq<char>>, name: Seq<char>)
    requires
        spec_hidden(name),
    ensures
        spec_excluded_by(sources, name),
{
}

} // verus!
