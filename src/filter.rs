use vstd::prelude::*;

verus! {

/// Whether `glob::Pattern::new` accepts the pattern text. The answer
/// depends on the text and on the path separators of the build target.
pub uninterp spec fn glob_valid(pattern: Seq<char>) -> bool;

/// Whether the pattern compiled from `pattern` matches `name`
/// (`glob::Pattern::matches` with the default options). The answer depends
/// on the two texts and on the path separators of the build target.
pub uninterp spec fn glob_match(pattern: Seq<char>, name: Seq<char>) -> bool;

#[verifier::external_type_specification]
#[verifier::external_body]
pub struct ExPattern(glob::Pattern);

/// A glob pattern together with the text it was compiled from.
///
/// The fields are private: the only way to build one is `compile_glob`,
/// which compiles `compiled` from `text`.
pub struct CompiledGlob {
    text: String,
    compiled: glob::Pattern,
}

impl CompiledGlob {
    pub closed spec fn text(&self) -> Seq<char> {
        self.text@
    }
}

/// Relies on `glob::Pattern::new`: it returns `Ok` exactly when the text is a
/// valid pattern, and the compiled pattern is kept beside its text.
#[verifier::external_body]
fn compile_glob(text: &str) -> (r: Option<CompiledGlob>)
    ensures
        r.is_some() == glob_valid(text@),
        r matches Some(g) ==> g.text() == text@,
{
    match glob::Pattern::new(text) {
        Ok(p) => Some(CompiledGlob { text: text.to_string(), compiled: p }),
        Err(_) => None,
    }
}

/// Relies on `glob::Pattern::matches`: the answer depends on the pattern text
/// and the name alone.
#[verifier::external_body]
fn compiled_matches(g: &CompiledGlob, name: &str) -> (r: bool)
    ensures
        r == glob_match(g.text(), name@),
{
    g.compiled.matches(name)
}

/// Whether `name` matches at least one of `patterns`.
pub open spec fn matches_any(patterns: Seq<Seq<char>>, name: Seq<char>) -> bool {
    exists|i: int| 0 <= i < patterns.len() && glob_match(#[trigger] patterns[i], name)
}

/// Whether every pattern text is valid.
pub open spec fn all_valid(patterns: Seq<Seq<char>>) -> bool {
    forall|i: int| 0 <= i < patterns.len() ==> glob_valid(#[trigger] patterns[i])
}

/// A pattern text that `glob` refuses, with its position in the list.
pub struct PatternError {
    pub index: usize,
    pub pattern: String,
}

/// An ordered set of compiled glob patterns. A name passes the filter when it
/// matches any of them; with no patterns nothing passes.
pub struct PatternSet {
    globs: Vec<CompiledGlob>,
}

impl View for PatternSet {
    type V = Seq<Seq<char>>;

    closed spec fn view(&self) -> Seq<Seq<char>> {
        self.globs@.map_values(|g: CompiledGlob| g.text())
    }
}

impl PatternSet {
    /// Compiles every pattern text; fails on the first one that is not a
    /// valid glob.
    pub fn new(texts: &Vec<String>) -> (r: Result<PatternSet, PatternError>)
        ensures
            match r {
                Ok(set) => all_valid(texts@.map_values(|t: String| t@))
                    && set@ == texts@.map_values(|t: String| t@),
                Err(e) => 0 <= e.index < texts.len()
                    && !glob_valid(texts@[e.index as int]@)
                    && e.pattern@ == texts@[e.index as int]@
                    && (forall|j: int| 0 <= j < e.index ==> glob_valid(#[trigger] texts@[j]@)),
            },
    {
        let mut globs: Vec<CompiledGlob> = Vec::new();
        let mut i: usize = 0;
        while i < texts.len()
            invariant
                i <= texts.len(),
                globs.len() == i,
                forall|j: int| 0 <= j < i ==> glob_valid(#[trigger] texts@[j]@),
                forall|j: int| 0 <= j < i ==> (#[trigger] globs@[j]).text() == texts@[j]@,
            decreases texts.len() - i,
        {
            match compile_glob(texts[i].as_str()) {
                Some(g) => {
                    globs.push(g);
                },
                None => {
                    return Err(PatternError { index: i, pattern: texts[i].clone() });
                },
            }
            i = i + 1;
        }
        let set = PatternSet { globs };
        assert(set@ =~= texts@.map_values(|t: String| t@));
        Ok(set)
    }

    pub fn len(&self) -> (r: usize)
        ensures
            r == self@.len(),
    {
        self.globs.len()
    }

    /// Whether `name` matches at least one pattern of the set.
    pub fn matches(&self, name: &str) -> (r: bool)
        ensures
            r == matches_any(self@, name@),
            self@.len() == 0 ==> !r,
    {
        let mut i: usize = 0;
        while i < self.globs.len()
            invariant
                i <= self.globs.len(),
                forall|j: int| 0 <= j < i ==> !glob_match(#[trigger] self@[j], name@),
            decreases self.globs.len() - i,
        {
            if compiled_matches(&self.globs[i], name) {
                assert(glob_match(self@[i as int], name@));
                return true;
            }
            i = i + 1;
        }
        false
    }
}

} // verus!
