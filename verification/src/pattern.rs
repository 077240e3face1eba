use vstd::prelude::*;
use crate::errors::ExtractError;

verus! {

#[verifier::external_type_specification]
#[verifier::external_body]
pub struct ExRegex(regex::Regex);

/// Whether the regular-expression compiler accepts a pattern; the outcome
/// depends on the pattern text alone.
pub uninterp spec fn regex_compiles(p: Seq<char>) -> bool;

/// The capture-group count of a pattern, the implicit whole-match group 0
/// included; fixed by the pattern text alone.
pub uninterp spec fn regex_caps_len(p: Seq<char>) -> nat;

/// The leftmost-first match of a pattern against a text: `None` when the
/// pattern matches nowhere in the text, otherwise one entry per capture
/// group, `Some` exactly for the groups that participated in the match,
/// holding the captured substring. Fixed by the pattern and the text alone.
pub uninterp spec fn regex_captures(p: Seq<char>, t: Seq<char>) -> Option<Seq<Option<Seq<char>>>>;

/// An immutable compiled regular expression, kept with its source text.
/// Its view is the source text it was compiled from.
pub struct CompiledPattern {
    source: String,
    re: regex::Regex,
}

impl View for CompiledPattern {
    type V = Seq<char>;

    closed spec fn view(&self) -> Seq<char> {
        self.source@
    }
}

impl CompiledPattern {
    /// Relies on regex::Regex::new: whether a pattern compiles depends on
    /// the pattern text alone; the error value renders the compiler's
    /// diagnostic.
    #[verifier::external_body]
    pub(crate) fn compile(p: &str) -> (r: Result<CompiledPattern, String>)
        ensures
            r is Ok <==> regex_compiles(p@),
            r matches Ok(c) ==> c@ == p@,
    {
        match regex::Regex::new(p) {
            Ok(re) => Ok(CompiledPattern { source: p.to_owned(), re }),
            Err(e) => Err(format!("{e}")),
        }
    }

    /// The source text this pattern was compiled from.
    pub fn source_str(&self) -> (r: &str)
        ensures
            r@ == self@,
    {
        self.source.as_str()
    }

    /// Whether this pattern was compiled from exactly this source text.
    pub fn source_matches(&self, p: &str) -> (b: bool)
        ensures
            b == (self@ == p@),
    {
        let key: String = p.to_owned();
        self.source == key
    }

    /// Relies on regex::Regex::clone: a clone shares the same compiled
    /// pattern, so it matches exactly as the original does.
    #[verifier::external_body]
    pub(crate) fn duplicate(&self) -> (r: CompiledPattern)
        ensures
            r@ == self@,
    {
        CompiledPattern { source: self.source.clone(), re: self.re.clone() }
    }

    /// Relies on regex::Regex::captures (the leftmost-first match, or `None`
    /// when the pattern matches nowhere), Captures::len (the pattern's
    /// group count, always at least 1), Captures::get (`None` exactly for a
    /// group that did not participate; group 0 always participates) and
    /// Match::as_str (the captured substring).
    #[verifier::external_body]
    pub(crate) fn captures_groups(&self, text: &str) -> (r: Option<Vec<Option<String>>>)
        ensures
            r.deep_view() == regex_captures(self@, text@),
            r matches Some(gs) ==> gs@.len() == regex_caps_len(self@) && gs@.len() >= 1
                && gs@[0] is Some,
    {
        match self.re.captures(text) {
            None => None,
            Some(caps) => Some(
                (0..caps.len()).map(|i| caps.get(i).map(|m| m.as_str().to_owned())).collect(),
            ),
        }
    }
}

/// Compiles a pattern, reporting failure as the library's compile error,
/// which names the pattern and carries the compiler's diagnostic.
pub fn compile_checked(p: &str) -> (r: Result<CompiledPattern, ExtractError>)
    ensures
        r is Ok <==> regex_compiles(p@),
        r matches Ok(c) ==> c@ == p@,
        r matches Err(e) ==> (e matches ExtractError::PatternCompile { pattern, .. } && pattern@
            == p@),
{
    match CompiledPattern::compile(p) {
        Ok(c) => Ok(c),
        Err(detail) => Err(ExtractError::PatternCompile { pattern: p.to_owned(), detail }),
    }
}

/// The value a row contributes to the output column when the invocation
/// succeeds: the empty string when the pattern matches nowhere in the text
/// or when group `idx` did not participate in the match, the substring
/// captured by group `idx` otherwise.
pub open spec fn row_output(p: Seq<char>, t: Seq<char>, idx: nat) -> Seq<char> {
    match regex_captures(p, t) {
        Option::None => Seq::empty(),
        Option::Some(gs) => match gs[idx as int] {
            Option::Some(s) => s,
            Option::None => Seq::empty(),
        },
    }
}

/// Whether the pattern matches anywhere in the text.
pub open spec fn row_matches(p: Seq<char>, t: Seq<char>) -> bool {
    regex_captures(p, t) is Some
}

/// Extracts group `idx` of the leftmost match of `c` in `text`.
///
/// A match whose group count the index exceeds aborts with
/// `GroupIndexOutOfRange`; when the pattern matches nowhere the index is
/// not checked and the row yields the empty string.
pub fn extract_one(c: &CompiledPattern, text: &str, idx: u64) -> (r: Result<
    String,
    ExtractError,
>)
    ensures
        !row_matches(c@, text@) ==> (r matches Ok(s) && s@ == Seq::<char>::empty()),
        row_matches(c@, text@) && idx < regex_caps_len(c@) ==> (r matches Ok(s) && s@
            == row_output(c@, text@, idx as nat)),
        row_matches(c@, text@) && idx >= regex_caps_len(c@) ==> r == Err::<String, ExtractError>(
            ExtractError::GroupIndexOutOfRange {
                idx,
                groups: (regex_caps_len(c@) - 1) as usize,
            },
        ),
{
    match c.captures_groups(text) {
        Option::None => Ok(String::new()),
        Option::Some(gs) => {
            assert(gs.deep_view() == regex_captures(c@, text@)->0);
            if idx >= gs.len() as u64 {
                Err(ExtractError::GroupIndexOutOfRange { idx, groups: gs.len() - 1 })
            } else {
                let i: usize = idx as usize;
                match &gs[i] {
                    Option::Some(s) => {
                        assert(gs.deep_view()[i as int] == Some(s@));
                        Ok(s.clone())
                    },
                    Option::None => {
                        assert(gs.deep_view()[i as int] is None);
                        Ok(String::new())
                    },
                }
            }
        },
    }
}

} // verus!
