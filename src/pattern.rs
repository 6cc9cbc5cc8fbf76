//! Glob patterns with an optional leading `!` that inverts the match.
//!
//! Compiling and matching a glob expression is done by the `glob` crate.
//! This module decides what text is compiled, what text it is matched
//! against (the full path, then the final segment), and the negation.

use crate::path_text::{file_name, final_name};
use vstd::prelude::*;

verus! {

#[verifier::external_type_specification]
#[verifier::external_body]
pub struct ExPattern(glob::Pattern);

#[verifier::external_type_specification]
#[verifier::external_body]
pub struct ExPatternError(glob::PatternError);

/// `glob::Pattern::new` accepts the expression `e`.
pub uninterp spec fn glob_valid(e: Seq<char>) -> bool;

/// The pattern compiled from `e` matches `text` under
/// `glob::MatchOptions::new()`.
pub uninterp spec fn glob_match(e: Seq<char>, text: Seq<char>) -> bool;

/// The marker that inverts a pattern.
pub open spec fn starts_with_marker(raw: Seq<char>) -> bool {
    raw.len() > 0 && raw[0] == '!'
}

/// The expression of `raw`: `raw` without its leading marker.
pub open spec fn strip_marker(raw: Seq<char>) -> Seq<char> {
    if starts_with_marker(raw) {
        raw.drop_first()
    } else {
        raw
    }
}

/// `raw` parses into a pattern.
pub open spec fn parses(raw: Seq<char>) -> bool {
    strip_marker(raw).len() > 0 && glob_valid(strip_marker(raw))
}

/// `e` holds two `*` in a row, starting at position `i`.
pub open spec fn stars_at(e: Seq<char>, i: int) -> bool {
    0 <= i && i + 1 < e.len() && e[i] == '*' && e[i + 1] == '*'
}

/// `e` holds the recursive wildcard `**`.
pub open spec fn has_recursive_wildcard(e: Seq<char>) -> bool {
    exists|i: int| #[trigger] stars_at(e, i)
}

/// `e` matches the final name of `path`, where the path has one.
pub open spec fn name_matches(e: Seq<char>, path: Seq<char>) -> bool {
    match final_name(path) {
        Some(n) => glob_match(e, n),
        None => false,
    }
}

/// The expression `e` matches `path` before negation: on the full path,
/// or, where `e` holds no recursive wildcard, on its final name.
pub open spec fn expr_matches(e: Seq<char>, path: Seq<char>) -> bool {
    glob_match(e, path) || (!has_recursive_wildcard(e) && name_matches(e, path))
}

/// What a pattern with expression `e` and negation flag `negate` says of `path`.
pub open spec fn pattern_accepts(e: Seq<char>, negate: bool, path: Seq<char>) -> bool {
    if negate {
        !expr_matches(e, path)
    } else {
        expr_matches(e, path)
    }
}

/// Why a glob string was refused.
#[derive(Debug, PartialEq, Eq)]
pub enum ParseError {
    /// Nothing is left once the leading marker is taken off.
    EmptyPattern,
    /// The `glob` crate refused the expression, which is held here.
    InvalidGlob(String),
}

impl ParseError {
    /// This is the error that parsing `raw` gives: `EmptyPattern` where
    /// nothing follows the marker, else the refused expression.
    pub open spec fn reports(&self, raw: Seq<char>) -> bool {
        if strip_marker(raw).len() == 0 {
            *self == ParseError::EmptyPattern
        } else {
            self matches ParseError::InvalidGlob(t) && t@ == strip_marker(raw)
        }
    }
}

/// A parsed glob string: its expression, compiled, and whether a leading
/// `!` inverts it.
///
/// `glob` is always the pattern compiled from `text`: values are made
/// by `compile` alone.
#[derive(Debug)]
pub struct Glob {
    text: String,
    glob: glob::Pattern,
    negate: bool,
}

/// Relies on `glob::Pattern::new`: it accepts `text` or not, and the
/// pattern it returns is kept beside the text it was compiled from.
#[verifier::external_body]
fn compile(text: &str, negate: bool) -> (r: Result<Glob, glob::PatternError>)
    ensures
        r is Ok <==> glob_valid(text@),
        r matches Ok(g) ==> g.expr() == text@ && g.negated() == negate,
{
    match glob::Pattern::new(text) {
        Ok(glob) => Ok(Glob { text: text.to_string(), glob, negate }),
        Err(e) => Err(e),
    }
}

/// Relies on `glob::Pattern::matches`, with the default match options, on
/// the pattern of `g`, which was compiled from `g.expr()`.
#[verifier::external_body]
fn compiled_matches(g: &Glob, text: &str) -> (r: bool)
    ensures
        r == glob_match(g.expr(), text@),
{
    g.glob.matches(text)
}

/// `e` holds two `*` in a row.
fn contains_recursive_wildcard(e: &str) -> (r: bool)
    ensures
        r == has_recursive_wildcard(e@),
{
    let n = e.unicode_len();
    let mut i: usize = 0;
    while i < n && n - i > 1
        invariant
            n == e@.len(),
            i <= n,
            forall|j: int| 0 <= j < i ==> !#[trigger] stars_at(e@, j),
        decreases n - i,
    {
        if e.get_char(i) == '*' && e.get_char(i + 1) == '*' {
            assert(stars_at(e@, i as int));
            return true;
        }
        i = i + 1;
    }
    assert forall|j: int| !#[trigger] stars_at(e@, j) by {
        if 0 <= j && j >= i {
            assert(!(j + 1 < n));
        }
    }
    false
}

impl Glob {
    /// The expression, without the leading marker.
    pub closed spec fn expr(&self) -> Seq<char> {
        self.text@
    }

    /// Whether the pattern is inverted.
    pub closed spec fn negated(&self) -> bool {
        self.negate
    }

    /// This pattern is what `raw` parses into.
    pub open spec fn parsed_from(&self, raw: Seq<char>) -> bool {
        self.expr() == strip_marker(raw) && self.negated() == starts_with_marker(raw)
    }

    /// What this pattern says of `path`.
    pub open spec fn accepts(&self, path: Seq<char>) -> bool {
        pattern_accepts(self.expr(), self.negated(), path)
    }

    /// Parses a glob string: a leading `!` is taken off and inverts the
    /// pattern; the rest is the expression, which must not be empty and
    /// must compile.
    pub fn parse(s: &str) -> (r: Result<Glob, ParseError>)
        ensures
            r is Ok <==> parses(s@),
            r matches Ok(g) ==> g.parsed_from(s@),
            r matches Err(e) ==> e.reports(s@),
    {
        let n = s.unicode_len();
        let negate = n > 0 && s.get_char(0) == '!';
        let text = if negate {
            s.substring_char(1, n)
        } else {
            s
        };
        assert(text@ == strip_marker(s@)) by {
            if negate {
                assert(s@.drop_first() =~= s@.subrange(1, n as int));
            }
        }
        if text.unicode_len() == 0 {
            return Err(ParseError::EmptyPattern);
        }
        match compile(text, negate) {
            Ok(g) => Ok(g),
            Err(_) => Err(ParseError::InvalidGlob(text.to_string())),
        }
    }

    /// Whether this pattern accepts `path`: the expression is matched
    /// against the full path and, where it holds no `**` and the full path
    /// does not match, against the path's final name, if it has one; a
    /// leading `!` inverts the outcome.
    pub fn matches(&self, path: &str) -> (r: bool)
        ensures
            r == self.accepts(path@),
    {
        let path_only = contains_recursive_wildcard(self.text.as_str());
        let mut res = compiled_matches(self, path);
        if !res && !path_only {
            res = match file_name(path) {
                Some(name) => compiled_matches(self, name),
                None => false,
            };
        }
        if self.negate {
            !res
        } else {
            res
        }
    }
}

/// A pattern that is neither inverted nor holds `**` accepts a path
/// exactly when its expression matches the full path or the path's final
/// name (a path without one, such as the root, has only the first chance).
pub proof fn plain_pattern_matches_path_or_name(g: &Glob, path: Seq<char>)
    requires
        !g.negated(),
        !has_recursive_wildcard(g.expr()),
    ensures
        g.accepts(path) == (glob_match(g.expr(), path) || match final_name(path) {
            Some(n) => glob_match(g.expr(), n),
            None => false,
        }),
{
}

/// A glob string that starts with `!` parses exactly when the string
/// without it does, and the two patterns disagree on every path. (When the
/// rest starts with `!` too, that rest is inverted once more when parsed on
/// its own, so such strings are left out.)
pub proof fn marker_inverts(raw: Seq<char>, inverted: &Glob, plain: &Glob, path: Seq<char>)
    requires
        starts_with_marker(raw),
        !starts_with_marker(raw.drop_first()),
        inverted.parsed_from(raw),
        plain.parsed_from(raw.drop_first()),
    ensures
        parses(raw) == parses(raw.drop_first()),
        inverted.accepts(path) == !plain.accepts(path),
{
}

} // verus!
