//! Which walked entries are kept: extensions are alternatives (any one
//! admits), patterns are constraints (every one must accept).

use crate::path_text::{extension, file_extension};
use crate::pattern::{parses, Glob, ParseError};
use vstd::prelude::*;

verus! {

/// The extension check: no extensions are asked for, or the path's
/// extension is one of them, exactly.
pub open spec fn extension_listed(fts: Seq<String>, path: Seq<char>) -> bool {
    fts.len() == 0 || exists|i: int| 0 <= i < fts.len() && extension(path) == Some(#[trigger] fts[i]@)
}

/// The pattern check: every pattern accepts the path.
pub open spec fn all_accept(globs: Seq<Glob>, path: Seq<char>) -> bool {
    forall|i: int| 0 <= i < globs.len() ==> #[trigger] globs[i].accepts(path)
}

/// Whether the extension of `path` is one of `fts`; an empty list admits
/// every path.
pub fn fts_match(path: &str, fts: &[String]) -> (r: bool)
    ensures
        r == extension_listed(fts@, path@),
{
    if fts.len() == 0 {
        return true;
    }
    let ext = match file_extension(path) {
        Some(e) => e.to_string(),
        None => return false,
    };
    let mut i: usize = 0;
    while i < fts.len()
        invariant
            extension(path@) == Some(ext@),
            forall|j: int| 0 <= j < i ==> fts@[j]@ != ext@,
        decreases fts.len() - i,
    {
        if fts[i] == ext {
            return true;
        }
        i = i + 1;
    }
    false
}

/// Whether every pattern of `globs` accepts `path`; an empty list accepts
/// every path.
pub fn globs_match(path: &str, globs: &[Glob]) -> (r: bool)
    ensures
        r == all_accept(globs@, path@),
{
    let mut i: usize = 0;
    while i < globs.len()
        invariant
            forall|j: int| 0 <= j < i ==> #[trigger] globs@[j].accepts(path@),
        decreases globs.len() - i,
    {
        if !globs[i].matches(path) {
            return false;
        }
        i = i + 1;
    }
    true
}

/// Parses each glob string in turn; the first one refused stops the
/// parse with its error.
pub fn parse_globs(raw: &[String]) -> (r: Result<Vec<Glob>, ParseError>)
    ensures
        r is Ok <==> forall|i: int| 0 <= i < raw@.len() ==> parses(#[trigger] raw@[i]@),
        r matches Ok(gs) ==> gs@.len() == raw@.len() && forall|i: int|
            0 <= i < raw@.len() ==> #[trigger] gs@[i].parsed_from(raw@[i]@),
        r matches Err(e) ==> exists|k: int|
            0 <= k < raw@.len() && !parses(#[trigger] raw@[k]@) && e.reports(raw@[k]@) && forall|
                j: int,
            | 0 <= j < k ==> parses(#[trigger] raw@[j]@),
{
    let mut gs: Vec<Glob> = Vec::new();
    let mut i: usize = 0;
    while i < raw.len()
        invariant
            i <= raw@.len(),
            gs@.len() == i,
            forall|j: int| 0 <= j < i ==> parses(#[trigger] raw@[j]@),
            forall|j: int| 0 <= j < i ==> #[trigger] gs@[j].parsed_from(raw@[j]@),
        decreases raw.len() - i,
    {
        match Glob::parse(raw[i].as_str()) {
            Ok(g) => gs.push(g),
            Err(e) => {
                assert(!parses(raw@[i as int]@));
                return Err(e);
            },
        }
        i = i + 1;
    }
    Ok(gs)
}

/// Where to look, and what to keep.
pub struct FindOpts {
    /// The directory that is walked.
    pub dir: String,
    /// Extensions (without the dot) of which any one admits a file; none
    /// admits every file.
    pub file_types: Vec<String>,
    /// Patterns that must all accept a file.
    pub globs: Vec<Glob>,
}

impl FindOpts {
    /// Both checks pass for `path`.
    pub open spec fn admits_spec(&self, path: Seq<char>) -> bool {
        extension_listed(self.file_types@, path) && all_accept(self.globs@, path)
    }

    /// A walked entry at `path` is kept: it is no directory and is admitted.
    pub open spec fn wants_spec(&self, path: Seq<char>, is_dir: bool) -> bool {
        !is_dir && self.admits_spec(path)
    }

    /// Whether a file at `path` passes the extension check and the
    /// pattern check.
    pub fn admits(&self, path: &str) -> (r: bool)
        ensures
            r == self.admits_spec(path@),
    {
        fts_match(path, self.file_types.as_slice()) && globs_match(path, self.globs.as_slice())
    }

    /// Whether a walked entry is kept: directories never are, files when
    /// they are admitted.
    pub fn wants(&self, path: &str, is_dir: bool) -> (r: bool)
        ensures
            r == self.wants_spec(path@, is_dir),
    {
        !is_dir && self.admits(path)
    }
}

/// With no extensions and no patterns, every file is kept and no
/// directory is.
pub proof fn empty_filters_keep_every_file(opts: &FindOpts, path: Seq<char>, is_dir: bool)
    requires
        opts.file_types@.len() == 0,
        opts.globs@.len() == 0,
    ensures
        opts.wants_spec(path, is_dir) == !is_dir,
{
}

/// One pattern that rejects a path keeps it out, whatever the other
/// patterns and the extensions say.
pub proof fn one_rejecting_pattern_rejects(opts: &FindOpts, path: Seq<char>, i: int)
    requires
        0 <= i < opts.globs@.len(),
        !opts.globs@[i].accepts(path),
    ensures
        !opts.admits_spec(path),
{
}

} // verus!
