//! The settings of one run, as plain values.

use crate::filter::{parse_globs, FindOpts};
use crate::pattern::{parses, ParseError};
use vstd::prelude::*;

verus! {

/// The language models that can be asked.
#[derive(Debug, Clone, Copy, PartialEq, Eq)]
pub enum ModelKind {
    Gpt4oMini,
}

impl Default for ModelKind {
    fn default() -> (r: ModelKind)
        ensures
            r == ModelKind::Gpt4oMini,
    {
        ModelKind::Gpt4oMini
    }
}

/// The settings of one run.
#[derive(Debug, Clone)]
pub struct Args {
    /// The directory to walk; the current directory when absent.
    pub dir: Option<String>,
    /// The extensions to include (such as `kt` or `rs`).
    pub file_types: Vec<String>,
    /// The glob strings that every file must satisfy.
    pub globs: Vec<String>,
    /// The language model to use.
    pub model: String,
    /// Do not send the request to the model.
    pub dry_run: bool,
    /// Print extra debugging information.
    pub verbose: bool,
    /// The question to ask about the files, if any.
    pub prompt: Option<String>,
}

impl Args {
    /// The walk these settings ask for: the given directory, else `cwd`;
    /// the extensions as they are; each glob string parsed, the first one
    /// refused giving the error.
    pub fn find_opts(self, cwd: String) -> (r: Result<FindOpts, ParseError>)
        ensures
            r is Ok <==> forall|i: int| 0 <= i < self.globs@.len() ==> parses(#[trigger] self.globs@[i]@),
            r matches Ok(o) ==> {
                &&& o.dir@ == (match self.dir {
                    Some(d) => d@,
                    None => cwd@,
                })
                &&& o.file_types@ == self.file_types@
                &&& o.globs@.len() == self.globs@.len()
                &&& forall|i: int| 0 <= i < self.globs@.len() ==> #[trigger] o.globs@[i].parsed_from(self.globs@[i]@)
            },
            r matches Err(e) ==> exists|k: int|
                0 <= k < self.globs@.len() && !parses(#[trigger] self.globs@[k]@) && e.reports(
                    self.globs@[k]@,
                ) && forall|j: int| 0 <= j < k ==> parses(#[trigger] self.globs@[j]@),
    {
        let globs = match parse_globs(self.globs.as_slice()) {
            Ok(gs) => gs,
            Err(e) => return Err(e),
        };
        let dir = match self.dir {
            Some(d) => d,
            None => cwd,
        };
        Ok(FindOpts { dir, file_types: self.file_types, globs })
    }
}

} // verus!
