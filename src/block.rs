//! Discovered files and the text block each one contributes.

use vstd::prelude::*;
use vstd::utf8::{decode_utf8, valid_utf8};

verus! {

/// A file that was kept: where it is, and its bytes.
pub struct FileInfo {
    pub path: String,
    pub bs: Vec<u8>,
}

/// The text `String::from_utf8_lossy` makes of `b`.
pub uninterp spec fn lossy_text(b: Seq<u8>) -> Seq<char>;

/// The text that `{:?}` makes of the string `s`: quoted and escaped.
pub uninterp spec fn quoted_text(s: Seq<char>) -> Seq<char>;

/// Relies on `String::from_utf8_lossy`: valid UTF-8 is decoded as it is,
/// and each invalid sequence becomes U+FFFD.
#[verifier::external_body]
fn lossy(b: &[u8]) -> (r: String)
    ensures
        r@ == lossy_text(b@),
        valid_utf8(b@) ==> r@ == decode_utf8(b@),
{
    String::from_utf8_lossy(b).into_owned()
}

/// Relies on the `Debug` formatting of `str`.
#[verifier::external_body]
fn quoted(s: &str) -> (r: String)
    ensures
        r@ == quoted_text(s@),
{
    format!("{s:?}")
}

/// The block for a file at `path` holding `content`.
pub open spec fn block_text(path: Seq<char>, content: Seq<u8>) -> Seq<char> {
    "<file path="@ + quoted_text(path) + ">\n"@ + lossy_text(content) + "\n"@ + "</file>\n"@
}

/// The block for a file: an opening tag naming the quoted path, the
/// content read as UTF-8 (invalid sequences replaced), and a closing tag,
/// each ending a line.
pub fn file_block(path: &str, content: &[u8]) -> (r: String)
    ensures
        r@ == block_text(path@, content@),
{
    let mut buf = String::new();
    buf.append("<file path=");
    buf.append(quoted(path).as_str());
    buf.append(">\n");
    buf.append(lossy(content).as_str());
    buf.append("\n");
    buf.append("</file>\n");
    buf
}

} // verus!
