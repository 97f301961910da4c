//! Configuration files are JSON with comments: the comments are blanked out before parsing.
use vstd::prelude::*;

use crate::load::{ConfigIssue, IssueKind};
use crate::text::owned;

verus! {

/// The text of the JSON document `text` with its `//`, `/* */` and `#` comments replaced
/// by whitespace, or `None` where that fails.
pub uninterp spec fn json_without_comments(text: Seq<char>) -> Option<Seq<char>>;

/// `strip_comments_from_json_str` of the config utilities: the document with its comments
/// replaced by whitespace, or `None` where the crate reports an error. The stripping itself is named
/// by `json_without_comments`.
#[verifier::external_body]
fn strip_comments_from_json_str(json_str: &String) -> (r: Option<String>)
    ensures
        r is Some <==> json_without_comments(json_str@) is Some,
        r matches Some(s) ==> Some(s@) == json_without_comments(json_str@),
{
    unc_config_utils::strip_comments_from_json_str(json_str).ok()
}

/// The JSON document `json_str` with its comments blanked out, or `None` where they cannot be
/// blanked out.
pub fn strip_comments(json_str: &String) -> (r: Option<String>)
    ensures
        r is Some <==> json_without_comments(json_str@) is Some,
        r matches Some(s) ==> Some(s@) == json_without_comments(json_str@),
{
    strip_comments_from_json_str(json_str)
}

/// The complaint about a configuration file at `path` whose comments cannot be blanked out.
pub open spec fn strip_failure_message(path: Seq<char>) -> Seq<char> {
    "Failed to strip comments from "@ + path
}

/// The configuration document read from `path`, with its comments blanked out; a configuration
/// file problem where they cannot be blanked out.
pub fn strip_config_comments(json_str: &String, path: &str) -> (r: Result<String, ConfigIssue>)
    ensures
        r is Ok <==> json_without_comments(json_str@) is Some,
        r matches Ok(s) ==> Some(s@) == json_without_comments(json_str@),
        r matches Err(e) ==> e@ == (IssueKind::ConfigFile, strip_failure_message(path@)),
{
    match strip_comments_from_json_str(json_str) {
        Some(s) => Ok(s),
        None => {
            let mut m = owned("Failed to strip comments from ");
            m.append(path);
            Err(ConfigIssue { kind: IssueKind::ConfigFile, message: m })
        },
    }
}

} // verus!
