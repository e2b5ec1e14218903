//! Text rules of a build: the crate name as compiled, and placeholder substitution.
use vstd::prelude::*;
use vstd::string::*;

verus! {

/// The placeholder that asset files hold where the compiled crate name belongs.
pub const PROJECT_NAME_TOKEN: &'static str = "$PROJECT_NAME";

/// `text` with each occurrence of `pattern`, taken from left to right without overlap,
/// replaced by `with`.
pub open spec fn replaced(text: Seq<char>, pattern: Seq<char>, with: Seq<char>) -> Seq<char>
    recommends
        pattern.len() > 0,
    decreases text.len(),
{
    if pattern.len() == 0 || text.len() < pattern.len() {
        text
    } else if text.subrange(0, pattern.len() as int) == pattern {
        with + replaced(text.subrange(pattern.len() as int, text.len() as int), pattern, with)
    } else {
        seq![text[0]] + replaced(text.drop_first(), pattern, with)
    }
}

/// Relies on `str::replace`: every non-overlapping match of a non-empty pattern, found
/// from left to right, is replaced.
#[verifier::external_body]
fn replace_all(text: &str, pattern: &str, with: &str) -> (r: String)
    requires
        pattern@.len() > 0,
    ensures
        r@ == replaced(text@, pattern@, with@),
{
    text.replace(pattern, with)
}

/// The name under which the compiler emits a package's artifacts: each `-` becomes `_`.
pub fn built_project_name(project_name: &str) -> (r: String)
    ensures
        r@ == replaced(project_name@, "-"@, "_"@),
{
    proof {
        reveal_strlit("-");
    }
    replace_all(project_name, "-", "_")
}

/// Writes the compiled crate name into an asset's text in place of the placeholder.
pub fn fill_project_name(contents: &str, built_name: &str) -> (r: String)
    ensures
        r@ == replaced(contents@, PROJECT_NAME_TOKEN@, built_name@),
{
    proof {
        reveal_strlit("$PROJECT_NAME");
    }
    replace_all(contents, PROJECT_NAME_TOKEN, built_name)
}

/// Whether a directory entry's name is copied: hidden names, starting with `.`, are not.
pub fn is_visible_file_name(name: &str) -> (r: bool)
    ensures
        r == !(name@.len() > 0 && name@[0] == '.'),
{
    let n = name.unicode_len();
    n == 0 || name.get_char(0) != '.'
}

} // verus!
