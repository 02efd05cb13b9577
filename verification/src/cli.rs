use vstd::prelude::*;

verus! {

/// The value that the build reports for the git description when it has
/// none to give.
pub open spec fn idempotent_marker() -> Seq<char> {
    "VERGEN_IDEMPOTENT_OUTPUT"@
}

/// The version text shown by `--version`: the package version, a dash and
/// the git description when the build knows one, the build date in
/// parentheses, a blank line, and the authors.
pub open spec fn version_text(
    pkg_version: Seq<char>,
    git_describe: Seq<char>,
    build_date: Seq<char>,
    authors: Seq<char>,
) -> Seq<char> {
    let git = if git_describe == idempotent_marker() {
        Seq::empty()
    } else {
        "-"@ + git_describe
    };
    pkg_version + git + " ("@ + build_date + ")"@ + "\n\nAuthors: "@ + authors
}

/// Decides whether two strings hold the same text.
pub fn same_text(a: &str, b: &str) -> (r: bool)
    ensures
        r == (a@ == b@),
{
    let n = a.unicode_len();
    if n != b.unicode_len() {
        return false;
    }
    let mut i: usize = 0;
    while i < n
        invariant
            n == a@.len(),
            n == b@.len(),
            i <= n,
            forall|k: int| 0 <= k < i ==> a@[k] == b@[k],
        decreases n - i,
    {
        if a.get_char(i) != b.get_char(i) {
            return false;
        }
        i = i + 1;
    }
    assert(a@ =~= b@);
    true
}

/// Builds the version text from what the build knows of itself.
pub fn version(pkg_version: &str, git_describe: &str, build_date: &str, authors: &str) -> (r: String)
    ensures
        r@ == version_text(pkg_version@, git_describe@, build_date@, authors@),
{
    let mut r = String::from_str(pkg_version);
    if !same_text(git_describe, "VERGEN_IDEMPOTENT_OUTPUT") {
        r.append("-");
        r.append(git_describe);
    } else {
        proof {
            assert(r@ + Seq::<char>::empty() =~= r@);
        }
    }
    r.append(" (");
    r.append(build_date);
    r.append(")");
    r.append("\n\nAuthors: ");
    r.append(authors);
    r
}

} // verus!
