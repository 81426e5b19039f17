//! Where the static files of the web frontend are found.
use vstd::prelude::*;

verus! {

/// `part` appended to the directory `base`, with one `/` between them, as
/// `PathBuf::join` does for a relative `part`.
pub open spec fn joined_path(base: Seq<char>, part: Seq<char>) -> Seq<char> {
    if base.len() == 0 || base.last() == '/' {
        base + part
    } else {
        base + "/"@ + part
    }
}

/// `part` appended to the directory `base`.
fn join_path(base: &str, part: &str) -> (r: String)
    ensures
        r@ == joined_path(base@, part@),
{
    let mut r = base.to_string();
    let len = base.unicode_len();
    if len > 0 && base.get_char(len - 1) != '/' {
        r.append("/");
    }
    r.append(part);
    r
}

/// The frontend's files under one directory.
pub struct FrontendFiles {
    /// The directory of static assets, served under `/static`.
    pub static_path: String,
    /// The page served at `/`.
    pub index_path: String,
}

impl FrontendFiles {
    /// The frontend whose files are in the directory `path`.
    pub fn new(path: String) -> (r: FrontendFiles)
        ensures
            r.static_path@ == joined_path(path@, "static"@),
            r.index_path@ == joined_path(path@, "index.html"@),
    {
        let index_path = join_path(path.as_str(), "index.html");
        FrontendFiles { static_path: join_path(path.as_str(), "static"), index_path }
    }
}

} // verus!
