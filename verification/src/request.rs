use vstd::prelude::*;

verus! {

/// The address of `path` on the database service rooted at `root`: the
/// root followed by the path.
pub fn api_url(root: &str, path: &str) -> (url: String)
    ensures
        url@ == root@ + path@,
{
    let mut url: String = root.to_owned();
    url.append(path);
    url
}

} // verus!
