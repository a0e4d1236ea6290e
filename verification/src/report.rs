//! Rendering of the classified articles as report lines.

use vstd::prelude::*;
use vstd::string::StringExecFns;
use crate::article::Article;

verus! {

/// The report for a batch of posts and a batch of drafts: a `posts:`
/// header, one line per post path, then a `drafts:` header and one line
/// per draft path.
pub fn report_lines(posts: &Vec<Article>, drafts: &Vec<Article>) -> (r: Vec<String>)
    ensures
        r@.len() == 2 + posts@.len() + drafts@.len(),
        r@[0]@ == "posts:"@,
        forall|i: int| 0 <= i < posts@.len() ==> r@[1 + i]@ == posts@[i].path@,
        r@[1 + posts@.len() as int]@ == "drafts:"@,
        forall|i: int|
            0 <= i < drafts@.len() ==> r@[2 + posts@.len() + i]@ == drafts@[i].path@,
{
    let mut r: Vec<String> = Vec::new();
    r.push(String::from_str("posts:"));
    let mut i: usize = 0;
    while i < posts.len()
        invariant
            0 <= i <= posts@.len(),
            r@.len() == 1 + i,
            r@[0]@ == "posts:"@,
            forall|j: int| 0 <= j < i ==> r@[1 + j]@ == posts@[j].path@,
        decreases posts@.len() - i,
    {
        r.push(String::from_str(posts[i].path.as_str()));
        i = i + 1;
    }
    r.push(String::from_str("drafts:"));
    let mut k: usize = 0;
    while k < drafts.len()
        invariant
            0 <= k <= drafts@.len(),
            r@.len() == 2 + posts@.len() + k,
            r@[0]@ == "posts:"@,
            forall|j: int| 0 <= j < posts@.len() ==> r@[1 + j]@ == posts@[j].path@,
            r@[1 + posts@.len() as int]@ == "drafts:"@,
            forall|j: int| 0 <= j < k ==> r@[2 + posts@.len() + j]@ == drafts@[j].path@,
        decreases drafts@.len() - k,
    {
        r.push(String::from_str(drafts[k].path.as_str()));
        k = k + 1;
    }
    r
}

} // verus!
