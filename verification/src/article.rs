//! Classification of discovered files as posts or drafts.

use vstd::prelude::*;
use vstd::string::StringExecFns;

verus! {

/// The content type of a discovered file: published or not.
#[derive(Debug, Clone, Copy, PartialEq, Eq, Structural)]
pub enum ArticleType {
    Post,
    Draft,
}

/// One discovered content file: its path and its content type.
///
/// An article owns its path, so it stays valid after the listing it was
/// derived from is dropped.
#[derive(Debug, Clone, PartialEq, Eq)]
pub struct Article {
    pub path: String,
    pub article_type: ArticleType,
}

/// Tags every path in `paths` with `tag`, in order.
///
/// The result has one article per input path, in the same order, each
/// carrying the same tag.  Total: there is no failure case.
pub fn classify(paths: &Vec<String>, tag: ArticleType) -> (r: Vec<Article>)
    ensures
        r@.len() == paths@.len(),
        forall|i: int|
            0 <= i < paths@.len() ==> r@[i].path@ == paths@[i]@ && r@[i].article_type == tag,
{
    let mut r: Vec<Article> = Vec::new();
    let mut i: usize = 0;
    while i < paths.len()
        invariant
            0 <= i <= paths@.len(),
            r@.len() == i,
            forall|j: int|
                0 <= j < i ==> r@[j].path@ == paths@[j]@ && r@[j].article_type == tag,
        decreases paths@.len() - i,
    {
        let path = String::from_str(paths[i].as_str());
        r.push(Article { path, article_type: tag });
        i = i + 1;
    }
    r
}

} // verus!
