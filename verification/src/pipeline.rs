//! The import pipeline's decisions: from configuration text to the
//! directories to enumerate.

use vstd::prelude::*;
use vstd::string::StringExecFns;
use crate::config::ConfigError;
use crate::config::hexo_path_of;
use crate::config::load_config;
use crate::config::toml_document;

verus! {

/// What a loaded configuration asks the run to do: the site root and the
/// two directories whose regular files are to be listed.
#[derive(Debug, Clone, PartialEq, Eq)]
pub struct ImportPlan {
    pub hexo_path: String,
    pub posts_dir: String,
    pub drafts_dir: String,
}

/// A plan is for a given site root when the two directories are
/// `source/_posts` and `source/_drafts` under that root.
pub open spec fn plan_for(plan: ImportPlan, hexo_path: Seq<char>) -> bool {
    &&& plan.hexo_path@ == hexo_path
    &&& plan.posts_dir@ == hexo_path + "/source/_posts"@
    &&& plan.drafts_dir@ == hexo_path + "/source/_drafts"@
}

/// The two directories enumerated under a site root: `source/_posts` and
/// `source/_drafts`, joined onto the root.
pub fn source_dirs(hexo_path: &str) -> (r: (String, String))
    ensures
        r.0@ == hexo_path@ + "/source/_posts"@,
        r.1@ == hexo_path@ + "/source/_drafts"@,
{
    let mut posts = String::from_str(hexo_path);
    posts.append("/source/_posts");
    let mut drafts = String::from_str(hexo_path);
    drafts.append("/source/_drafts");
    (posts, drafts)
}

/// Loads the configuration from its text and derives the directories to
/// enumerate under the configured site root.
///
/// Every configuration failure is returned as it came from the loader,
/// and then no plan exists: nothing is enumerated for a configuration
/// that did not load.
pub fn plan_import(text: &str) -> (r: Result<ImportPlan, ConfigError>)
    ensures
        match toml_document(text@) {
            Some(m) => match hexo_path_of(m) {
                Some(p) => r matches Ok(plan) && plan_for(plan, p),
                None => r == Err::<ImportPlan, ConfigError>(ConfigError::MissingKey),
            },
            None => r matches Err(e) && e is Parse,
        },
{
    let hexo_path = match load_config(text) {
        Ok(p) => p,
        Err(e) => return Err(e),
    };
    let (posts_dir, drafts_dir) = source_dirs(hexo_path.as_str());
    Ok(ImportPlan { hexo_path, posts_dir, drafts_dir })
}

} // verus!
