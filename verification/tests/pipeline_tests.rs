use bloom::article::ArticleType;
use bloom::article::classify;
use bloom::config::ConfigError;
use bloom::listing::EntryKind;
use bloom::listing::FsEntry;
use bloom::listing::fetch_files;
use bloom::pipeline::ImportPlan;
use bloom::pipeline::plan_import;
use bloom::pipeline::source_dirs;
use bloom::report::report_lines;

#[test]
fn source_dirs_join_the_two_subdirectories() {
    let (posts, drafts) = source_dirs("./site");
    assert_eq!(posts, "./site/source/_posts".to_string());
    assert_eq!(drafts, "./site/source/_drafts".to_string());
}

#[test]
fn plan_import_derives_the_directories_from_the_configuration() {
    let plan = plan_import("[hexo]\npath = \"./site\"\n").unwrap();
    assert_eq!(
        plan,
        ImportPlan {
            hexo_path: "./site".to_string(),
            posts_dir: "./site/source/_posts".to_string(),
            drafts_dir: "./site/source/_drafts".to_string(),
        }
    );
}

#[test]
fn plan_import_without_hexo_section_plans_nothing() {
    assert_eq!(plan_import("title = \"x\"\n"), Err(ConfigError::MissingKey));
}

#[test]
fn plan_import_on_invalid_toml_is_parse_error() {
    assert!(matches!(plan_import("[hexo"), Err(ConfigError::Parse(_))));
}

#[test]
fn report_lines_groups_posts_then_drafts() {
    let posts = classify(&vec!["a.md".to_string(), "b.md".to_string()], ArticleType::Post);
    let drafts = classify(&vec!["c.md".to_string()], ArticleType::Draft);
    let lines = report_lines(&posts, &drafts);
    assert_eq!(
        lines,
        vec![
            "posts:".to_string(),
            "a.md".to_string(),
            "b.md".to_string(),
            "drafts:".to_string(),
            "c.md".to_string(),
        ]
    );
}

#[test]
fn report_lines_of_empty_batches_is_only_headers() {
    let lines = report_lines(&Vec::new(), &Vec::new());
    assert_eq!(lines, vec!["posts:".to_string(), "drafts:".to_string()]);
}

#[test]
fn three_records() {
    // The whole pipeline on plain values: a configuration naming ./site,
    // two posts and one draft found on disk.
    let plan = plan_import("[hexo]\npath = \"./site\"\n").unwrap();
    assert_eq!(plan.posts_dir, "./site/source/_posts".to_string());
    assert_eq!(plan.drafts_dir, "./site/source/_drafts".to_string());

    let posts_listing = vec![
        FsEntry { path: "a.md".to_string(), kind: EntryKind::File },
        FsEntry { path: "b.md".to_string(), kind: EntryKind::File },
        FsEntry { path: "nested".to_string(), kind: EntryKind::Directory },
    ];
    let drafts_listing = vec![FsEntry { path: "c.md".to_string(), kind: EntryKind::File }];

    let posts = classify(&fetch_files(&posts_listing), ArticleType::Post);
    let drafts = classify(&fetch_files(&drafts_listing), ArticleType::Draft);
    let lines = report_lines(&posts, &drafts);
    assert_eq!(
        lines,
        vec![
            "posts:".to_string(),
            "a.md".to_string(),
            "b.md".to_string(),
            "drafts:".to_string(),
            "c.md".to_string(),
        ]
    );
}
