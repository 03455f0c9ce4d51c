use downfav::commands::fetch::fetch_account_favourites;
use downfav::storage::attachment::Attachment;
use downfav::storage::data::Data;
use downfav::storage::data::RemotePost;
use downfav::storage::filesystem::Filesystem;
use downfav::storage::markdown::Markdown;
use downfav::storage::markdown::MarkdownConfig;
use downfav::storage::storage::join;
use downfav::storage::storage::Step;
use downfav::storage::Storages;
use downfav::storage::storage::Storage;

fn no_storages() -> Storages {
    Storages { markdown: None, org: None, joplin: None }
}

fn record(attachments: Vec<Attachment>) -> Data {
    Data {
        id: String::from("42"),
        account: String::from("alice"),
        title: String::from("cw"),
        text: String::from("<p>hi</p>"),
        attachments,
        source: String::from("https://example.org/@alice/42"),
    }
}

fn storage() -> Markdown {
    Markdown::new(&MarkdownConfig { path: String::from("/tmp/out") })
}

#[test]
fn join_puts_a_slash_between_the_parts() {
    assert_eq!(join("/tmp/out", "alice"), "/tmp/out/alice");
    assert_eq!(join("", "alice"), "alice");
    assert_eq!(join("", ""), "");
    assert_eq!(join("/", "alice"), "//alice");
    assert_eq!(join("data", ""), "data/");
}

#[test]
fn markdown_storage_takes_the_path_of_its_configuration() {
    assert_eq!(storage().path, "/tmp/out");
}

#[test]
fn directory_is_base_account_and_post() {
    assert_eq!(storage().dir(&record(vec![])), "/tmp/out/alice/42");
}

#[test]
fn create_dirs_names_the_directory_of_the_post() {
    assert_eq!(
        storage().create_dirs(&record(vec![])),
        Step::CreateDirs { path: String::from("/tmp/out/alice/42") }
    );
}

#[test]
fn content_goes_to_toot_md() {
    assert_eq!(
        storage().save_content(&record(vec![])),
        Step::WriteFile {
            path: String::from("/tmp/out/alice/42/toot.md"),
            content: String::from("cw\n\nhi\n\nhttps://example.org/@alice/42"),
        }
    );
}

#[test]
fn each_attachment_is_downloaded_into_the_directory() {
    let attachments = vec![
        Attachment::new("https://example.org/media/one.png?x=1"),
        Attachment::new("https://example.org/media/two.mp4"),
    ];
    assert_eq!(
        storage().save_attachments(&record(attachments)),
        vec![
            Step::Download {
                url: String::from("https://example.org/media/one.png?x=1"),
                path: String::from("/tmp/out/alice/42/one.png"),
            },
            Step::Download {
                url: String::from("https://example.org/media/two.mp4"),
                path: String::from("/tmp/out/alice/42/two.mp4"),
            },
        ]
    );
    assert!(storage().save_attachments(&record(vec![])).is_empty());
}

#[test]
fn save_makes_the_directory_writes_the_text_and_downloads() {
    let data = record(vec![Attachment::new("https://example.org/media/one.png")]);
    let steps = storage().save(&data);
    assert_eq!(
        steps,
        vec![
            storage().create_dirs(&data),
            storage().save_content(&data),
            Step::Download {
                url: String::from("https://example.org/media/one.png"),
                path: String::from("/tmp/out/alice/42/one.png"),
            },
        ]
    );
}

#[test]
fn save_twice_gives_the_same_steps() {
    let data = record(vec![Attachment::new("https://example.org/media/one.png")]);
    assert_eq!(storage().save(&data), storage().save(&data));
}

#[test]
fn fetched_post_lands_in_its_own_directory() {
    let feed = vec![RemotePost {
        id: String::from("42"),
        account: String::from("alice"),
        content: String::from("<p>hi</p>"),
        spoiler_text: String::new(),
        url: None,
        media: vec![],
    }];
    let storages = Storages { markdown: Some(storage()), org: None, joplin: None };
    let fetched = fetch_account_favourites("", &feed, &storages);
    assert_eq!(fetched.records.len(), 1);
    assert_eq!(
        fetched.plans,
        vec![vec![vec![
            Step::CreateDirs { path: String::from("/tmp/out/alice/42") },
            Step::WriteFile {
                path: String::from("/tmp/out/alice/42/toot.md"),
                content: String::from("hi"),
            },
        ]]]
    );
    assert_eq!(fetched.plans[0][0], storage().save(&fetched.records[0]));
    assert_eq!(fetched.most_recent, Some(String::from("42")));
}

#[test]
fn filesystem_saves_below_data() {
    let filesystem = Filesystem::new();
    let data = record(vec![Attachment::new("https://example.org/media/one.png")]);
    assert_eq!(filesystem.dir(&data), "data/alice/42");
    assert_eq!(filesystem.create_dirs(&data), Step::CreateDirs { path: String::from("data/alice/42") });
    assert_eq!(
        filesystem.save_content(&data),
        Step::WriteFile {
            path: String::from("data/alice/42/toot.md"),
            content: String::from("cw\n\nhi\n\nhttps://example.org/@alice/42"),
        }
    );
    assert_eq!(
        filesystem.save_attachments(&data),
        vec![Step::Download {
            url: String::from("https://example.org/media/one.png"),
            path: String::from("data/alice/42/one.png"),
        }]
    );
    assert_eq!(
        filesystem.save(&data),
        vec![
            filesystem.create_dirs(&data),
            filesystem.save_content(&data),
            Step::Download {
                url: String::from("https://example.org/media/one.png"),
                path: String::from("data/alice/42/one.png"),
            },
        ]
    );
}

#[test]
fn filesystem_is_the_markdown_layout_below_data() {
    let data = record(vec![Attachment::new("https://example.org/media/one.png")]);
    let markdown = Markdown::new(&MarkdownConfig { path: String::from("data") });
    assert_eq!(Filesystem::new().save(&data), markdown.save(&data));
}

#[test]
fn markdown_config_takes_a_plain_path() {
    assert_eq!(
        MarkdownConfig::config("  /var/favourites \n"),
        Ok(MarkdownConfig { path: String::from("/var/favourites") })
    );
}

#[test]
fn empty_base_is_the_working_directory() {
    let storage = Markdown::new(&MarkdownConfig { path: String::new() });
    let data = record(vec![Attachment::new("https://example.org/media/one.png")]);
    assert_eq!(storage.dir(&data), "alice/42");
    assert_eq!(
        storage.save(&data),
        vec![
            Step::CreateDirs { path: String::from("alice/42") },
            Step::WriteFile {
                path: String::from("alice/42/toot.md"),
                content: String::from("cw\n\nhi\n\nhttps://example.org/@alice/42"),
            },
            Step::Download {
                url: String::from("https://example.org/media/one.png"),
                path: String::from("alice/42/one.png"),
            },
        ]
    );
}

#[test]
fn directory_agrees_with_the_path_of_the_standard_library() {
    for base in ["", "/tmp/out", "relative/dir", "data"] {
        let storage = Markdown::new(&MarkdownConfig { path: String::from(base) });
        let data = record(vec![]);
        let expected = std::path::Path::new(base).join("alice").join("42");
        assert_eq!(std::path::Path::new(&storage.dir(&data)), expected.as_path(), "{:?}", base);
    }
}
