use downfav::config::JoplinConfig;
use downfav::storage::attachment::Attachment;
use downfav::storage::data::Data;
use downfav::storage::joplin::Folder;
use downfav::storage::joplin::FolderList;
use downfav::storage::joplin::complete_note;
use downfav::storage::joplin::get_folder_list;
use downfav::storage::joplin::FolderListing;
use downfav::storage::joplin::Joplin;
use downfav::storage::joplin::Resource;
use downfav::storage::storage::Step;
use downfav::storage::storage::Storage;
use std::path::Path;

fn config(folder: &str) -> JoplinConfig {
    JoplinConfig { port: 41184, folder: String::from(folder), token: String::from("secret") }
}

fn folder(id: &str, title: &str) -> Folder {
    Folder { id: String::from(id), title: String::from(title) }
}

fn folders() -> Vec<Folder> {
    vec![folder("f1", "Inbox"), folder("f2", "Favourites"), folder("f3", "Favourites")]
}

fn joplin() -> Joplin {
    Joplin { port: 41184, token: String::from("secret"), folder_id: String::from("f2") }
}

fn resource(id: &str, filename: &str) -> Resource {
    Resource { id: String::from(id), filename: String::from(filename) }
}

fn record(attachments: Vec<Attachment>) -> Data {
    Data {
        id: String::from("42"),
        account: String::from("alice"),
        title: String::new(),
        text: String::from("<p>hi</p>"),
        attachments,
        source: String::from("https://example.org/@alice/42"),
    }
}

#[test]
fn find_folder_takes_the_first_with_the_title() {
    assert_eq!(Joplin::find_folder(&folders(), "Favourites"), Some(String::from("f2")));
    assert_eq!(Joplin::find_folder(&folders(), "Inbox"), Some(String::from("f1")));
}

#[test]
fn find_folder_finds_nothing_for_an_unknown_title() {
    assert_eq!(Joplin::find_folder(&folders(), "favourites"), None);
    assert_eq!(Joplin::find_folder(&folders(), ""), None);
    assert_eq!(Joplin::find_folder(&vec![], "Favourites"), None);
}

#[test]
fn connection_needs_the_notebook() {
    assert_eq!(Joplin::new_from_config(&config("Favourites"), &folders()), Some(joplin()));
}

#[test]
fn connection_fails_without_the_notebook() {
    assert_eq!(Joplin::new_from_config(&config("Missing"), &folders()), None);
    assert_eq!(Joplin::new_from_config(&config("Favourites"), &vec![]), None);
}

#[test]
fn listing_starts_at_the_first_page() {
    let listing = FolderListing::new();
    assert_eq!(listing.page, 1);
    assert!(listing.has_more);
    assert!(listing.folders.is_empty());
    assert_eq!(
        listing.next_request(&config("Favourites")),
        Some(String::from("http://localhost:41184/folders?token=secret&page=1"))
    );
}

#[test]
fn listing_goes_on_while_there_is_more() {
    let mut listing = FolderListing::new();
    listing.receive(FolderList { items: vec![folder("f1", "Inbox")], has_more: true });
    assert_eq!(
        listing.next_request(&config("Favourites")),
        Some(String::from("http://localhost:41184/folders?token=secret&page=2"))
    );
    listing.receive(FolderList { items: vec![folder("f2", "Favourites"), folder("f3", "Favourites")], has_more: false });
    assert_eq!(listing.next_request(&config("Favourites")), None);
    assert_eq!(listing.page, 3);
    assert_eq!(listing.folders, folders());
}

#[test]
fn listing_of_an_empty_service_ends_after_one_page() {
    let mut listing = FolderListing::new();
    listing.receive(FolderList { items: vec![], has_more: false });
    assert_eq!(listing.next_request(&config("Favourites")), None);
    assert!(listing.folders.is_empty());
    assert_eq!(Joplin::new_from_config(&config("Favourites"), &listing.folders), None);
}

#[test]
fn images_are_inlineable() {
    for name in ["a.jpg", "a.jpeg", "a.png", "a.gif", "a.b.png", "name with space.gif", "é.png"] {
        assert!(Joplin::is_inlineable(name), "{}", name);
    }
}

#[test]
fn other_files_are_not_inlineable() {
    for name in ["a.mp4", "a.PNG", "png", ".png", "a.png.", "a.", "", "apng", "a.pngx", "a.jp", "a.png/b"] {
        assert!(!Joplin::is_inlineable(name), "{}", name);
    }
}

#[test]
fn inlineable_goes_by_the_extension_of_the_path() {
    let allowed = ["jpeg", "jpg", "png", "gif"];
    let names = [
        "a.jpg", "a.mp4", ".png", "..png", "a..png", "a.png.gif", "a", "", "dir.png/a", "dir/a.png",
        "dir/.gif", "a.gif.", ".a.gif", "x.jpeg", "x.jpegs", "é.ü.jpg", "a b.png",
    ];
    for name in names {
        let expected = match Path::new(name).extension().and_then(|e| e.to_str()) {
            Some(extension) => allowed.contains(&extension),
            None => false,
        };
        assert_eq!(Joplin::is_inlineable(name), expected, "{}", name);
    }
}

#[test]
fn resources_are_referenced_after_blank_lines() {
    let mut text = String::from("body");
    Joplin::add_resources_to_text(&mut text, &vec![resource("r1", "one.png"), resource("r2", "two.mp4")]);
    assert_eq!(text, "body\n\n![one.png](:/r1)\n\n[two.mp4](:/r2)");
}

#[test]
fn no_resources_leave_the_text_alone() {
    let mut text = String::from("body");
    Joplin::add_resources_to_text(&mut text, &vec![]);
    assert_eq!(text, "body");
}

#[test]
fn base_url_names_port_collection_and_token() {
    assert_eq!(joplin().base_url("notes"), "http://localhost:41184/notes?token=secret");
    assert_eq!(joplin().base_url("resources"), "http://localhost:41184/resources?token=secret");
    let other = Joplin { port: 0, token: String::new(), folder_id: String::new() };
    assert_eq!(other.base_url("x"), "http://localhost:0/x?token=");
    let other = Joplin { port: u32::MAX, token: String::from("t"), folder_id: String::new() };
    assert_eq!(other.base_url("x"), "http://localhost:4294967295/x?token=t");
}

#[test]
fn upload_carries_the_title_of_the_file() {
    assert_eq!(
        joplin().upload_resource("https://example.org/media/one.png", String::from("one.png")),
        Step::Upload {
            url: String::from("https://example.org/media/one.png"),
            endpoint: String::from("http://localhost:41184/resources?token=secret"),
            filename: String::from("one.png"),
            props: String::from("{\"title\": \"one.png\"}"),
        }
    );
}

#[test]
fn attachments_are_uploaded_in_order() {
    let attachments = vec![
        Attachment::new("https://example.org/media/one.png?x=1"),
        Attachment::new("https://example.org/media/two.mp4"),
    ];
    assert_eq!(
        joplin().save_attachments(&record(attachments)),
        vec![
            joplin().upload_resource("https://example.org/media/one.png?x=1", String::from("one.png")),
            joplin().upload_resource("https://example.org/media/two.mp4", String::from("two.mp4")),
        ]
    );
}

#[test]
fn note_goes_to_the_notebook() {
    assert_eq!(
        joplin().save_content(&String::from("t"), &String::from("b"), &String::from("s")),
        Step::CreateNote {
            endpoint: String::from("http://localhost:41184/notes?token=secret"),
            parent_id: String::from("f2"),
            title: String::from("t"),
            body: String::from("b"),
            source_url: String::from("s"),
        }
    );
}

#[test]
fn save_uploads_and_then_creates_the_note() {
    let data = record(vec![Attachment::new("https://example.org/media/one.png")]);
    assert_eq!(
        joplin().save(&data),
        vec![
            joplin().upload_resource("https://example.org/media/one.png", String::from("one.png")),
            Step::CreateNote {
                endpoint: String::from("http://localhost:41184/notes?token=secret"),
                parent_id: String::from("f2"),
                title: String::from("alice/42"),
                body: String::from("hi\n\nhttps://example.org/@alice/42"),
                source_url: String::from("https://example.org/@alice/42"),
            },
        ]
    );
}

#[test]
fn folder_list_ends_at_the_last_page() {
    let pages = vec![
        FolderList { items: vec![folder("f1", "Inbox")], has_more: true },
        FolderList { items: vec![], has_more: true },
        FolderList { items: vec![folder("f2", "Favourites"), folder("f3", "Favourites")], has_more: false },
        FolderList { items: vec![folder("f4", "Never asked for")], has_more: true },
    ];
    assert_eq!(get_folder_list(pages), folders());
}

#[test]
fn folder_list_of_no_answer_is_empty() {
    assert!(get_folder_list(vec![]).is_empty());
    assert!(get_folder_list(vec![FolderList { items: vec![], has_more: false }]).is_empty());
}

#[test]
fn folder_list_takes_what_came_when_the_answers_run_out() {
    let pages = vec![FolderList { items: vec![folder("f1", "Inbox")], has_more: true }];
    assert_eq!(get_folder_list(pages), vec![folder("f1", "Inbox")]);
}

#[test]
fn upload_properties_are_json() {
    let step = joplin().upload_resource("https://example.org/x", String::from("a\"b\\c\n\u{1}d.png"));
    match step {
        Step::Upload { props, filename, .. } => {
            assert_eq!(props, "{\"title\": \"a\\\"b\\\\c\\u000a\\u0001d.png\"}");
            assert_eq!(filename, "a\"b\\c\n\u{1}d.png");
        }
        _ => panic!("no upload"),
    }
    let step = joplin().upload_resource("https://example.org/x", String::from("\""));
    match step {
        Step::Upload { props, .. } => assert_eq!(props, "{\"title\": \"\\\"\"}"),
        _ => panic!("no upload"),
    }
}

#[test]
fn note_body_is_the_markdown_and_then_the_references() {
    let data = record(vec![
        Attachment::new("https://example.org/media/one.png"),
        Attachment::new("https://example.org/media/two.mp4"),
    ]);
    let resources = vec![resource("r1", "one.png"), resource("r2", "two.mp4")];
    let expected = Step::CreateNote {
        endpoint: String::from("http://localhost:41184/notes?token=secret"),
        parent_id: String::from("f2"),
        title: String::from("alice/42"),
        body: String::from("hi\n\nhttps://example.org/@alice/42\n\n![one.png](:/r1)\n\n[two.mp4](:/r2)"),
        source_url: String::from("https://example.org/@alice/42"),
    };
    assert_eq!(joplin().save_note(&data, &resources), expected);
    let mut plan = joplin().save(&data);
    assert_eq!(plan.len(), 3);
    let last = plan.pop().unwrap();
    assert_eq!(complete_note(last, &resources), expected);
}

#[test]
fn note_without_resources_keeps_its_body() {
    let data = record(vec![]);
    let mut plan = joplin().save(&data);
    let last = plan.pop().unwrap();
    assert_eq!(complete_note(last, &vec![]), joplin().save_note(&data, &vec![]));
}

#[test]
fn other_steps_are_complete_as_they_are() {
    let resources = vec![resource("r1", "one.png")];
    let upload = joplin().upload_resource("https://example.org/x", String::from("x"));
    assert_eq!(
        complete_note(upload, &resources),
        joplin().upload_resource("https://example.org/x", String::from("x"))
    );
    assert_eq!(
        complete_note(Step::CreateDirs { path: String::from("d") }, &resources),
        Step::CreateDirs { path: String::from("d") }
    );
}
