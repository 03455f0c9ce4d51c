use downfav::storage::attachment::Attachment;
use downfav::storage::data::Data;
use downfav::storage::data::RemotePost;

#[test]
fn filename_drops_path_and_query() {
    let attachment = Attachment::new("https://host/path/name.png?x=1");
    assert_eq!(attachment.filename(), "name.png");
}

#[test]
fn filename_without_query_is_the_last_segment() {
    let attachment = Attachment::new("https://host/name");
    assert_eq!(attachment.filename(), "name");
}

#[test]
fn filename_without_slash_is_the_url_up_to_the_query() {
    assert_eq!(Attachment::new("name.gif").filename(), "name.gif");
    assert_eq!(Attachment::new("name.gif?size=1?2").filename(), "name.gif");
    assert_eq!(Attachment::new("").filename(), "");
}

#[test]
fn filename_of_a_directory_is_empty() {
    assert_eq!(Attachment::new("https://host/path/").filename(), "");
    assert_eq!(Attachment::new("https://host/path/?x=1").filename(), "");
}

#[test]
fn filename_looks_only_at_the_path() {
    assert_eq!(Attachment::new("https://host/a.png?next=/b/c").filename(), "a.png");
    assert_eq!(Attachment::new("https://host/a?next=/b/c.jpg").filename(), "a");
    assert_eq!(Attachment::new("a.png?/").filename(), "a.png");
    assert_eq!(Attachment::new("?a/b").filename(), "");
}

#[test]
fn filename_is_what_follows_the_last_slash_of_the_path() {
    assert_eq!(Attachment::new("https://host/é/ü.png?q").filename(), "ü.png");
    assert_eq!(Attachment::new("/a/b/c").filename(), "c");
    assert_eq!(Attachment::new("a//b").filename(), "b");
}

#[test]
fn attachment_keeps_its_url() {
    let attachment = Attachment::new("https://host/a.png");
    assert_eq!(attachment.url, "https://host/a.png");
    assert_eq!(attachment, Attachment { url: String::from("https://host/a.png") });
}

fn post() -> RemotePost {
    RemotePost {
        id: String::from("42"),
        account: String::from("alice@example.org"),
        content: String::from("<p>hi</p>"),
        spoiler_text: String::from("careful"),
        url: Some(String::from("https://example.org/@alice/42")),
        media: vec![
            String::from("https://example.org/media/one.png?x=1"),
            String::from("https://example.org/media/two.mp4"),
        ],
    }
}

#[test]
fn record_maps_the_fields_of_the_post() {
    let record = Data::from_post(&post());
    assert_eq!(record.id, "42");
    assert_eq!(record.account, "alice@example.org");
    assert_eq!(record.title, "careful");
    assert_eq!(record.text, "<p>hi</p>");
    assert_eq!(record.source, "https://example.org/@alice/42");
}

#[test]
fn record_keeps_the_media_in_order() {
    let record = Data::from_post(&post());
    assert_eq!(
        record.attachments,
        vec![
            Attachment::new("https://example.org/media/one.png?x=1"),
            Attachment::new("https://example.org/media/two.mp4"),
        ]
    );
}

#[test]
fn record_without_url_has_an_empty_source() {
    let mut origin = post();
    origin.url = None;
    origin.media = vec![];
    origin.spoiler_text = String::new();
    let record = Data::from_post(&origin);
    assert_eq!(record.source, "");
    assert_eq!(record.title, "");
    assert!(record.attachments.is_empty());
}
