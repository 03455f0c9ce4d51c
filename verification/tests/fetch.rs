use downfav::commands::errors::CommandError;
use downfav::commands::fetch::fetch_account;
use downfav::commands::fetch::fetch_account_favourites;
use downfav::commands::fetch::fetch_all;
use downfav::commands::fetch::sync_account;
use downfav::commands::fetch::FetchPass;
use downfav::commands::fetch::NewFavourite;
use downfav::commands::fetch::Taken;
use downfav::config::account::AccountConfig;
use downfav::config::account::Credentials;
use downfav::config::config::Config;
use downfav::storage::data::Data;
use downfav::storage::data::RemotePost;
use downfav::storage::joplin::Joplin;
use downfav::storage::markdown::Markdown;
use downfav::storage::markdown::MarkdownConfig;
use downfav::storage::org::Org;
use downfav::storage::org::OrgConfig;
use downfav::storage::storage::Storage;
use downfav::storage::storage::Step;
use downfav::storage::Storages;

fn no_storages() -> Storages {
    Storages { markdown: None, org: None, joplin: None }
}

fn post(id: &str) -> RemotePost {
    RemotePost {
        id: String::from(id),
        account: String::from("alice"),
        content: format!("<p>post {}</p>", id),
        spoiler_text: String::new(),
        url: Some(format!("https://example.org/@alice/{}", id)),
        media: vec![],
    }
}

fn feed(ids: &[&str]) -> Vec<RemotePost> {
    ids.iter().map(|id| post(id)).collect()
}

fn ids(records: &Vec<Data>) -> Vec<String> {
    records.iter().map(|record| record.id.clone()).collect()
}

fn credentials() -> Credentials {
    Credentials {
        base: String::from("https://a.example"),
        client_id: String::from("id"),
        client_secret: String::from("secret"),
        redirect: String::from("urn:ietf:wg:oauth:2.0:oob"),
        token: String::from("token"),
    }
}

#[test]
fn pass_stops_at_the_watermark() {
    let fetched = fetch_account_favourites("3", &feed(&["5", "4", "3", "2", "1"]), &no_storages());
    assert_eq!(ids(&fetched.records), vec!["5", "4"]);
    assert_eq!(fetched.most_recent, Some(String::from("5")));
    assert_eq!(fetched.records[0], Data::from_post(&post("5")));
    assert_eq!(fetched.records[1], Data::from_post(&post("4")));
}

#[test]
fn second_pass_finds_nothing() {
    let posts = feed(&["5", "4", "3", "2", "1"]);
    let first = fetch_account_favourites("3", &posts, &no_storages());
    let watermark = first.most_recent.unwrap();
    let second = fetch_account_favourites(&watermark, &posts, &no_storages());
    assert!(second.records.is_empty());
    assert_eq!(second.most_recent, None);
}

#[test]
fn empty_watermark_takes_everything() {
    let fetched = fetch_account_favourites("", &feed(&["5", "4", "", "2"]), &no_storages());
    assert_eq!(ids(&fetched.records), vec!["5", "4", "", "2"]);
    assert_eq!(fetched.most_recent, Some(String::from("5")));
}

#[test]
fn unknown_watermark_takes_everything() {
    let fetched = fetch_account_favourites("9", &feed(&["5", "4"]), &no_storages());
    assert_eq!(ids(&fetched.records), vec!["5", "4"]);
    assert_eq!(fetched.most_recent, Some(String::from("5")));
}

#[test]
fn empty_feed_gives_nothing() {
    let fetched = fetch_account_favourites("3", &vec![], &no_storages());
    assert!(fetched.records.is_empty());
    assert_eq!(fetched.most_recent, None);
    let fetched = fetch_account_favourites("", &vec![], &no_storages());
    assert!(fetched.records.is_empty());
    assert_eq!(fetched.most_recent, None);
}

#[test]
fn watermark_at_the_top_gives_nothing() {
    let fetched = fetch_account_favourites("5", &feed(&["5", "4", "3"]), &no_storages());
    assert!(fetched.records.is_empty());
    assert_eq!(fetched.most_recent, None);
}

#[test]
fn watermarks_are_compared_as_text() {
    let fetched = fetch_account_favourites("10", &feed(&["9", "100", "10", "1"]), &no_storages());
    assert_eq!(ids(&fetched.records), vec!["9", "100"]);
    assert_eq!(fetched.most_recent, Some(String::from("9")));
}

#[test]
fn pass_takes_posts_until_the_watermark() {
    let mut pass = FetchPass::new("3");
    assert_eq!(pass.offer(&post("5")), Some(Data::from_post(&post("5"))));
    assert_eq!(pass.offer(&post("4")), Some(Data::from_post(&post("4"))));
    assert!(!pass.done);
    assert_eq!(pass.offer(&post("3")), None);
    assert!(pass.done);
    assert_eq!(pass.offer(&post("2")), None);
    assert_eq!(pass.new_favourite(), Some(String::from("5")));
}

#[test]
fn exhausted_pass_keeps_its_candidate() {
    let mut pass = FetchPass::new("3");
    assert_eq!(pass.new_favourite(), None);
    assert!(pass.offer(&post("5")).is_some());
    pass.exhausted();
    assert!(pass.done);
    assert_eq!(pass.offer(&post("4")), None);
    assert_eq!(pass.new_favourite(), Some(String::from("5")));
}

#[test]
fn failed_save_keeps_the_watermark() {
    let mut pass = FetchPass::new("3");
    assert!(pass.offer(&post("5")).is_some());
    pass.save_failed();
    assert!(!pass.done);
    assert!(pass.offer(&post("4")).is_some());
    assert_eq!(pass.offer(&post("3")), None);
    assert_eq!(pass.new_favourite(), None);
}

#[test]
fn failed_feed_ends_the_pass_and_keeps_the_watermark() {
    let mut pass = FetchPass::new("3");
    assert!(pass.offer(&post("5")).is_some());
    pass.feed_failed();
    assert!(pass.done);
    assert!(pass.failed);
    assert_eq!(pass.offer(&post("4")), None);
    assert_eq!(pass.new_favourite(), None);
}

#[test]
fn sync_takes_the_newest_post() {
    assert_eq!(sync_account(Some(&post("5"))), Some(String::from("5")));
    assert_eq!(sync_account(None), None);
}

#[test]
fn fetch_all_writes_the_watermarks() {
    let mut config = Config::new();
    config.add_account("alice", credentials());
    config.add_account("bob", credentials());
    let found = vec![
        NewFavourite { account: String::from("alice"), favourite: String::from("5") },
        NewFavourite { account: String::from("carol"), favourite: String::from("7") },
        NewFavourite { account: String::from("alice"), favourite: String::from("6") },
    ];
    fetch_all(&mut config, &found);
    assert_eq!(config.len(), 2);
    assert_eq!(config.account("alice").unwrap().top_favourite(), "6");
    assert_eq!(config.account("bob").unwrap().top_favourite(), "");
    fetch_all(&mut config, &vec![]);
    assert_eq!(config.account("alice").unwrap().top_favourite(), "6");
}

#[test]
fn fetched_watermark_survives_in_the_configuration() {
    let mut config = Config::new();
    config.add_account("alice", credentials());
    let posts = feed(&["42"]);
    let top = config.account("alice").unwrap().top_favourite();
    assert_eq!(top, "");
    let fetched = fetch_account_favourites(&top, &posts, &no_storages());
    let found = vec![NewFavourite { account: String::from("alice"), favourite: fetched.most_recent.unwrap() }];
    fetch_all(&mut config, &found);
    let top = config.account("alice").unwrap().top_favourite();
    assert_eq!(top, "42");
    let again = fetch_account_favourites(&top, &posts, &no_storages());
    assert!(again.records.is_empty());
    assert_eq!(again.most_recent, None);
}

#[test]
fn storages_follow_the_account() {
    let mut account = AccountConfig::new(credentials());
    let storages = Storages::new(&account, None).unwrap();
    assert!(storages.markdown.is_none());
    assert!(storages.org.is_none());
    assert!(storages.joplin.is_none());
    assert!(storages.save(&Data::from_post(&post("5"))).is_empty());
    account.set_markdown(MarkdownConfig { path: String::from("/md") });
    account.set_org(OrgConfig { path: String::from("/org") });
    let joplin = Joplin { port: 1, token: String::from("t"), folder_id: String::from("f") };
    let storages = Storages::new(&account, Some(joplin)).unwrap();
    assert_eq!(storages.markdown.as_ref().unwrap().path, "/md");
    assert_eq!(storages.org.as_ref().unwrap().path, "/org");
    assert_eq!(storages.joplin.as_ref().unwrap().folder_id, "f");
}

#[test]
fn record_goes_to_every_enabled_storage() {
    let mut account = AccountConfig::new(credentials());
    account.set_markdown(MarkdownConfig { path: String::from("/md") });
    let joplin = Joplin { port: 1, token: String::from("t"), folder_id: String::from("f") };
    let storages = Storages::new(&account, Some(joplin)).unwrap();
    let plans = storages.save(&Data::from_post(&post("5")));
    assert_eq!(plans.len(), 2);
    assert_eq!(plans[0][0], Step::CreateDirs { path: String::from("/md/alice/5") });
    assert_eq!(plans[0].len(), 2);
    assert_eq!(
        plans[1],
        vec![Step::CreateNote {
            endpoint: String::from("http://localhost:1/notes?token=t"),
            parent_id: String::from("f"),
            title: String::from("alice/5"),
            body: String::from("post 5\n\nhttps://example.org/@alice/5"),
            source_url: String::from("https://example.org/@alice/5"),
        }]
    );
}

#[test]
fn fetch_account_writes_the_watermark() {
    let mut config = Config::new();
    config.add_account("alice", credentials());
    assert_eq!(fetch_account(&mut config, "alice", Some(String::from("5"))), Ok(()));
    assert_eq!(config.account("alice").unwrap().top_favourite(), "5");
}

#[test]
fn fetch_account_without_news_says_so() {
    let mut config = Config::new();
    config.add_account("alice", credentials());
    config.set_new_favourite("alice", "5");
    assert_eq!(fetch_account(&mut config, "alice", None), Err(CommandError::NoNewFavourite));
    assert_eq!(config.account("alice").unwrap().top_favourite(), "5");
}

#[test]
fn fetch_account_needs_the_account() {
    let mut config = Config::new();
    config.add_account("alice", credentials());
    assert_eq!(
        fetch_account(&mut config, "bob", Some(String::from("5"))),
        Err(CommandError::NoSuchAccount)
    );
    assert_eq!(fetch_account(&mut config, "bob", None), Err(CommandError::NoSuchAccount));
    assert_eq!(config.len(), 1);
    assert_eq!(config.account("alice").unwrap().top_favourite(), "");
}

fn two_storages() -> Storages {
    Storages {
        markdown: Some(Markdown::new(&MarkdownConfig { path: String::from("/md") })),
        org: Some(Org::on_date(&OrgConfig { path: String::from("/org") }, 2021, 3, 7)),
        joplin: None,
    }
}

#[test]
fn every_new_post_goes_to_every_enabled_storage() {
    let storages = two_storages();
    let fetched = fetch_account_favourites("3", &feed(&["5", "4", "3", "2"]), &storages);
    assert_eq!(ids(&fetched.records), vec!["5", "4"]);
    assert_eq!(fetched.plans.len(), 2);
    for (record, plans) in fetched.records.iter().zip(fetched.plans.iter()) {
        assert_eq!(plans.len(), 2);
        assert_eq!(plans[0], storages.markdown.as_ref().unwrap().save(record));
        assert_eq!(plans[1], storages.org.as_ref().unwrap().save(record));
    }
    assert_eq!(fetched.plans[1][0][0], Step::CreateDirs { path: String::from("/md/alice/4") });
}

#[test]
fn pass_without_storages_plans_nothing() {
    let fetched = fetch_account_favourites("", &feed(&["5", "4"]), &no_storages());
    assert_eq!(fetched.plans, vec![Vec::<Vec<Step>>::new(), Vec::<Vec<Step>>::new()]);
}

#[test]
fn dispatch_plans_the_save_of_a_taken_post() {
    let storages = two_storages();
    let mut pass = FetchPass::new("3");
    let taken = pass.dispatch(&storages, &post("5")).unwrap();
    assert_eq!(taken.record, Data::from_post(&post("5")));
    assert_eq!(taken.plans, storages.save(&taken.record));
    assert_eq!(taken.plans.len(), 2);
    assert_eq!(pass.dispatch(&storages, &post("3")), None::<Taken>);
    assert!(pass.done);
    assert_eq!(pass.dispatch(&storages, &post("2")), None::<Taken>);
    assert_eq!(pass.new_favourite(), Some(String::from("5")));
}
