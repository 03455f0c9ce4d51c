//! The fetch pass of one account: which posts of the feed are new, and what
//! the watermark becomes.
//!
//! The feed delivers the newest post first. A pass reads it up to the post
//! that the watermark names, saves every post before that one, and moves
//! the watermark to the first post it saw.

use crate::commands::errors::CommandError;
use crate::config::account::AccountConfigView;
use crate::config::config::Config;
use crate::storage::data::Data;
use crate::storage::data::DataView;
use crate::storage::data::RemotePost;
use crate::storage::data::RemotePostView;
use crate::storage::data::record_of;
use crate::storage::Storages;
use crate::storage::plan_of;
use crate::storage::plan_views;
use crate::storage::storage::Step;
use crate::storage::storage::StepView;
use crate::text::same;
use vstd::prelude::*;

verus! {

/// The post `id` is the one that the watermark `top` names. The empty
/// watermark names no post.
pub open spec fn at_watermark(top: Seq<char>, id: Seq<char>) -> bool {
    top.len() > 0 && id == top
}

/// The posts of `feed` that stand before the watermark: all of them where
/// no post of the feed is at the watermark.
pub open spec fn new_posts(top: Seq<char>, feed: Seq<RemotePostView>) -> Seq<RemotePostView>
    decreases feed.len(),
{
    if feed.len() == 0 {
        Seq::empty()
    } else if at_watermark(top, feed[0].id) {
        Seq::empty()
    } else {
        seq![feed[0]] + new_posts(top, feed.drop_first())
    }
}

/// The identifier of the newest new post of `feed`, where it has a new one.
pub open spec fn newest(top: Seq<char>, feed: Seq<RemotePostView>) -> Option<Seq<char>> {
    if new_posts(top, feed).len() > 0 {
        Some(feed[0].id)
    } else {
        None
    }
}

/// The watermark after a pass that found `found`: the newest post where
/// there was one, else the watermark as it was.
pub open spec fn advanced(top: Seq<char>, found: Option<Seq<char>>) -> Seq<char> {
    match found {
        Some(id) => id,
        None => top,
    }
}

/// The views of `posts`, in order.
pub open spec fn post_views(posts: Seq<RemotePost>) -> Seq<RemotePostView> {
    Seq::new(posts.len(), |i: int| posts[i]@)
}

/// The views of `records`, in order.
pub open spec fn data_views(records: Seq<Data>) -> Seq<DataView> {
    Seq::new(records.len(), |i: int| records[i]@)
}

/// The records of `posts`, in order.
pub open spec fn records_of(posts: Seq<RemotePostView>) -> Seq<DataView> {
    Seq::new(posts.len(), |i: int| record_of(posts[i]))
}

/// A pass over the feed of one account, post by post.
#[derive(Debug, PartialEq, Eq)]
pub struct FetchPass {
    /// The watermark that the pass started with.
    pub top: String,
    /// The first post that the pass saw, if it saw one.
    pub most_recent: Option<String>,
    /// The pass has reached the watermark: it takes no more posts.
    pub done: bool,
    /// A save or the feed itself has failed: the watermark stays.
    pub failed: bool,
}

/// What a [`FetchPass`] stands for.
pub struct FetchPassView {
    pub top: Seq<char>,
    pub most_recent: Option<Seq<char>>,
    pub done: bool,
    pub failed: bool,
}

impl View for FetchPass {
    type V = FetchPassView;

    open spec fn view(&self) -> FetchPassView {
        FetchPassView {
            top: self.top@,
            most_recent: match self.most_recent {
                Some(id) => Some(id@),
                None => None,
            },
            done: self.done,
            failed: self.failed,
        }
    }
}

/// The views of the plans of several records, in order.
pub open spec fn plans_views(plans: Seq<Vec<Vec<Step>>>) -> Seq<Seq<Seq<StepView>>> {
    Seq::new(plans.len(), |i: int| plan_views(plans[i]@))
}

/// For each of `posts`, in order, the plans that save its record in every
/// enabled storage of `storages`.
pub open spec fn plans_of(storages: Storages, posts: Seq<RemotePostView>) -> Seq<
    Seq<Seq<StepView>>,
> {
    Seq::new(posts.len(), |i: int| storages.plans(record_of(posts[i])))
}

/// A post that a pass took: its record, and for every enabled storage of
/// the account the plan that saves the record there.
#[derive(Debug, PartialEq, Eq)]
pub struct Taken {
    pub record: Data,
    pub plans: Vec<Vec<Step>>,
}

/// The pass after it was offered `post`. Once it is done it stays as it
/// is. At the watermark it becomes done. Any other post is taken, and the
/// first one taken is remembered.
pub open spec fn after_post(pass: FetchPassView, post: RemotePostView) -> FetchPassView {
    if pass.done {
        pass
    } else if at_watermark(pass.top, post.id) {
        FetchPassView { done: true, ..pass }
    } else {
        FetchPassView {
            most_recent: match pass.most_recent {
                Some(id) => Some(id),
                None => Some(post.id),
            },
            ..pass
        }
    }
}

/// Whether the pass takes `post`.
pub open spec fn takes(pass: FetchPassView, post: RemotePostView) -> bool {
    !pass.done && !at_watermark(pass.top, post.id)
}

impl FetchPass {
    /// A pass that starts with the watermark `top`.
    pub fn new(top: &str) -> (pass: Self)
        ensures
            pass@ == (FetchPassView { top: top@, most_recent: None, done: false, failed: false }),
    {
        FetchPass { top: top.to_owned(), most_recent: None, done: false, failed: false }
    }

    /// Offers the next post of the feed. The answer is the record to save
    /// in every storage of the account, or `None` where the scan is over:
    /// the post is the one at the watermark, or the pass was done before.
    pub fn offer(&mut self, post: &RemotePost) -> (record: Option<Data>)
        ensures
            final(self)@ == after_post(old(self)@, post@),
            match record {
                Some(data) => takes(old(self)@, post@) && data@ == record_of(post@),
                None => !takes(old(self)@, post@),
            },
    {
        if self.done {
            return None;
        }
        if !self.top.as_str().is_empty() && same(post.id.as_str(), self.top.as_str()) {
            self.done = true;
            return None;
        }
        if self.most_recent.is_none() {
            self.most_recent = Some(post.id.clone());
        }
        Some(Data::from_post(post))
    }

    /// Offers the next post of the feed and plans its save. Where the pass
    /// takes the post, the answer holds its record and one plan for every
    /// enabled storage of `storages`; it is `None` where the scan is over.
    pub fn dispatch(&mut self, storages: &Storages, post: &RemotePost) -> (taken: Option<Taken>)
        ensures
            final(self)@ == after_post(old(self)@, post@),
            match taken {
                Some(t) => {
                    &&& takes(old(self)@, post@)
                    &&& t.record@ == record_of(post@)
                    &&& plan_views(t.plans@) == storages.plans(record_of(post@))
                    &&& t.plans@.len() == storages.count()
                },
                None => !takes(old(self)@, post@),
            },
    {
        match self.offer(post) {
            Some(record) => {
                let plans = storages.save(&record);
                Some(Taken { record, plans })
            },
            None => None,
        }
    }

    /// The feed has no more posts.
    pub fn exhausted(&mut self)
        ensures
            final(self)@ == (FetchPassView { done: true, ..old(self)@ }),
    {
        self.done = true;
    }

    /// A storage could not save a record of this pass. The pass goes on,
    /// but the watermark will stay where it was.
    pub fn save_failed(&mut self)
        ensures
            final(self)@ == (FetchPassView { failed: true, ..old(self)@ }),
    {
        self.failed = true;
    }

    /// The feed could not be read. The pass is over and the watermark will
    /// stay where it was.
    pub fn feed_failed(&mut self)
        ensures
            final(self)@ == (FetchPassView { failed: true, done: true, ..old(self)@ }),
    {
        self.failed = true;
        self.done = true;
    }

    /// The new watermark: the first post that the pass saw, where it saw
    /// one and nothing failed.
    pub fn new_favourite(&self) -> (favourite: Option<String>)
        ensures
            match favourite {
                Some(id) => !self.failed && self@.most_recent == Some(id@),
                None => self.failed || self@.most_recent is None,
            },
    {
        if self.failed {
            return None;
        }
        match &self.most_recent {
            Some(id) => Some(id.clone()),
            None => None,
        }
    }
}

/// What a pass over a whole feed found.
#[derive(Debug, PartialEq, Eq)]
pub struct Fetched {
    /// The records of the new posts, newest first.
    pub records: Vec<Data>,
    /// For each record, in the same order, its plans: one for every
    /// enabled storage of the account.
    pub plans: Vec<Vec<Vec<Step>>>,
    /// The identifier of the newest new post.
    pub most_recent: Option<String>,
}

/// Runs a pass with the watermark `top` over `feed`, which holds the posts
/// of the account from the newest on: the records of the posts before the
/// watermark, in the order of the feed; for each of them the plans that
/// save it in every enabled storage of `storages`; and the identifier of
/// the first of them.
pub fn fetch_account_favourites(top: &str, feed: &Vec<RemotePost>, storages: &Storages) -> (fetched:
    Fetched)
    ensures
        data_views(fetched.records@) == records_of(new_posts(top@, post_views(feed@))),
        fetched.records@.len() == new_posts(top@, post_views(feed@)).len(),
        plans_views(fetched.plans@) == plans_of(*storages, new_posts(top@, post_views(feed@))),
        fetched.plans@.len() == new_posts(top@, post_views(feed@)).len(),
        match fetched.most_recent {
            Some(id) => newest(top@, post_views(feed@)) == Some(id@),
            None => newest(top@, post_views(feed@)) is None,
        },
{
    let ghost posts = post_views(feed@);
    let mut pass = FetchPass::new(top);
    let mut records: Vec<Data> = Vec::new();
    let mut plans: Vec<Vec<Vec<Step>>> = Vec::new();
    let mut i: usize = 0;
    proof {
        assert(posts.skip(0) =~= posts);
        assert(posts.take(0) + new_posts(top@, posts) =~= new_posts(top@, posts));
        assert(plans_views(plans@) =~= plans_of(*storages, posts.take(0)));
    }
    while i < feed.len()
        invariant
            i <= feed.len(),
            posts == post_views(feed@),
            !pass.done,
            !pass.failed,
            pass@.top == top@,
            pass@.most_recent == if i > 0 {
                Some(posts[0].id)
            } else {
                None
            },
            new_posts(top@, posts) == posts.take(i as int) + new_posts(top@, posts.skip(i as int)),
            records@.len() == i,
            data_views(records@) == records_of(posts.take(i as int)),
            plans@.len() == i,
            plans_views(plans@) == plans_of(*storages, posts.take(i as int)),
        decreases feed.len() - i,
    {
        let ghost rest = posts.skip(i as int);
        proof {
            assert(rest[0] == feed@[i as int]@);
            assert(rest.drop_first() =~= posts.skip(i + 1));
        }
        match pass.dispatch(storages, &feed[i]) {
            Some(taken) => {
                let ghost records_before = records@;
                let ghost plans_before = plans@;
                records.push(taken.record);
                plans.push(taken.plans);
                proof {
                    assert(posts.take(i + 1) =~= posts.take(i as int) + seq![rest[0]]);
                    assert(posts.take(i + 1) + new_posts(top@, posts.skip(i + 1)) =~= posts.take(
                        i as int,
                    ) + new_posts(top@, rest));
                    assert forall|k: int| 0 <= k < i + 1 implies data_views(records@)[k]
                        == records_of(posts.take(i + 1))[k] by {
                        if k < i {
                            assert(records@[k] == records_before[k]);
                            assert(data_views(records_before)[k] == records_of(
                                posts.take(i as int),
                            )[k]);
                        }
                    }
                    assert(data_views(records@) =~= records_of(posts.take(i + 1)));
                    assert forall|k: int| 0 <= k < i + 1 implies plans_views(plans@)[k]
                        == plans_of(*storages, posts.take(i + 1))[k] by {
                        if k < i {
                            assert(plans@[k] == plans_before[k]);
                            assert(plans_views(plans_before)[k] == plans_of(
                                *storages,
                                posts.take(i as int),
                            )[k]);
                        }
                    }
                    assert(plans_views(plans@) =~= plans_of(*storages, posts.take(i + 1)));
                }
                i += 1;
            },
            None => {
                proof {
                    assert(new_posts(top@, rest) =~= Seq::<RemotePostView>::empty());
                    assert(new_posts(top@, posts) =~= posts.take(i as int));
                }
                return Fetched { records, plans, most_recent: pass.new_favourite() };
            },
        }
    }
    proof {
        assert(posts.skip(i as int) =~= Seq::<RemotePostView>::empty());
        assert(posts.take(i as int) =~= posts);
        assert(new_posts(top@, posts) =~= posts);
    }
    Fetched { records, plans, most_recent: pass.new_favourite() }
}

/// Every new post goes to every enabled storage: a pass over a feed gives,
/// for each post before the watermark and for no other, one plan for each
/// storage that is enabled, and that plan is the plan of the storage for
/// the record of the post.
pub proof fn law_every_new_post_goes_to_every_storage(
    storages: Storages,
    top: Seq<char>,
    feed: Seq<RemotePostView>,
    at: int,
)
    requires
        0 <= at < new_posts(top, feed).len(),
    ensures
        plans_of(storages, new_posts(top, feed)).len() == new_posts(top, feed).len(),
        plans_of(storages, new_posts(top, feed))[at] == storages.plans(
            record_of(new_posts(top, feed)[at]),
        ),
        storages.plans(record_of(new_posts(top, feed)[at])).len() == storages.count(),
        storages.plans(record_of(new_posts(top, feed)[at])) == plan_of(
            storages.markdown,
            record_of(new_posts(top, feed)[at]),
        ) + plan_of(storages.org, record_of(new_posts(top, feed)[at])) + plan_of(
            storages.joplin,
            record_of(new_posts(top, feed)[at]),
        ),
{
}

/// The watermark that a sync sets: the identifier of the newest post of the
/// feed, whether it was archived or not. There is none where the feed is
/// empty.
pub fn sync_account(newest_post: Option<&RemotePost>) -> (favourite: Option<String>)
    ensures
        match newest_post {
            Some(post) => favourite matches Some(id) && id@ == post@.id,
            None => favourite is None,
        },
{
    match newest_post {
        Some(post) => Some(post.id.clone()),
        None => None,
    }
}

/// The end of fetching one account: writes the watermark `found` that its
/// pass came to into the configuration. Fails with `NoSuchAccount` where
/// `config` holds no account of that name, and with `NoNewFavourite` where
/// the account is there and the pass came to no watermark; nothing changes
/// then.
pub fn fetch_account(config: &mut Config, account: &str, found: Option<String>) -> (done: Result<
    (),
    CommandError,
>)
    requires
        old(config).wf(),
    ensures
        final(config).wf(),
        final(config).aliases() == old(config).aliases(),
        if !old(config)@.contains_key(account@) {
            &&& done == Err::<(), CommandError>(CommandError::NoSuchAccount)
            &&& final(config)@ == old(config)@
        } else {
            match found {
                Some(favourite) => {
                    &&& done is Ok
                    &&& final(config)@ == old(config)@.insert(
                        account@,
                        AccountConfigView { favourite: favourite@, ..old(config)@[account@] },
                    )
                },
                None => {
                    &&& done == Err::<(), CommandError>(CommandError::NoNewFavourite)
                    &&& final(config)@ == old(config)@
                },
            }
        },
{
    if config.account(account).is_none() {
        return Err(CommandError::NoSuchAccount);
    }
    match found {
        Some(favourite) => {
            config.set_new_favourite(account, favourite.as_str());
            Ok(())
        },
        None => Err(CommandError::NoNewFavourite),
    }
}

/// One account and the watermark that its pass came to.
#[derive(Debug, PartialEq, Eq)]
pub struct NewFavourite {
    pub account: String,
    pub favourite: String,
}

/// The accounts of `accounts` with the watermarks of `found`, set one
/// after the other. A watermark for an alias that the configuration does
/// not hold changes nothing.
pub open spec fn with_favourites(
    accounts: Map<Seq<char>, AccountConfigView>,
    found: Seq<NewFavourite>,
) -> Map<Seq<char>, AccountConfigView>
    decreases found.len(),
{
    if found.len() == 0 {
        accounts
    } else {
        let before = with_favourites(accounts, found.drop_last());
        let last = found.last();
        if before.contains_key(last.account@) {
            before.insert(
                last.account@,
                AccountConfigView {
                    favourite: last.favourite@,
                    ..before[last.account@]
                },
            )
        } else {
            before
        }
    }
}

/// The end of fetching all accounts: writes the watermarks that the passes
/// came to into the configuration.
pub fn fetch_all(config: &mut Config, favourites: &Vec<NewFavourite>)
    requires
        old(config).wf(),
    ensures
        final(config).wf(),
        final(config)@ == with_favourites(old(config)@, favourites@),
{
    let mut i: usize = 0;
    assert(favourites@.take(0) =~= Seq::<NewFavourite>::empty());
    while i < favourites.len()
        invariant
            i <= favourites.len(),
            config.wf(),
            config@ == with_favourites(old(config)@, favourites@.take(i as int)),
        decreases favourites.len() - i,
    {
        proof {
            let upto = favourites@.take(i + 1);
            assert(upto.drop_last() =~= favourites@.take(i as int));
            assert(upto.last() == favourites@[i as int]);
        }
        config.set_new_favourite(favourites[i].account.as_str(), favourites[i].favourite.as_str());
        i += 1;
    }
    assert(favourites@.take(favourites.len() as int) =~= favourites@);
}

/// The posts before the watermark are new: no post among them is at the
/// watermark, and a pass that reaches the watermark saves nothing behind
/// it.
pub proof fn law_pass_stops_at_watermark(top: Seq<char>, feed: Seq<RemotePostView>)
    ensures
        new_posts(top, feed).len() <= feed.len(),
        new_posts(top, feed) == feed.take(new_posts(top, feed).len() as int),
        forall|k: int|
            0 <= k < new_posts(top, feed).len() ==> !at_watermark(
                top,
                (#[trigger] new_posts(top, feed)[k]).id,
            ),
        new_posts(top, feed).len() < feed.len() ==> at_watermark(
            top,
            feed[new_posts(top, feed).len() as int].id,
        ),
    decreases feed.len(),
{
    if feed.len() > 0 && !at_watermark(top, feed[0].id) {
        let rest = feed.drop_first();
        law_pass_stops_at_watermark(top, rest);
        let found = new_posts(top, feed);
        let below = new_posts(top, rest);
        assert(found =~= feed.take(found.len() as int)) by {
            assert forall|k: int| 0 <= k < found.len() implies found[k] == feed[k] by {
                if k > 0 {
                    assert(found[k] == below[k - 1]);
                    assert(below[k - 1] == rest.take(below.len() as int)[k - 1]);
                }
            }
        }
        assert forall|k: int| 0 <= k < found.len() implies !at_watermark(
            top,
            (#[trigger] found[k]).id,
        ) by {
            if k > 0 {
                assert(found[k] == below[k - 1]);
            }
        }
        if found.len() < feed.len() {
            assert(feed[found.len() as int] == rest[below.len() as int]);
        }
    } else {
        assert(new_posts(top, feed) =~= feed.take(0));
    }
}

/// A pass with nothing new does nothing: where the feed is empty or its
/// newest post is at the watermark, no record is saved and the watermark
/// stays.
pub proof fn law_nothing_new_changes_nothing(top: Seq<char>, feed: Seq<RemotePostView>)
    requires
        feed.len() == 0 || at_watermark(top, feed[0].id),
    ensures
        new_posts(top, feed).len() == 0,
        newest(top, feed) is None,
        advanced(top, newest(top, feed)) == top,
{
}

/// A second pass is idle: after a pass over a feed has moved the watermark,
/// a pass over the same feed finds nothing new and leaves the watermark
/// where it is. (A post without an identifier cannot be named by a
/// watermark, so the newest post must have one.)
pub proof fn law_second_pass_is_idle(top: Seq<char>, feed: Seq<RemotePostView>)
    requires
        feed.len() > 0 ==> feed[0].id.len() > 0,
    ensures
        ({
            let then = advanced(top, newest(top, feed));
            &&& new_posts(then, feed).len() == 0
            &&& newest(then, feed) is None
            &&& advanced(then, newest(then, feed)) == then
        }),
{
    let then = advanced(top, newest(top, feed));
    if feed.len() > 0 {
        if at_watermark(top, feed[0].id) {
            assert(then == top);
        } else {
            assert(new_posts(top, feed).len() > 0);
            assert(then == feed[0].id);
        }
        assert(at_watermark(then, feed[0].id));
    }
}

} // verus!
