//! The record: one archived post, the same for every backend.

use crate::storage::attachment::Attachment;
use vstd::prelude::*;

verus! {

/// A post as the remote feed delivers it.
#[derive(Debug, PartialEq, Eq)]
pub struct RemotePost {
    /// The identifier of the post on its server.
    pub id: String,
    /// The handle of the account that wrote it.
    pub account: String,
    /// The body, as HTML.
    pub content: String,
    /// The content warning; empty where the post has none.
    pub spoiler_text: String,
    /// The canonical URL of the post, where the server gives one.
    pub url: Option<String>,
    /// The URLs of the media of the post, in the order of the post.
    pub media: Vec<String>,
}

/// What a [`RemotePost`] stands for.
pub struct RemotePostView {
    pub id: Seq<char>,
    pub account: Seq<char>,
    pub content: Seq<char>,
    pub spoiler_text: Seq<char>,
    pub url: Option<Seq<char>>,
    pub media: Seq<Seq<char>>,
}

impl View for RemotePost {
    type V = RemotePostView;

    open spec fn view(&self) -> RemotePostView {
        RemotePostView {
            id: self.id@,
            account: self.account@,
            content: self.content@,
            spoiler_text: self.spoiler_text@,
            url: match self.url {
                Some(url) => Some(url@),
                None => None,
            },
            media: string_views(self.media@),
        }
    }
}

/// The views of `strings`, in order.
pub open spec fn string_views(strings: Seq<String>) -> Seq<Seq<char>> {
    Seq::new(strings.len(), |i: int| strings[i]@)
}

/// The URLs of `attachments`, in order.
pub open spec fn attachment_views(attachments: Seq<Attachment>) -> Seq<Seq<char>> {
    Seq::new(attachments.len(), |i: int| attachments[i]@)
}

/// Our data content.
#[derive(Debug, PartialEq, Eq)]
pub struct Data {
    pub id: String,
    pub account: String,
    pub title: String,
    pub text: String,
    pub attachments: Vec<Attachment>,
    pub source: String,
}

/// What a [`Data`] stands for. An attachment stands for its URL.
pub struct DataView {
    pub id: Seq<char>,
    pub account: Seq<char>,
    pub title: Seq<char>,
    pub text: Seq<char>,
    pub attachments: Seq<Seq<char>>,
    pub source: Seq<char>,
}

impl View for Data {
    type V = DataView;

    open spec fn view(&self) -> DataView {
        DataView {
            id: self.id@,
            account: self.account@,
            title: self.title@,
            text: self.text@,
            attachments: attachment_views(self.attachments@),
            source: self.source@,
        }
    }
}

/// The record of a post: the content warning becomes the title, the body
/// stays HTML, each media URL becomes one attachment in the same order, and
/// a missing URL becomes the empty source.
pub open spec fn record_of(post: RemotePostView) -> DataView {
    DataView {
        id: post.id,
        account: post.account,
        title: post.spoiler_text,
        text: post.content,
        attachments: post.media,
        source: match post.url {
            Some(url) => url,
            None => Seq::empty(),
        },
    }
}

impl Data {
    /// Converts a post of the remote feed into a record.
    pub fn from_post(origin: &RemotePost) -> (record: Self)
        ensures
            record@ == record_of(origin@),
    {
        let mut attachments: Vec<Attachment> = Vec::new();
        let mut i: usize = 0;
        while i < origin.media.len()
            invariant
                i <= origin.media.len(),
                attachments@.len() == i,
                attachment_views(attachments@) == origin@.media.take(i as int),
            decreases origin.media.len() - i,
        {
            let ghost before = attachments@;
            attachments.push(Attachment::new(origin.media[i].as_str()));
            proof {
                let now = attachment_views(attachments@);
                let upto = origin@.media.take(i + 1);
                assert forall|k: int| 0 <= k < i + 1 implies now[k] == upto[k] by {
                    if k < i {
                        assert(attachments@[k] == before[k]);
                        assert(attachment_views(before)[k] == origin@.media.take(i as int)[k]);
                    }
                }
                assert(now =~= upto);
            }
            i += 1;
        }
        assert(origin@.media.take(i as int) =~= origin@.media);
        let source = match &origin.url {
            Some(url) => url.clone(),
            None => String::new(),
        };
        Data {
            id: origin.id.clone(),
            account: origin.account.clone(),
            title: origin.spoiler_text.clone(),
            text: origin.content.clone(),
            attachments,
            source,
        }
    }
}

} // verus!
