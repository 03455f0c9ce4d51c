//! One remote media file of a post.

use crate::text::first_index_of;
use crate::text::last_index_of;
use crate::text::lemma_first_index_of;
use crate::text::lemma_last_index_of;
use crate::text::substring;
use crate::text::to_chars;
use vstd::prelude::*;

verus! {

/// A remote media file, known by its URL. Nothing is fetched until a
/// backend asks for it.
#[derive(Debug, PartialEq, Eq)]
pub struct Attachment {
    pub url: String,
}

impl View for Attachment {
    type V = Seq<char>;

    open spec fn view(&self) -> Seq<char> {
        self.url@
    }
}

/// The local file name for the media at `url`: the last segment of its
/// path. The path is the URL up to its first `?`, and the last segment is
/// what follows the last `/` of the path.
pub open spec fn filename_of(url: Seq<char>) -> Seq<char> {
    let path = url.take(first_index_of(url, '?'));
    path.skip(last_index_of(path, '/') + 1)
}

impl Attachment {
    /// An attachment for the media at `url`.
    pub fn new(url: &str) -> (attachment: Self)
        ensures
            attachment@ == url@,
    {
        Attachment { url: url.to_owned() }
    }

    /// The local file name of this attachment.
    pub fn filename(&self) -> (name: String)
        ensures
            name@ == filename_of(self@),
    {
        let chars = to_chars(self.url.as_str());
        let mut end: usize = 0;
        while end < chars.len() && chars[end] != '?'
            invariant
                end <= chars.len(),
                forall|k: int| 0 <= k < end ==> #[trigger] chars@[k] != '?',
            decreases chars.len() - end,
        {
            end += 1;
        }
        let mut start: usize = end;
        while start > 0 && chars[start - 1] != '/'
            invariant
                start <= end,
                end <= chars.len(),
                forall|k: int| start <= k < end ==> #[trigger] chars@[k] != '/',
            decreases start,
        {
            start -= 1;
        }
        proof {
            lemma_first_index_of(chars@, '?', end as int);
            let path = chars@.take(end as int);
            assert forall|k: int| start - 1 < k < path.len() implies #[trigger] path[k] != '/' by {
                assert(path[k] == chars@[k]);
            }
            if start > 0 {
                assert(path[start - 1] == chars@[start - 1]);
            }
            lemma_last_index_of(path, '/', start - 1);
            assert(path.skip(start as int) =~= chars@.subrange(start as int, end as int));
        }
        substring(self.url.as_str(), start, end)
    }
}

} // verus!
