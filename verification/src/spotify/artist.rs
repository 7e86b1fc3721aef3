//! The artists the account follows, read page by page.
use vstd::prelude::*;

verus! {

/// A followed artist.
#[derive(Debug, Clone, PartialEq, Eq)]
pub struct Artist {
    pub id: String,
}

/// One page of followed artists: its `artists.items`, and the cursor
/// `artists.cursors.after` of the next page, absent on the last one.
#[derive(Debug, Clone, PartialEq, Eq)]
pub struct FollowingPage {
    pub items: Vec<Artist>,
    pub after: Option<String>,
}

/// A request for one page of followed artists: the URL and its query pairs;
/// it is sent with the access token as bearer authentication.
#[derive(Debug, Clone, PartialEq, Eq)]
pub struct FollowingRequest {
    pub url: String,
    pub query: Vec<(String, String)>,
}

/// The endpoint listing the artists the account follows.
pub open spec fn following_url() -> Seq<char> {
    "https://api.spotify.com/v1/me/following"@
}

/// Walks the pages of followed artists, collecting them in order. The first
/// page is asked for with an empty cursor; the walk ends after a page
/// without a next cursor.
pub struct FollowingCursor {
    artists: Vec<Artist>,
    after: Option<String>,
}

impl View for FollowingCursor {
    /// The artists collected so far and the cursor of the next page.
    type V = (Seq<Artist>, Option<String>);

    closed spec fn view(&self) -> (Seq<Artist>, Option<String>) {
        (self.artists@, self.after)
    }
}

/// The artists collected, and the next cursor, after reading `pages` in order.
pub open spec fn after_pages(state: (Seq<Artist>, Option<String>), pages: Seq<FollowingPage>) -> (
    Seq<Artist>,
    Option<String>,
)
    decreases pages.len(),
{
    if pages.len() == 0 {
        state
    } else {
        after_pages((state.0 + pages[0].items@, pages[0].after), pages.drop_first())
    }
}

/// All artists of `pages`, page after page.
pub open spec fn all_items(pages: Seq<FollowingPage>) -> Seq<Artist>
    decreases pages.len(),
{
    if pages.len() == 0 {
        Seq::empty()
    } else {
        pages[0].items@ + all_items(pages.drop_first())
    }
}

impl FollowingCursor {
    /// Nothing collected; the first page is asked for with an empty cursor.
    pub fn new() -> (cursor: Self)
        ensures
            cursor@.0.len() == 0,
            cursor@.1 matches Some(after) && after@.len() == 0,
    {
        FollowingCursor { artists: Vec::new(), after: Some(String::new()) }
    }

    /// The request for the next page, or `None` when the last page was read.
    pub fn next_request(&self) -> (request: Option<FollowingRequest>)
        ensures
            match self@.1 {
                None => request is None,
                Some(after) => request matches Some(r) && {
                    &&& r.url@ == following_url()
                    &&& r.query@.len() == 2
                    &&& r.query@[0].0@ == "type"@ && r.query@[0].1@ == "artist"@
                    &&& r.query@[1].0@ == "after"@ && r.query@[1].1@ == after@
                },
            },
    {
        match &self.after {
            None => None,
            Some(after) => {
                proof {
                    reveal_strlit("https://api.spotify.com/v1/me/following");
                    reveal_strlit("type");
                    reveal_strlit("artist");
                    reveal_strlit("after");
                }
                let mut query: Vec<(String, String)> = Vec::new();
                query.push((String::from_str("type"), String::from_str("artist")));
                query.push((String::from_str("after"), after.clone()));
                Some(
                    FollowingRequest {
                        url: String::from_str("https://api.spotify.com/v1/me/following"),
                        query,
                    },
                )
            },
        }
    }

    /// Takes in a page: its artists follow those collected so far, and its
    /// cursor is the next one.
    pub fn absorb(&mut self, page: FollowingPage)
        ensures
            final(self)@ == (old(self)@.0 + page.items@, page.after),
    {
        let FollowingPage { items, after } = page;
        let mut items = items;
        self.artists.append(&mut items);
        self.after = after;
    }

    /// The artists collected.
    pub fn into_artists(self) -> (artists: Vec<Artist>)
        ensures
            artists@ == self@.0,
    {
        self.artists
    }
}

/// Reading pages one after the other collects all their artists, in order,
/// behind those collected before.
pub proof fn lemma_pages_collect_all_artists(state: (Seq<Artist>, Option<String>), pages: Seq<FollowingPage>)
    ensures
        after_pages(state, pages).0 == state.0 + all_items(pages),
    decreases pages.len(),
{
    if pages.len() == 0 {
        assert(state.0 + all_items(pages) =~= state.0);
    } else {
        let next = (state.0 + pages[0].items@, pages[0].after);
        lemma_pages_collect_all_artists(next, pages.drop_first());
        assert(next.0 + all_items(pages.drop_first()) =~= state.0 + all_items(pages));
    }
}

} // verus!
