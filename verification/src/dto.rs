//! Records describing fetched discussion threads, and the collection the
//! fetch step fills before narration begins.

use vstd::prelude::*;
use vstd::string::StringExecFns;

verus! {

/// Mathematical image of one thread record: each text field as a
/// sequence of characters, each count as an unbounded integer.
pub ghost struct PostView {
    pub id: Seq<char>,
    pub title: Seq<char>,
    pub author: Seq<char>,
    pub score: int,
    pub upvotes: int,
    pub downvotes: int,
    pub num_comments: int,
    pub subreddit: Seq<char>,
    pub url: Seq<char>,
}

/// One discussion-thread record from the remote listing.
#[derive(Debug, Clone)]
pub struct RedditPost {
    pub id: String,
    pub title: String,
    pub author: String,
    pub score: i32,
    pub upvotes: i32,
    pub downvotes: i32,
    pub num_comments: i32,
    pub subreddit: String,
    pub url: String,
}

impl View for RedditPost {
    type V = PostView;

    open spec fn view(&self) -> PostView {
        PostView {
            id: self.id@,
            title: self.title@,
            author: self.author@,
            score: self.score as int,
            upvotes: self.upvotes as int,
            downvotes: self.downvotes as int,
            num_comments: self.num_comments as int,
            subreddit: self.subreddit@,
            url: self.url@,
        }
    }
}

/// The text of a present field, or the given default for an absent one.
pub open spec fn text_or(field: Option<String>, default: Seq<char>) -> Seq<char> {
    match field {
        Some(s) => s@,
        None => default,
    }
}

/// The value of a present count, or zero for an absent one.
pub open spec fn count_or_zero(field: Option<i32>) -> int {
    match field {
        Some(v) => v as int,
        None => 0,
    }
}

fn take_text_or(field: Option<String>, default: &str) -> (r: String)
    ensures
        r@ == text_or(field, default@),
{
    match field {
        Some(s) => s,
        None => default.to_owned(),
    }
}

fn take_count_or_zero(field: Option<i32>) -> (r: i32)
    ensures
        r as int == count_or_zero(field),
{
    match field {
        Some(v) => v,
        None => 0,
    }
}

impl RedditPost {
    /// Shape one record out of the raw fields of a fetched item,
    /// tolerating absent optional fields: absent text becomes the empty
    /// string, an absent author becomes the placeholder `[deleted]`, and
    /// absent counts become zero.
    pub fn from_fields(
        id: Option<String>,
        title: Option<String>,
        author: Option<String>,
        score: Option<i32>,
        upvotes: Option<i32>,
        downvotes: Option<i32>,
        num_comments: Option<i32>,
        subreddit: Option<String>,
        url: Option<String>,
    ) -> (p: RedditPost)
        ensures
            p@.id == text_or(id, Seq::<char>::empty()),
            p@.title == text_or(title, Seq::<char>::empty()),
            p@.author == text_or(author, "[deleted]"@),
            p@.score == count_or_zero(score),
            p@.upvotes == count_or_zero(upvotes),
            p@.downvotes == count_or_zero(downvotes),
            p@.num_comments == count_or_zero(num_comments),
            p@.subreddit == text_or(subreddit, Seq::<char>::empty()),
            p@.url == text_or(url, Seq::<char>::empty()),
    {
        proof {
            reveal_strlit("");
            assert(""@ =~= Seq::<char>::empty());
        }
        RedditPost {
            id: take_text_or(id, ""),
            title: take_text_or(title, ""),
            author: take_text_or(author, "[deleted]"),
            score: take_count_or_zero(score),
            upvotes: take_count_or_zero(upvotes),
            downvotes: take_count_or_zero(downvotes),
            num_comments: take_count_or_zero(num_comments),
            subreddit: take_text_or(subreddit, ""),
            url: take_text_or(url, ""),
        }
    }
}

/// An ordered collection of thread records, in the order the remote
/// listing returned them.
#[derive(Debug, Clone)]
pub struct RedditPostsDTO {
    pub posts: Vec<RedditPost>,
}

impl View for RedditPostsDTO {
    type V = Seq<PostView>;

    open spec fn view(&self) -> Seq<PostView> {
        self.posts@.map_values(|p: RedditPost| p@)
    }
}

impl RedditPostsDTO {
    /// Create a new empty collection.
    pub fn new() -> (r: Self)
        ensures
            r@ == Seq::<PostView>::empty(),
    {
        let r = Self { posts: Vec::new() };
        proof {
            assert(r@ =~= Seq::<PostView>::empty());
        }
        r
    }

    /// Append one record, keeping all earlier records and their order.
    pub fn add_post(&mut self, post: RedditPost)
        ensures
            final(self)@ == old(self)@.push(post@),
    {
        let ghost before = self@;
        self.posts.push(post);
        proof {
            assert(self@ =~= before.push(self.posts@[self.posts@.len() - 1]@));
        }
    }

    /// The number of records held.
    pub fn count(&self) -> (n: usize)
        ensures
            n == self@.len(),
    {
        self.posts.len()
    }

    /// The record at `index`, or nothing when `index` is past the end.
    pub fn get_post(&self, index: usize) -> (r: Option<&RedditPost>)
        ensures
            match r {
                Some(p) => index < self@.len() && p@ == self@[index as int],
                None => index >= self@.len(),
            },
    {
        self.posts.get(index)
    }

    /// All titles, in record order.
    pub fn get_titles(&self) -> (r: Vec<String>)
        ensures
            r@.len() == self@.len(),
            forall|i: int| 0 <= i < r@.len() ==> r@[i]@ == self@[i].title,
    {
        let mut r: Vec<String> = Vec::new();
        let mut i: usize = 0;
        while i < self.posts.len()
            invariant
                i <= self.posts@.len(),
                r@.len() == i,
                forall|j: int| 0 <= j < i ==> r@[j]@ == self@[j].title,
            decreases self.posts@.len() - i,
        {
            r.push(self.posts[i].title.clone());
            i = i + 1;
        }
        r
    }
}

impl Default for RedditPostsDTO {
    /// The default collection is empty.
    fn default() -> (r: Self)
        ensures
            r@ == Seq::<PostView>::empty(),
    {
        Self::new()
    }
}

} // verus!
