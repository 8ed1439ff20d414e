//! The feed synchronizer's rules and its record of posted items.
//!
//! Each poll pass walks the feed's items in order. An item older than the
//! anti-spam cutoff is ignored. An item never posted to the destination is
//! posted and recorded under its (title, destination) key. An item already
//! recorded is re-examined: only when the feed's timestamp is strictly newer
//! than the timestamp the existing post displays is the post edited in place
//! and the stored message id replaced — equal timestamps mean already
//! synced, and no duplicate record is ever created. Fetching the feed and
//! talking to the platform are the host's; parsing the document and the
//! date strings goes through the trusted items at the end of this file.

use vstd::prelude::*;
use vstd::string::StringExecFns;

verus! {

/// One row of the posted-items table, as the store keeps it: a feed item's
/// title, the destination channel, and the platform message that currently
/// carries it.
#[derive(Debug, Clone)]
pub struct Rss {
    pub rss_title: String,
    pub message_id: i64,
    pub channel_id: i64,
}

/// Items whose publication time is before this instant (Unix seconds for
/// 11 Jul 2024, 00:00 +02:00) are never posted: the anti-spam floor.
pub const FEED_CUTOFF_EPOCH: i64 = 1_720_648_800;

/// What one feed item asks for, before the existing post (if any) has been
/// examined.
#[derive(Debug, Clone, Copy, PartialEq, Eq, Structural)]
pub enum FeedAction {
    /// Published before the cutoff: ignore.
    TooOld,
    /// Never posted here: publish and record it.
    PostNew,
    /// Already recorded under this message id: fetch that post and compare
    /// timestamps.
    CheckExisting(i64),
}

/// The key a posted item is recorded under.
pub open spec fn post_key(title: Seq<char>, channel_id: i64) -> (Seq<char>, i64) {
    (title, channel_id)
}

spec fn key_of(r: Rss) -> (Seq<char>, i64) {
    (r.rss_title@, r.channel_id)
}

spec fn log_map_of(s: Seq<Rss>) -> Map<(Seq<char>, i64), i64>
    decreases s.len(),
{
    if s.len() == 0 {
        Map::empty()
    } else {
        log_map_of(s.drop_last()).insert(key_of(s.last()), s.last().message_id)
    }
}

spec fn unique_keys(s: Seq<Rss>) -> bool {
    forall|i: int, j: int|
        0 <= i < j < s.len() ==> key_of(#[trigger] s[i]) != key_of(#[trigger] s[j])
}

proof fn lemma_log_map_contains(s: Seq<Rss>, k: (Seq<char>, i64))
    ensures
        log_map_of(s).contains_key(k) <==> exists|i: int|
            0 <= i < s.len() && key_of(#[trigger] s[i]) == k,
    decreases s.len(),
{
    if s.len() > 0 {
        lemma_log_map_contains(s.drop_last(), k);
        if log_map_of(s).contains_key(k) {
            if key_of(s.last()) == k {
                assert(key_of(s[s.len() - 1]) == k);
            } else {
                let i = choose|i: int| 0 <= i < s.drop_last().len()
                    && key_of(#[trigger] s.drop_last()[i]) == k;
                assert(key_of(s[i]) == k);
            }
        }
        if exists|i: int| 0 <= i < s.len() && key_of(#[trigger] s[i]) == k {
            let i = choose|i: int| 0 <= i < s.len() && key_of(#[trigger] s[i]) == k;
            if i < s.len() - 1 {
                assert(key_of(s.drop_last()[i]) == k);
            }
        }
    }
}

proof fn lemma_log_map_value(s: Seq<Rss>, i: int)
    requires
        unique_keys(s),
        0 <= i < s.len(),
    ensures
        log_map_of(s).contains_key(key_of(s[i])),
        log_map_of(s)[key_of(s[i])] == s[i].message_id,
    decreases s.len(),
{
    lemma_log_map_contains(s, key_of(s[i]));
    if i == s.len() - 1 {
    } else {
        assert(key_of(s[i]) != key_of(s[s.len() - 1]));
        assert(s.drop_last()[i] == s[i]);
        lemma_log_map_value(s.drop_last(), i);
    }
}

/// The record of already-posted feed items for all destinations, viewed as
/// a map from (title, destination channel) to the platform message id.
pub struct FeedLog {
    posts: Vec<Rss>,
}

impl View for FeedLog {
    type V = Map<(Seq<char>, i64), i64>;

    closed spec fn view(&self) -> Map<(Seq<char>, i64), i64> {
        log_map_of(self.posts@)
    }
}

impl FeedLog {
    /// Internal shape: every (title, channel) key is recorded at most once.
    pub closed spec fn wf(&self) -> bool {
        unique_keys(self.posts@)
    }

    pub fn new() -> (r: FeedLog)
        ensures
            r@ == Map::<(Seq<char>, i64), i64>::empty(),
            r.wf(),
    {
        FeedLog { posts: Vec::new() }
    }

    /// The message id recorded for this title in this channel, if any.
    pub fn lookup(&self, title: &String, channel_id: i64) -> (r: Option<i64>)
        requires
            self.wf(),
        ensures
            match r {
                Some(mid) => self@.contains_key(post_key(title@, channel_id))
                    && self@[post_key(title@, channel_id)] == mid,
                None => !self@.contains_key(post_key(title@, channel_id)),
            },
    {
        let ghost k = post_key(title@, channel_id);
        let n = self.posts.len();
        let mut i: usize = 0;
        while i < n
            invariant
                0 <= i <= n,
                n == self.posts@.len(),
                unique_keys(self.posts@),
                forall|j: int| 0 <= j < i ==> key_of(#[trigger] self.posts@[j]) != k,
                k == post_key(title@, channel_id),
            decreases n - i,
        {
            let row = &self.posts[i];
            if row.rss_title == *title && row.channel_id == channel_id {
                proof {
                    lemma_log_map_value(self.posts@, i as int);
                }
                return Some(row.message_id);
            }
            i = i + 1;
        }
        proof {
            lemma_log_map_contains(self.posts@, k);
        }
        None
    }

    /// What one item asks for, given its timestamp, before any look at the
    /// platform: too old, new here, or recorded under some message id.
    pub fn classify_item(&self, title: &String, channel_id: i64, item_epoch: i64) -> (r:
        FeedAction)
        requires
            self.wf(),
        ensures
            match r {
                FeedAction::TooOld => item_epoch < FEED_CUTOFF_EPOCH,
                FeedAction::PostNew => item_epoch >= FEED_CUTOFF_EPOCH
                    && !self@.contains_key(post_key(title@, channel_id)),
                FeedAction::CheckExisting(mid) => item_epoch >= FEED_CUTOFF_EPOCH
                    && self@.contains_key(post_key(title@, channel_id))
                    && self@[post_key(title@, channel_id)] == mid,
            },
    {
        if item_epoch < FEED_CUTOFF_EPOCH {
            return FeedAction::TooOld;
        }
        match self.lookup(title, channel_id) {
            Some(mid) => FeedAction::CheckExisting(mid),
            None => FeedAction::PostNew,
        }
    }

    /// Record a post just published for a title never posted here before.
    pub fn record_new(&mut self, title: String, channel_id: i64, message_id: i64)
        requires
            old(self).wf(),
            !old(self)@.contains_key(post_key(title@, channel_id)),
        ensures
            final(self).wf(),
            final(self)@ == old(self)@.insert(post_key(title@, channel_id), message_id),
    {
        proof {
            lemma_log_map_contains(self.posts@, post_key(title@, channel_id));
        }
        let ghost pre = self.posts@;
        let row = Rss { rss_title: title, message_id, channel_id };
        self.posts.push(row);
        proof {
            assert(self.posts@.drop_last() =~= pre);
        }
    }

    /// An edit replaced the platform post: store the new message id under
    /// the same key. The set of recorded keys does not change — an edit
    /// never creates a second record.
    pub fn update_message_id(&mut self, title: &String, channel_id: i64, new_id: i64)
        requires
            old(self).wf(),
            old(self)@.contains_key(post_key(title@, channel_id)),
        ensures
            final(self).wf(),
            final(self)@ == old(self)@.insert(post_key(title@, channel_id), new_id),
            final(self)@.dom() == old(self)@.dom(),
    {
        let ghost k = post_key(title@, channel_id);
        let ghost pre = self.posts@;
        let n = self.posts.len();
        let mut i: usize = 0;
        proof {
            lemma_log_map_contains(pre, k);
        }
        while i < n
            invariant
                0 <= i <= n,
                n == self.posts@.len(),
                self.posts@ == pre,
                pre == old(self).posts@,
                unique_keys(pre),
                log_map_of(pre).contains_key(k),
                forall|j: int| 0 <= j < i ==> key_of(#[trigger] pre[j]) != k,
                k == post_key(title@, channel_id),
            decreases n - i,
        {
            let hit = self.posts[i].rss_title == *title && self.posts[i].channel_id
                == channel_id;
            if hit {
                let new_title = self.posts[i].rss_title.clone();
                self.posts[i] = Rss { rss_title: new_title, message_id: new_id, channel_id };
                proof {
                    lemma_update_at(pre, self.posts@, i as int, new_id);
                }
                return ;
            }
            i = i + 1;
        }
        proof {
            lemma_log_map_contains(pre, k);
            assert(false);
        }
    }
}

/// Replacing the message id at one row rewrites exactly that key's value.
proof fn lemma_update_at(pre: Seq<Rss>, post: Seq<Rss>, i: int, new_id: i64)
    requires
        unique_keys(pre),
        0 <= i < pre.len(),
        post == pre.update(i, Rss {
            rss_title: pre[i].rss_title,
            message_id: new_id,
            channel_id: pre[i].channel_id,
        }),
    ensures
        unique_keys(post),
        log_map_of(post) == log_map_of(pre).insert(key_of(pre[i]), new_id),
        log_map_of(post).dom() == log_map_of(pre).dom(),
    decreases pre.len(),
{
    assert(forall|j: int| 0 <= j < pre.len() && j != i ==> post[j] == pre[j]);
    assert(key_of(post[i]) == key_of(pre[i]));
    assert(unique_keys(post)) by {
        assert(forall|a: int, b: int| 0 <= a < b < post.len()
            ==> key_of(#[trigger] post[a]) != key_of(#[trigger] post[b])) by {
            assert(forall|a: int| 0 <= a < post.len()
                ==> key_of(#[trigger] post[a]) == key_of(pre[a]));
        }
    }
    if i == pre.len() - 1 {
        assert(post.drop_last() =~= pre.drop_last());
        assert(post.last() == Rss {
            rss_title: pre[i].rss_title,
            message_id: new_id,
            channel_id: pre[i].channel_id,
        });
        assert(log_map_of(post) =~= log_map_of(pre).insert(key_of(pre[i]), new_id));
    } else {
        assert(post.drop_last() =~= pre.drop_last().update(i, Rss {
            rss_title: pre[i].rss_title,
            message_id: new_id,
            channel_id: pre[i].channel_id,
        }));
        assert(pre.drop_last()[i] == pre[i]);
        lemma_update_at(pre.drop_last(), post.drop_last(), i, new_id);
        assert(post.last() == pre.last());
        assert(key_of(pre[i]) != key_of(pre.last()));
        assert(log_map_of(post) =~= log_map_of(pre).insert(key_of(pre[i]), new_id));
    }
    assert(log_map_of(post).dom() =~= log_map_of(pre).dom()) by {
        lemma_log_map_contains(pre, key_of(pre[i]));
    }
}

/// Strictly-newer-than: the one comparison that decides an edit. Equal
/// timestamps mean the post is already synced.
pub fn needs_edit(displayed_epoch: i64, item_epoch: i64) -> (r: bool)
    ensures
        r == (item_epoch > displayed_epoch),
{
    item_epoch > displayed_epoch
}

/// Editing a recorded item replaces its stored id in place: the recorded
/// keys afterwards are exactly the keys before, so a re-sync never creates
/// a duplicate record.
pub proof fn lemma_edit_keeps_records(
    log: Map<(Seq<char>, i64), i64>,
    key: (Seq<char>, i64),
    new_id: i64,
)
    requires
        log.contains_key(key),
    ensures
        log.insert(key, new_id).dom() == log.dom(),
        log.insert(key, new_id)[key] == new_id,
{
    assert(log.insert(key, new_id).dom() =~= log.dom());
}

// ------------------------------------------------------------------
// The description cleaning filter.
//
// Feed descriptions carry two boilerplate tokens, each a literal
// backslash-n escape followed by a fixed word, that must not reach the
// reader. Cleaning removes every non-overlapping occurrence, scanning left
// to right. The rule is fixed, so it is written out here and verified
// rather than handed to a pattern engine.
// ------------------------------------------------------------------

/// The longer boilerplate token: a literal `\` and `n`, then `if wk med`.
pub open spec fn token_update() -> Seq<char> {
    seq!['\\', 'n', 'i', 'f', ' ', 'w', 'k', ' ', 'm', 'e', 'd']
}

/// The shorter boilerplate token: a literal `\` and `n`, then `all`.
pub open spec fn token_all() -> Seq<char> {
    seq!['\\', 'n', 'a', 'l', 'l']
}

/// `t` occurs in `s` at position `i`.
pub open spec fn matches_at(s: Seq<char>, t: Seq<char>, i: int) -> bool {
    0 <= i && i + t.len() <= s.len() && s.subrange(i, i + t.len()) == t
}

/// `s` with every boilerplate token removed, leftmost first, without
/// overlap; at any one position at most one token can match, the longer
/// one being tried first.
pub open spec fn cleaned(s: Seq<char>) -> Seq<char>
    decreases s.len(),
{
    if s.len() == 0 {
        Seq::empty()
    } else if matches_at(s, token_update(), 0) {
        cleaned(s.skip(11))
    } else if matches_at(s, token_all(), 0) {
        cleaned(s.skip(5))
    } else {
        seq![s[0]] + cleaned(s.skip(1))
    }
}

fn token_update_exec() -> (v: Vec<char>)
    ensures
        v@ == token_update(),
{
    let mut v: Vec<char> = Vec::new();
    v.push('\\');
    v.push('n');
    v.push('i');
    v.push('f');
    v.push(' ');
    v.push('w');
    v.push('k');
    v.push(' ');
    v.push('m');
    v.push('e');
    v.push('d');
    proof {
        assert(v@ =~= token_update());
    }
    v
}

fn token_all_exec() -> (v: Vec<char>)
    ensures
        v@ == token_all(),
{
    let mut v: Vec<char> = Vec::new();
    v.push('\\');
    v.push('n');
    v.push('a');
    v.push('l');
    v.push('l');
    proof {
        assert(v@ =~= token_all());
    }
    v
}

fn matches_at_exec(s: &Vec<char>, t: &Vec<char>, i: usize) -> (r: bool)
    requires
        i <= s@.len(),
    ensures
        r == matches_at(s@, t@, i as int),
{
    if s.len() - i < t.len() {
        return false;
    }
    let m = t.len();
    let mut j: usize = 0;
    while j < m
        invariant
            0 <= j <= m,
            m == t@.len(),
            i + m <= s@.len() <= usize::MAX,
            forall|q: int| 0 <= q < j ==> s@[i + q] == t@[q],
        decreases m - j,
    {
        if s[i + j] != t[j] {
            proof {
                assert(s@.subrange(i as int, i + m) != t@) by {
                    assert(s@.subrange(i as int, i + m)[j as int] == s@[i + j]);
                }
            }
            return false;
        }
        j = j + 1;
    }
    proof {
        assert(s@.subrange(i as int, i + m) =~= t@);
    }
    true
}

proof fn lemma_matches_shift(s: Seq<char>, t: Seq<char>, i: int)
    requires
        0 <= i <= s.len(),
    ensures
        matches_at(s, t, i) == matches_at(s.skip(i), t, 0),
{
    if i + t.len() <= s.len() {
        assert(s.skip(i).subrange(0, t.len() as int) =~= s.subrange(i, i + t.len()));
    }
}

proof fn lemma_skip_skip(s: Seq<char>, i: int, k: int)
    requires
        0 <= i,
        0 <= k,
        i + k <= s.len(),
    ensures
        s.skip(i).skip(k) == s.skip(i + k),
{
    assert(s.skip(i).skip(k) =~= s.skip(i + k));
}

/// Remove every boilerplate-token occurrence from a character vector.
pub fn clean_chars(input: &Vec<char>) -> (out: Vec<char>)
    ensures
        out@ == cleaned(input@),
{
    let t1 = token_update_exec();
    let t2 = token_all_exec();
    let n = input.len();
    let mut out: Vec<char> = Vec::new();
    let mut i: usize = 0;
    proof {
        assert(input@.skip(0) =~= input@);
        assert(Seq::<char>::empty() + cleaned(input@) =~= cleaned(input@));
    }
    while i < n
        invariant
            0 <= i <= n,
            n == input@.len(),
            t1@ == token_update(),
            t2@ == token_all(),
            cleaned(input@) == out@ + cleaned(input@.skip(i as int)),
        decreases n - i,
    {
        let ghost rest = input@.skip(i as int);
        proof {
            lemma_matches_shift(input@, t1@, i as int);
            lemma_matches_shift(input@, t2@, i as int);
        }
        if matches_at_exec(input, &t1, i) {
            proof {
                lemma_skip_skip(input@, i as int, 11);
                assert(cleaned(rest) == cleaned(input@.skip(i as int + 11)));
            }
            i = i + 11;
        } else if matches_at_exec(input, &t2, i) {
            proof {
                lemma_skip_skip(input@, i as int, 5);
                assert(cleaned(rest) == cleaned(input@.skip(i as int + 5)));
            }
            i = i + 5;
        } else {
            let ghost pre_out = out@;
            out.push(input[i]);
            proof {
                lemma_skip_skip(input@, i as int, 1);
                assert(rest[0] == input@[i as int]);
                assert(cleaned(rest) == seq![input@[i as int]] + cleaned(
                    input@.skip(i as int + 1),
                ));
                assert(pre_out + cleaned(rest) =~= out@ + cleaned(input@.skip(i as int + 1)));
            }
            i = i + 1;
        }
    }
    proof {
        assert(input@.skip(n as int) =~= Seq::<char>::empty());
        assert(out@ + cleaned(input@.skip(n as int)) =~= out@);
    }
    out
}

/// A feed description with the boilerplate tokens removed, ready to show.
pub fn clean_description(s: &str) -> (r: String)
    ensures
        r@ == cleaned(s@),
{
    let v = crate::textutil::str_chars(s);
    let c = clean_chars(&v);
    crate::textutil::chars_to_string(&c)
}

// ------------------------------------------------------------------
// Message lines for the two kinds of platform post.
// ------------------------------------------------------------------

/// The content line announcing a newly posted item.
pub fn new_post_notice(title: &str) -> (r: String)
    ensures
        r@ == "Neue Nachricht im Planungsportal · "@ + title@,
{
    let mut r = String::from_str("Neue Nachricht im Planungsportal · ");
    r.append(title);
    r
}

/// The content line announcing that an existing item was updated.
pub fn update_notice(title: &str) -> (r: String)
    ensures
        r@ == "Der letzte Post im Planungsportal wurde aktualisiert · "@ + title@,
{
    let mut r = String::from_str("Der letzte Post im Planungsportal wurde aktualisiert · ");
    r.append(title);
    r
}

// ------------------------------------------------------------------
// Trusted items: parsing dates and feed documents.
// ------------------------------------------------------------------

/// The Unix second an RFC 2822 date string denotes, or nothing when the
/// string is not such a date. Named only: the parse is a function of the
/// string alone, stated by the trusted item below.
pub uninterp spec fn rfc2822_epoch_of(s: Seq<char>) -> Option<int>;

/// Relies on chrono's `DateTime::parse_from_rfc2822` and
/// `DateTime::timestamp`: whether the string parses as an RFC 2822 date,
/// and the Unix second it denotes, depend on the string alone.
#[verifier::external_body]
fn parse_rfc2822_raw(s: &str) -> (r: Option<i64>)
    ensures
        match r {
            Some(t) => rfc2822_epoch_of(s@) == Some(t as int),
            None => rfc2822_epoch_of(s@) is None,
        },
{
    match chrono::DateTime::parse_from_rfc2822(s) {
        Ok(d) => Some(d.timestamp()),
        Err(_) => None,
    }
}

/// Parse a feed item's publication date to the Unix second it denotes.
pub fn parse_rfc2822_epoch(s: &str) -> (r: Option<i64>)
    ensures
        match r {
            Some(t) => rfc2822_epoch_of(s@) == Some(t as int),
            None => rfc2822_epoch_of(s@) is None,
        },
{
    parse_rfc2822_raw(s)
}

/// One item of a fetched feed document: the fields the synchronizer reads,
/// each as the document carried it, if at all.
#[derive(Debug, Clone)]
pub struct FeedItem {
    pub title: Option<String>,
    pub link: Option<String>,
    pub description: Option<String>,
    pub pub_date: Option<String>,
}

pub open spec fn opt_view(o: Option<String>) -> Option<Seq<char>> {
    match o {
        Some(s) => Some(s@),
        None => None,
    }
}

pub open spec fn item_view(it: FeedItem) -> (
    Option<Seq<char>>,
    Option<Seq<char>>,
    Option<Seq<char>>,
    Option<Seq<char>>,
) {
    (opt_view(it.title), opt_view(it.link), opt_view(it.description), opt_view(it.pub_date))
}

pub open spec fn items_view(s: Seq<FeedItem>) -> Seq<
    (Option<Seq<char>>, Option<Seq<char>>, Option<Seq<char>>, Option<Seq<char>>),
> {
    s.map_values(|it: FeedItem| item_view(it))
}

/// The items a feed document holds — title, link, description and
/// publication date of each, in feed order — or nothing when the bytes are
/// not a feed. Named only: parsing is a function of the bytes alone,
/// stated by the trusted item below.
pub uninterp spec fn feed_items_of(b: Seq<u8>) -> Option<
    Seq<(Option<Seq<char>>, Option<Seq<char>>, Option<Seq<char>>, Option<Seq<char>>)>,
>;

/// Relies on rss's `Channel::read_from`: whether a byte sequence parses as
/// a feed document, and the items it holds, depend on the bytes alone;
/// each item's title, link, description and publication date are moved
/// over unchanged, in feed order.
#[verifier::external_body]
fn read_feed(bytes: &[u8]) -> (r: Option<Vec<FeedItem>>)
    ensures
        match r {
            Some(items) => feed_items_of(bytes@) == Some(items_view(items@)),
            None => feed_items_of(bytes@) is None,
        },
{
    match rss::Channel::read_from(bytes) {
        Ok(ch) => Some(
            ch.into_items().into_iter().map(|it| FeedItem {
                title: it.title,
                link: it.link,
                description: it.description,
                pub_date: it.pub_date,
            }).collect(),
        ),
        Err(_) => None,
    }
}

/// Parse a fetched feed document into its items.
pub fn parse_feed(bytes: &Vec<u8>) -> (r: Option<Vec<FeedItem>>)
    ensures
        match r {
            Some(items) => feed_items_of(bytes@) == Some(items_view(items@)),
            None => feed_items_of(bytes@) is None,
        },
{
    read_feed(bytes.as_slice())
}

} // verus!
