//! The shared store: the tweet set, the reverse-chronological feed ordering,
//! the pagination cursor, and the user preferences.
//!
//! At most one page load may be outstanding at a time. A load happens in
//! three verified steps — [`Store::begin_page_load`] acquires the pagination
//! slot and decides the continuation token to send, the caller performs the
//! fetch, and [`Store::complete_page_load`] (or [`Store::abort_page_load`] on
//! a failed fetch) releases the slot and merges the page.

use vstd::prelude::*;

use crate::api::{Tweet, User};
use crate::assoc::{assoc_get, assoc_insert, assoc_keys_unique, assoc_view};
use crate::user_config::UserConfig;

verus! {

/// Which remote collection a page load runs against.
#[derive(Debug)]
pub enum FeedSelector {
    /// The home timeline of the current user.
    HomeTimeline,
    /// The tweets of the user with this id.
    UserTweets(String),
}

/// Why a page load could not start.
#[derive(Debug, Clone, Copy, PartialEq, Eq, Structural)]
pub enum StoreError {
    /// Contention: a page load is already outstanding.
    AlreadyInFlight,
    /// Exhaustion: the feed has no continuation token, so there is no next
    /// page to request.
    NoMorePages,
}

impl StoreError {
    /// The log line for this condition.
    pub fn message(&self) -> (r: &'static str)
        ensures
            *self is AlreadyInFlight ==> r@ == "Already in-flight"@,
            *self is NoMorePages ==> r@ == "No more pages"@,
    {
        match self {
            StoreError::AlreadyInFlight => "Already in-flight",
            StoreError::NoMorePages => "No more pages",
        }
    }
}

/// The tweet ids of a page, in the order received.
pub open spec fn page_ids(page: Seq<Tweet>) -> Seq<Seq<char>> {
    page.map_values(|t: Tweet| t.id@)
}

/// The tweet set after merging a page, one insert per tweet in order; a
/// later tweet with the same id overwrites an earlier one.
pub open spec fn merged_tweets(m: Map<Seq<char>, Tweet>, page: Seq<Tweet>) -> Map<Seq<char>, Tweet>
    decreases page.len(),
{
    if page.len() == 0 {
        m
    } else {
        merged_tweets(m, page.drop_last()).insert(page.last().id@, page.last())
    }
}

/// Merging only adds keys.
pub proof fn lemma_merged_keeps_keys(m: Map<Seq<char>, Tweet>, page: Seq<Tweet>, k: Seq<char>)
    requires
        m.contains_key(k),
    ensures
        merged_tweets(m, page).contains_key(k),
    decreases page.len(),
{
    if page.len() > 0 {
        lemma_merged_keeps_keys(m, page.drop_last(), k);
    }
}

/// Merged values come from the old map or from the page, so renderability
/// of every stored tweet survives a merge.
pub proof fn lemma_merged_wf(m: Map<Seq<char>, Tweet>, page: Seq<Tweet>)
    requires
        forall|k: Seq<char>| m.contains_key(k) ==> (#[trigger] m[k]).wf(),
        forall|i: int| 0 <= i < page.len() ==> (#[trigger] page[i]).wf(),
    ensures
        forall|k: Seq<char>|
            merged_tweets(m, page).contains_key(k) ==> (#[trigger] merged_tweets(m, page)[k]).wf(),
    decreases page.len(),
{
    if page.len() > 0 {
        assert(forall|i: int| 0 <= i < page.drop_last().len() ==> (#[trigger] page.drop_last()[i]).wf());
        lemma_merged_wf(m, page.drop_last());
        assert forall|k: Seq<char>| merged_tweets(m, page).contains_key(k) implies (
        #[trigger] merged_tweets(m, page)[k]).wf() by {
            if k == page.last().id@ {
                assert(page[page.len() - 1].wf());
            } else {
                assert(merged_tweets(m, page.drop_last()).contains_key(k));
            }
        }
    }
}

/// Every id of the page is a key after merging.
pub proof fn lemma_merged_adds_page(m: Map<Seq<char>, Tweet>, page: Seq<Tweet>, i: int)
    requires
        0 <= i < page.len(),
    ensures
        merged_tweets(m, page).contains_key(page[i].id@),
    decreases page.len(),
{
    if i < page.len() - 1 {
        lemma_merged_adds_page(m, page.drop_last(), i);
    }
}

/// What finishing a page load does to the store: the token is replaced, the
/// page is merged into the tweet set (a later fetch of the same id wins),
/// the ordering is replaced on a restart or extended otherwise, and the
/// pagination slot is released.
pub open spec fn page_load_applied(
    pre: Store,
    post: Store,
    page: Seq<Tweet>,
    next_token: Option<Seq<char>>,
) -> bool {
    &&& post.in_flight() is None
    &&& post.page_token() == next_token
    &&& post.tweets_map() == merged_tweets(pre.tweets_map(), page)
    &&& post.feed() == (if pre.in_flight() == Some(true) {
        page_ids(page)
    } else {
        pre.feed() + page_ids(page)
    })
    &&& post.config() == pre.config()
    &&& post.current_user() == pre.current_user()
}

/// The shared store. It owns the fetched tweets, the feed ordering, the
/// pagination cursor, and the user preferences; the authenticated identity
/// is fixed at construction.
#[derive(Debug)]
pub struct Store {
    twitter_user: User,
    user_config: UserConfig,
    tweets: Vec<(String, Tweet)>,
    tweets_feed: Vec<String>,
    tweets_feed_page_token: Option<String>,
    load_in_flight: Option<bool>,
}

impl Store {
    /// The tweet set, keyed by id.
    pub closed spec fn tweets_map(self) -> Map<Seq<char>, Tweet> {
        assoc_view(self.tweets@)
    }

    /// The feed ordering: tweet ids, newest arrival first.
    pub closed spec fn feed(self) -> Seq<Seq<char>> {
        self.tweets_feed.deep_view()
    }

    /// The continuation token, if a further page is known to exist.
    pub closed spec fn page_token(self) -> Option<Seq<char>> {
        match self.tweets_feed_page_token {
            Some(t) => Some(t@),
            None => None,
        }
    }

    /// `Some(restart)` while a page load is outstanding.
    pub closed spec fn in_flight(self) -> Option<bool> {
        self.load_in_flight
    }

    /// The user preferences.
    pub closed spec fn config(self) -> UserConfig {
        self.user_config
    }

    /// The authenticated user.
    pub closed spec fn current_user(self) -> User {
        self.twitter_user
    }

    /// Every id in the feed ordering has an entry in the tweet set, the
    /// tweet set is keyed consistently, and the preferences are well formed.
    pub open spec fn wf(self) -> bool {
        &&& self.tweets_wf()
        &&& self.config().wf()
        &&& forall|i: int|
            0 <= i < self.feed().len() ==> self.tweets_map().contains_key(#[trigger] self.feed()[i])
        &&& forall|k: Seq<char>|
            self.tweets_map().contains_key(k) ==> (#[trigger] self.tweets_map()[k]).wf()
    }

    /// The tweet set has unique keys.
    pub closed spec fn tweets_wf(self) -> bool {
        assoc_keys_unique(self.tweets@)
    }

    /// A fresh store: no tweets, no feed, no token, no outstanding load.
    pub fn new(twitter_user: &User, user_config: UserConfig) -> (r: Store)
        requires
            user_config.wf(),
        ensures
            r.wf(),
            r.current_user() == *twitter_user,
            r.config() == user_config,
            r.tweets_map() == Map::<Seq<char>, Tweet>::empty(),
            r.feed().len() == 0,
            r.page_token() is None,
            r.in_flight() is None,
    {
        let r = Store {
            twitter_user: twitter_user.clone(),
            user_config,
            tweets: Vec::new(),
            tweets_feed: Vec::new(),
            tweets_feed_page_token: None,
            load_in_flight: None,
        };
        proof {
            assert(r.feed() =~= Seq::<Seq<char>>::empty());
        }
        r
    }

    /// Well-formedness only depends on the tweet set, the feed ordering,
    /// and the preferences.
    proof fn lemma_wf_same_data(pre: Store, post: Store)
        requires
            pre.wf(),
            post.tweets == pre.tweets,
            post.tweets_feed == pre.tweets_feed,
            post.user_config.wf(),
        ensures
            post.wf(),
    {
        assert forall|i: int| 0 <= i < post.feed().len() implies post.tweets_map().contains_key(
            #[trigger] post.feed()[i],
        ) by {
            assert(pre.tweets_map().contains_key(pre.feed()[i]));
        }
        assert forall|k: Seq<char>| post.tweets_map().contains_key(k) implies (
        #[trigger] post.tweets_map()[k]).wf() by {
            assert(pre.tweets_map().contains_key(k));
            assert(pre.tweets_map()[k].wf());
        }
    }

    /// The authenticated user this store was created for.
    pub fn twitter_user(&self) -> (r: &User)
        ensures
            *r == self.current_user(),
    {
        &self.twitter_user
    }

    /// The stored preference entries, for persistence.
    pub fn user_config(&self) -> (r: &UserConfig)
        ensures
            *r == self.config(),
    {
        &self.user_config
    }

    /// Whether the account with `user_id` is starred.
    pub fn is_starred(&self, user_id: &str) -> (r: bool)
        ensures
            r == self.config().starred().contains_key(user_id@),
    {
        self.user_config.is_starred(user_id)
    }

    /// Stars `user` in the preference set.
    pub fn star_account(&mut self, user: &User)
        requires
            old(self).wf(),
        ensures
            final(self).wf(),
            final(self).config().starred() == old(self).config().starred().insert(
                user.id@,
                *user,
            ),
            final(self).tweets_map() == old(self).tweets_map(),
            final(self).feed() == old(self).feed(),
            final(self).page_token() == old(self).page_token(),
            final(self).in_flight() == old(self).in_flight(),
            final(self).current_user() == old(self).current_user(),
    {
        self.user_config.star_account(user);
        proof {
            Store::lemma_wf_same_data(*old(self), *self);
        }
    }

    /// Unstars `user` in the preference set.
    pub fn unstar_account(&mut self, user: &User)
        requires
            old(self).wf(),
        ensures
            final(self).wf(),
            final(self).config().starred() == old(self).config().starred().remove(user.id@),
            final(self).tweets_map() == old(self).tweets_map(),
            final(self).feed() == old(self).feed(),
            final(self).page_token() == old(self).page_token(),
            final(self).in_flight() == old(self).in_flight(),
            final(self).current_user() == old(self).current_user(),
    {
        self.user_config.unstar_account(user);
        proof {
            Store::lemma_wf_same_data(*old(self), *self);
        }
    }

    /// Whether a page load is outstanding.
    pub fn is_load_in_flight(&self) -> (r: bool)
        ensures
            r == (self.in_flight() is Some),
    {
        self.load_in_flight.is_some()
    }

    /// The tweet stored under `id`, if it has been fetched.
    pub fn get_tweet(&self, id: &str) -> (r: Option<&Tweet>)
        requires
            self.wf(),
        ensures
            r is Some <==> self.tweets_map().contains_key(id@),
            r matches Some(t) ==> self.tweets_map().contains_key(id@) && *t == self.tweets_map()[
                id@],
    {
        assoc_get(&self.tweets, id)
    }

    /// The feed ordering entry at `index`, if there is one.
    pub fn feed_id_at(&self, index: usize) -> (r: Option<String>)
        ensures
            r is Some <==> index < self.feed().len(),
            r matches Some(id) ==> index < self.feed().len() && id@ == self.feed()[index as int],
    {
        if index < self.tweets_feed.len() {
            Some(self.tweets_feed[index].clone())
        } else {
            None
        }
    }

    /// The number of tweets in the feed ordering.
    pub fn feed_len(&self) -> (r: usize)
        ensures
            r == self.feed().len(),
    {
        self.tweets_feed.len()
    }

    /// Tries to start a page load: fails with a contention condition if one
    /// is already outstanding, leaving the store unchanged; on a non-restart
    /// load, fails with an exhaustion condition if no continuation token is
    /// stored, again leaving the store unchanged and issuing no request.
    /// On success the pagination slot is held and the returned token is the
    /// one to send: none for a restart, the stored token otherwise.
    pub fn begin_page_load(&mut self, restart: bool) -> (r: Result<
        Option<String>,
        StoreError,
    >)
        requires
            old(self).wf(),
        ensures
            final(self).wf(),
            old(self).in_flight() is Some ==> r == Err::<Option<String>, StoreError>(
                StoreError::AlreadyInFlight,
            ) && *final(self) == *old(self),
            old(self).in_flight() is None && !restart && old(self).page_token() is None ==> r
                == Err::<Option<String>, StoreError>(StoreError::NoMorePages) && *final(self)
                == *old(self),
            old(self).in_flight() is None && (restart || old(self).page_token() is Some) ==> {
                &&& r matches Ok(t)
                &&& (match r {
                    Ok(t) => (match t {
                        Some(s) => Some(s@),
                        None => None,
                    }) == if restart {
                        None::<Seq<char>>
                    } else {
                        old(self).page_token()
                    },
                    Err(_) => false,
                })
                &&& final(self).in_flight() == Some(restart)
                &&& final(self).tweets_map() == old(self).tweets_map()
                &&& final(self).feed() == old(self).feed()
                &&& final(self).page_token() == old(self).page_token()
                &&& final(self).config() == old(self).config()
                &&& final(self).current_user() == old(self).current_user()
            },
    {
        if self.load_in_flight.is_some() {
            return Err(StoreError::AlreadyInFlight);
        }
        let token: Option<String> = if restart {
            None
        } else {
            match &self.tweets_feed_page_token {
                Some(t) => Some(t.clone()),
                None => {
                    return Err(StoreError::NoMorePages);
                },
            }
        };
        self.load_in_flight = Some(restart);
        proof {
            Store::lemma_wf_same_data(*old(self), *self);
        }
        Ok(token)
    }

    /// Finishes an outstanding page load: stores the new continuation token,
    /// merges every fetched tweet into the tweet set (overwriting on id
    /// collision), and replaces the feed ordering with the page's ids on a
    /// restart or appends them otherwise. Releases the pagination slot.
    pub fn complete_page_load(&mut self, new_tweets: Vec<Tweet>, next_token: Option<String>)
        requires
            old(self).wf(),
            old(self).in_flight() is Some,
            forall|i: int| 0 <= i < new_tweets@.len() ==> (#[trigger] new_tweets@[i]).wf(),
        ensures
            final(self).wf(),
            page_load_applied(
                *old(self),
                *final(self),
                new_tweets@,
                match next_token {
                    Some(t) => Some(t@),
                    None => None::<Seq<char>>,
                },
            ),
    {
        let restart = match self.load_in_flight {
            Some(r) => r,
            None => false,
        };
        self.tweets_feed_page_token = next_token;
        self.load_in_flight = None;

        let ghost page = new_tweets@;
        let mut remaining = new_tweets;
        let mut new_ids: Vec<String> = Vec::new();

        while remaining.len() > 0
            invariant
                self.tweets_wf(),
                self.user_config == old(self).user_config,
                self.user_config.wf(),
                self.twitter_user == old(self).twitter_user,
                self.tweets_feed == old(self).tweets_feed,
                self.load_in_flight is None,
                self.tweets_feed_page_token == next_token,
                page.len() >= remaining@.len(),
                remaining@ == page.skip(page.len() - remaining@.len()),
                assoc_view(self.tweets@) == merged_tweets(
                    assoc_view(old(self).tweets@),
                    page.take(page.len() - remaining@.len()),
                ),
                new_ids@.len() == page.len() - remaining@.len(),
                forall|j: int| 0 <= j < new_ids@.len() ==> #[trigger] new_ids@[j]@ == page[j].id@,
            decreases remaining@.len(),
        {
            let ghost done = page.len() - remaining@.len();
            let tweet = remaining.remove(0);
            let id_for_feed = tweet.id.clone();
            let id_for_key = tweet.id.clone();
            proof {
                assert(tweet == page[done]);
                assert(remaining@ =~= page.skip(page.len() - remaining@.len()));
            }
            new_ids.push(id_for_feed);
            assoc_insert(&mut self.tweets, id_for_key, tweet);
            proof {
                let done2 = done + 1;
                assert(page.take(done2).drop_last() =~= page.take(done));
                assert(page.take(done2).last() == page[done]);
                assert(merged_tweets(assoc_view(old(self).tweets@), page.take(done2))
                    == merged_tweets(assoc_view(old(self).tweets@), page.take(done)).insert(
                    page[done].id@,
                    page[done],
                ));
            }
        }
        proof {
            assert(page.take(page.len() as int) =~= page);
            assert(new_ids.deep_view() =~= page_ids(page));
        }

        if restart {
            self.tweets_feed = new_ids;
            proof {
                assert(self.tweets_feed.deep_view() =~= page_ids(page));
            }
        } else {
            let mut more = new_ids;
            self.tweets_feed.append(&mut more);
            proof {
                assert(self.tweets_feed.deep_view() =~= old(self).tweets_feed.deep_view()
                    + page_ids(page));
            }
        }

        proof {
            self.lemma_feed_ids_present(old(self), page);
            assert(forall|k: Seq<char>|
                assoc_view(old(self).tweets@).contains_key(k) ==> (#[trigger] assoc_view(
                    old(self).tweets@,
                )[k]).wf()) by {
                assert(forall|k: Seq<char>|
                    old(self).tweets_map().contains_key(k) ==> (#[trigger] old(
                        self,
                    ).tweets_map()[k]).wf());
            }
            lemma_merged_wf(assoc_view(old(self).tweets@), page);
        }
    }

    /// After merging, every id in the final feed has a tweet: old ids stay
    /// covered because merging only adds keys, and page ids were all merged.
    proof fn lemma_feed_ids_present(self, pre: &Store, page: Seq<Tweet>)
        requires
            pre.wf(),
            self.tweets_map() == merged_tweets(pre.tweets_map(), page),
            self.feed() == pre.feed() + page_ids(page) || self.feed() == page_ids(page),
        ensures
            forall|i: int|
                0 <= i < self.feed().len() ==> self.tweets_map().contains_key(
                    #[trigger] self.feed()[i],
                ),
    {
        assert forall|i: int| 0 <= i < self.feed().len() implies self.tweets_map().contains_key(
            #[trigger] self.feed()[i],
        ) by {
            if self.feed() == page_ids(page) {
                lemma_merged_adds_page(pre.tweets_map(), page, i);
            } else {
                if i < pre.feed().len() {
                    lemma_merged_keeps_keys(pre.tweets_map(), page, pre.feed()[i]);
                } else {
                    lemma_merged_adds_page(pre.tweets_map(), page, i - pre.feed().len());
                }
            }
        }
    }

    /// Abandons an outstanding page load after a failed fetch: nothing is
    /// merged and the continuation token is left unchanged; the pagination
    /// slot is released.
    pub fn abort_page_load(&mut self)
        requires
            old(self).wf(),
            old(self).in_flight() is Some,
        ensures
            final(self).wf(),
            final(self).in_flight() is None,
            final(self).tweets_map() == old(self).tweets_map(),
            final(self).feed() == old(self).feed(),
            final(self).page_token() == old(self).page_token(),
            final(self).config() == old(self).config(),
            final(self).current_user() == old(self).current_user(),
    {
        self.load_in_flight = None;
        proof {
            Store::lemma_wf_same_data(*old(self), *self);
        }
    }
}

} // verus!
