//! User preferences: the set of starred accounts, keyed by user id.
//!
//! Starring is idempotent: starring an already-starred user or unstarring a
//! non-starred one is a no-op state transition, not an error.

use vstd::prelude::*;

use crate::api::User;
use crate::assoc::{
    assoc_contains_key, assoc_insert, assoc_keys_unique, assoc_remove_key, assoc_view,
};

verus! {

/// The preference record persisted between sessions.
#[derive(Debug)]
pub struct UserConfig {
    starred_accounts: Vec<(String, User)>,
}

impl UserConfig {
    /// The starred accounts as a map from user id to the stored user record.
    pub closed spec fn starred(self) -> Map<Seq<char>, User> {
        assoc_view(self.starred_accounts@)
    }

    /// Each user id is stored at most once.
    pub closed spec fn wf(self) -> bool {
        assoc_keys_unique(self.starred_accounts@)
    }

    pub fn new() -> (r: Self)
        ensures
            r.starred() == Map::<Seq<char>, User>::empty(),
            r.wf(),
    {
        Self { starred_accounts: Vec::new() }
    }

    /// Rebuilds a preference record from stored entries; a later entry with
    /// the same id wins, as when inserting them one by one.
    pub fn from_entries(entries: Vec<(String, User)>) -> (r: Self)
        ensures
            r.wf(),
            r.starred() == assoc_view(entries@),
    {
        let mut cfg = Self::new();
        let mut i: usize = 0;
        while i < entries.len()
            invariant
                i <= entries@.len(),
                cfg.wf(),
                cfg.starred() == assoc_view(entries@.take(i as int)),
            decreases entries@.len() - i,
        {
            let key = entries[i].0.clone();
            let value = entries[i].1.clone();
            cfg.star_with_key(key, value);
            i = i + 1;
            proof {
                let t = entries@.take(i as int);
                assert(t.drop_last() =~= entries@.take(i - 1));
                assert(t.last() == entries@[i - 1]);
            }
        }
        proof {
            assert(entries@.take(entries@.len() as int) =~= entries@);
        }
        cfg
    }

    /// The stored entries, for persistence.
    pub fn entries(&self) -> (r: &Vec<(String, User)>)
        ensures
            assoc_view(r@) == self.starred(),
    {
        &self.starred_accounts
    }

    /// Whether the account with `user_id` is starred.
    pub fn is_starred(&self, user_id: &str) -> (r: bool)
        ensures
            r == self.starred().contains_key(user_id@),
    {
        assoc_contains_key(&self.starred_accounts, user_id)
    }

    fn star_with_key(&mut self, key: String, user: User)
        requires
            old(self).wf(),
        ensures
            final(self).wf(),
            final(self).starred() == old(self).starred().insert(key@, user),
    {
        assoc_insert(&mut self.starred_accounts, key, user);
    }

    /// Stars `user`, keyed by their id; overwrites the stored record if they
    /// are already starred.
    pub fn star_account(&mut self, user: &User)
        requires
            old(self).wf(),
        ensures
            final(self).wf(),
            final(self).starred() == old(self).starred().insert(user.id@, *user),
    {
        assoc_insert(&mut self.starred_accounts, user.id.clone(), user.clone());
    }

    /// Unstars `user`; a no-op if they are not starred.
    pub fn unstar_account(&mut self, user: &User)
        requires
            old(self).wf(),
        ensures
            final(self).wf(),
            final(self).starred() == old(self).starred().remove(user.id@),
    {
        assoc_remove_key(&mut self.starred_accounts, user.id.as_str());
    }
}

/// Starring a user who is not yet starred and then unstarring them returns
/// the preference set to its exact prior value, which is what gets
/// persisted.
pub proof fn lemma_star_then_unstar_restores(starred: Map<Seq<char>, User>, user: User)
    requires
        !starred.contains_key(user.id@),
    ensures
        starred.insert(user.id@, user).remove(user.id@) == starred,
{
    assert(starred.insert(user.id@, user).remove(user.id@) =~= starred);
}

/// Unstarring a starred user and then starring them again with the stored
/// record returns the preference set to its exact prior value, which is what
/// gets persisted.
pub proof fn lemma_unstar_then_star_restores(starred: Map<Seq<char>, User>, user: User)
    requires
        starred.contains_key(user.id@),
        starred[user.id@] == user,
    ensures
        starred.remove(user.id@).insert(user.id@, user) == starred,
{
    assert(starred.remove(user.id@).insert(user.id@, user) =~= starred);
}

} // verus!
