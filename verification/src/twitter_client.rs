//! The compute side of the feed client: joining the user expansions of a
//! page response into its tweets. Request construction, transport, and JSON
//! decoding happen outside the library and hand in plain values.

use vstd::prelude::*;

use crate::api::{Tweet, User};

verus! {

/// The first user in `users` with the given id, if any.
pub open spec fn user_for(users: Seq<User>, id: Seq<char>) -> Option<User>
    decreases users.len(),
{
    if users.len() == 0 {
        None
    } else if users[0].id@ == id {
        Some(users[0])
    } else {
        user_for(users.skip(1), id)
    }
}

proof fn lemma_user_for_at(users: Seq<User>, id: Seq<char>, i: int)
    requires
        0 <= i < users.len(),
        users[i].id@ == id,
        forall|j: int| 0 <= j < i ==> (#[trigger] users[j]).id@ != id,
    ensures
        user_for(users, id) == Some(users[i]),
    decreases users.len(),
{
    if i > 0 {
        assert(forall|j: int| 0 <= j < i - 1 ==> (#[trigger] users.skip(1)[j]).id@ != id);
        lemma_user_for_at(users.skip(1), id, i - 1);
    }
}

proof fn lemma_user_for_none(users: Seq<User>, id: Seq<char>)
    requires
        forall|j: int| 0 <= j < users.len() ==> (#[trigger] users[j]).id@ != id,
    ensures
        user_for(users, id) is None,
    decreases users.len(),
{
    if users.len() > 0 {
        assert(forall|j: int| 0 <= j < users.skip(1).len() ==> (#[trigger] users.skip(1)[j]).id@
            != id);
        lemma_user_for_none(users.skip(1), id);
    }
}

/// Finds the first user with the given id.
fn find_user<'a>(users: &'a Vec<User>, id: &str) -> (r: Option<&'a User>)
    ensures
        r is Some <==> user_for(users@, id@) is Some,
        r matches Some(u) ==> user_for(users@, id@) == Some(*u),
{
    let mut i: usize = 0;
    while i < users.len()
        invariant
            i <= users@.len(),
            forall|j: int| 0 <= j < i ==> (#[trigger] users@[j]).id@ != id@,
        decreases users@.len() - i,
    {
        if crate::text::str_eq_str(users[i].id.as_str(), id) {
            proof {
                lemma_user_for_at(users@, id@, i as int);
            }
            return Some(&users[i]);
        }
        i = i + 1;
    }
    proof {
        lemma_user_for_none(users@, id@);
    }
    None
}

/// `t` with its denormalized author fields taken from `u`: present fields
/// when the author was found among the expansions, absent otherwise.
pub open spec fn with_author(t: Tweet, u: Option<User>) -> Tweet {
    match u {
        Some(us) => Tweet {
            author_username: Some(us.username),
            author_name: Some(us.name),
            ..t
        },
        None => Tweet { author_username: None, author_name: None, ..t },
    }
}

/// Fills the denormalized author name and handle of every tweet of a fetched
/// page from the page's user expansions.
pub fn join_authors(tweets: Vec<Tweet>, users: &Vec<User>) -> (r: Vec<Tweet>)
    ensures
        r@.len() == tweets@.len(),
        forall|i: int|
            0 <= i < tweets@.len() ==> #[trigger] r@[i] == with_author(
                tweets@[i],
                user_for(users@, tweets@[i].author_id@),
            ),
{
    let ghost page = tweets@;
    let mut remaining = tweets;
    let mut out: Vec<Tweet> = Vec::new();
    while remaining.len() > 0
        invariant
            page.len() >= remaining@.len(),
            remaining@ == page.skip(page.len() - remaining@.len()),
            out@.len() == page.len() - remaining@.len(),
            forall|i: int|
                0 <= i < out@.len() ==> #[trigger] out@[i] == with_author(
                    page[i],
                    user_for(users@, page[i].author_id@),
                ),
        decreases remaining@.len(),
    {
        let ghost done = page.len() - remaining@.len();
        let t = remaining.remove(0);
        proof {
            assert(t == page[done]);
            assert(remaining@ =~= page.skip(page.len() - remaining@.len()));
        }
        let (author_username, author_name) = match find_user(users, t.author_id.as_str()) {
            Some(u) => (Some(u.username.clone()), Some(u.name.clone())),
            None => (None, None),
        };
        let joined = Tweet { author_username, author_name, ..t };
        out.push(joined);
    }
    proof {
        assert(out@.len() == page.len());
    }
    out
}

} // verus!
