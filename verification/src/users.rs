//! User accounts: point lookup, registration, and the profile update the
//! API layer calls. Balance mutation lives with the settlement transaction.

use vstd::prelude::*;

use crate::store::Store;
use crate::store::User;
use crate::store::users_unique;

verus! {

/// The data a registration writes; everything else starts at its default.
pub struct CreateUser {
    pub email: String,
    pub fpl_id: Option<i32>,
    pub google_id: Option<String>,
    pub facebook_id: Option<String>,
}

/// Whether some user row carries this id.
pub open spec fn has_user_id(users: Seq<User>, id: i32) -> bool {
    exists|i: int| 0 <= i < users.len() && users[i].id == id
}

/// The first position carrying this user id.
pub open spec fn index_of_user(users: Seq<User>, id: i32) -> int
    decreases users.len(),
{
    if users.len() == 0 {
        0
    } else if users[0].id == id {
        0
    } else {
        1 + index_of_user(users.drop_first(), id)
    }
}

/// The row a point lookup by id returns.
pub open spec fn user_with_id(users: Seq<User>, id: i32) -> Option<User> {
    if has_user_id(users, id) {
        Some(users[index_of_user(users, id)])
    } else {
        None
    }
}

pub proof fn lemma_index_of_user(users: Seq<User>, id: i32)
    requires
        has_user_id(users, id),
    ensures
        0 <= index_of_user(users, id) < users.len(),
        users[index_of_user(users, id)].id == id,
        forall|j: int| 0 <= j < index_of_user(users, id) ==> users[j].id != id,
    decreases users.len(),
{
    if users[0].id == id {
    } else {
        let witness = choose|i: int| 0 <= i < users.len() && users[i].id == id;
        assert(users.drop_first()[witness - 1] == users[witness]);
        assert(has_user_id(users.drop_first(), id));
        lemma_index_of_user(users.drop_first(), id);
        assert(forall|j: int| 0 <= j < index_of_user(users, id) ==> users[j].id != id) by {
            assert(forall|j: int|
                1 <= j < index_of_user(users, id) ==> users[j] == users.drop_first()[j - 1]
                    && users.drop_first()[j - 1].id != id);
        }
    }
}

/// Point lookup of a user by id.
pub fn find_by_id(store: &Store, id: i32) -> (r: Option<&User>)
    ensures
        match r {
            Some(u) => user_with_id(store.users@, id) == Some(*u),
            None => !has_user_id(store.users@, id),
        },
{
    let n = store.users.len();
    let mut i: usize = 0;
    while i < n
        invariant
            i <= n,
            n == store.users@.len(),
            forall|k: int| 0 <= k < i ==> store.users@[k].id != id,
        decreases n - i,
    {
        if store.users[i].id == id {
            proof {
                lemma_index_of_user(store.users@, id);
                let idx = index_of_user(store.users@, id);
                assert(idx == i);
            }
            return Some(&store.users[i]);
        }
        i += 1;
    }
    None
}

/// A field-for-field copy of a user row.
pub(crate) fn clone_user(u: &User) -> (r: User)
    ensures
        r == *u,
{
    let r = User {
        id: u.id,
        fpl_id: u.fpl_id,
        active: u.active,
        d_coin: u.d_coin,
        name: match &u.name {
            Some(s) => Some(s.clone()),
            None => None,
        },
        player_first_name: match &u.player_first_name {
            Some(s) => Some(s.clone()),
            None => None,
        },
        player_last_name: match &u.player_last_name {
            Some(s) => Some(s.clone()),
            None => None,
        },
        email: u.email.clone(),
        google_id: match &u.google_id {
            Some(s) => Some(s.clone()),
            None => None,
        },
        facebook_id: match &u.facebook_id {
            Some(s) => Some(s.clone()),
            None => None,
        },
    };
    proof {
        assert(r =~= *u);
    }
    r
}

/// The row registration inserts for this data under this id: active, with
/// an empty balance and an unset profile.
pub open spec fn fresh_user(data: CreateUser, id: i32) -> User {
    User {
        id,
        fpl_id: data.fpl_id,
        active: true,
        d_coin: 0,
        name: None,
        player_first_name: None,
        player_last_name: None,
        email: data.email,
        google_id: data.google_id,
        facebook_id: data.facebook_id,
    }
}

/// Insert a new user row under the next serial id and hand back a copy.
pub fn save(store: &mut Store, data: CreateUser) -> (r: User)
    requires
        old(store).wf(),
        old(store).next_user_id < i32::MAX,
    ensures
        final(store).users@ == old(store).users@.push(fresh_user(data, old(store).next_user_id)),
        r == fresh_user(data, old(store).next_user_id),
        final(store).next_user_id == old(store).next_user_id + 1,
        final(store).events == old(store).events,
        final(store).matches == old(store).matches,
        final(store).transactions == old(store).transactions,
        final(store).next_match_id == old(store).next_match_id,
        final(store).next_transaction_id == old(store).next_transaction_id,
        final(store).wf(),
{
    let id = store.next_user_id;
    let row = User {
        id,
        fpl_id: data.fpl_id,
        active: true,
        d_coin: 0,
        name: None,
        player_first_name: None,
        player_last_name: None,
        email: data.email,
        google_id: data.google_id,
        facebook_id: data.facebook_id,
    };
    proof {
        assert(row =~= fresh_user(data, id));
    }
    let copy = clone_user(&row);
    store.users.push(row);
    store.next_user_id = id + 1;
    copy
}

/// Whether a user row matches the identity filters: each platform id that
/// is asked about must be set and equal.
pub open spec fn platform_matches(u: User, g: Option<Seq<char>>, f: Option<Seq<char>>) -> bool {
    &&& match g {
        Some(gs) => u.google_id matches Some(x) && x@ == gs,
        None => true,
    }
    &&& match f {
        Some(fs) => u.facebook_id matches Some(x) && x@ == fs,
        None => true,
    }
}

/// The first user row matching the identity filters.
pub open spec fn first_platform_user(
    users: Seq<User>,
    g: Option<Seq<char>>,
    f: Option<Seq<char>>,
) -> Option<User>
    decreases users.len(),
{
    if users.len() == 0 {
        None
    } else if platform_matches(users[0], g, f) {
        Some(users[0])
    } else {
        first_platform_user(users.drop_first(), g, f)
    }
}

proof fn lemma_first_platform_user_at(
    users: Seq<User>,
    g: Option<Seq<char>>,
    f: Option<Seq<char>>,
    i: int,
)
    requires
        0 <= i < users.len(),
        platform_matches(users[i], g, f),
        forall|j: int| 0 <= j < i ==> !platform_matches(users[j], g, f),
    ensures
        first_platform_user(users, g, f) == Some(users[i]),
    decreases users.len(),
{
    if i > 0 {
        assert(forall|j: int|
            0 <= j < i - 1 ==> users.drop_first()[j] == users[j + 1] && !platform_matches(
                users[j + 1],
                g,
                f,
            ));
        assert(users.drop_first()[i - 1] == users[i]);
        lemma_first_platform_user_at(users.drop_first(), g, f, i - 1);
    }
}

proof fn lemma_first_platform_user_none(
    users: Seq<User>,
    g: Option<Seq<char>>,
    f: Option<Seq<char>>,
)
    requires
        forall|j: int| 0 <= j < users.len() ==> !platform_matches(users[j], g, f),
    ensures
        first_platform_user(users, g, f) is None,
    decreases users.len(),
{
    if users.len() > 0 {
        assert(forall|j: int|
            0 <= j < users.len() - 1 ==> users.drop_first()[j] == users[j + 1] && !platform_matches(
                users[j + 1],
                g,
                f,
            ));
        lemma_first_platform_user_none(users.drop_first(), g, f);
    }
}

/// The spec-level filters an optional exec filter stands for.
pub open spec fn opt_str_view(s: Option<&str>) -> Option<Seq<char>> {
    match s {
        Some(t) => Some(t@),
        None => None,
    }
}

/// Whether one optional platform id passes one filter.
fn platform_field_matches(field: &Option<String>, filter: Option<&str>) -> (b: bool)
    ensures
        b == match opt_str_view(filter) {
            Some(fs) => field matches Some(x) && x@ == fs,
            None => true,
        },
{
    match filter {
        None => true,
        Some(want) => match field {
            Some(have) => {
                let wanted = want.to_owned();
                *have == wanted
            },
            None => false,
        },
    }
}

/// The first user registered under the given platform identity, if any.
pub fn find_first_by_platform_id<'a>(
    store: &'a Store,
    google_id: Option<&str>,
    facebook_id: Option<&str>,
) -> (r: Option<&'a User>)
    ensures
        match r {
            Some(u) => first_platform_user(
                store.users@,
                opt_str_view(google_id),
                opt_str_view(facebook_id),
            ) == Some(*u),
            None => first_platform_user(
                store.users@,
                opt_str_view(google_id),
                opt_str_view(facebook_id),
            ) is None,
        },
{
    let ghost g = opt_str_view(google_id);
    let ghost f = opt_str_view(facebook_id);
    let n = store.users.len();
    let mut i: usize = 0;
    while i < n
        invariant
            i <= n,
            n == store.users@.len(),
            g == opt_str_view(google_id),
            f == opt_str_view(facebook_id),
            forall|k: int| 0 <= k < i ==> !platform_matches(store.users@[k], g, f),
        decreases n - i,
    {
        let u = &store.users[i];
        let hit = platform_field_matches(&u.google_id, google_id)
            && platform_field_matches(&u.facebook_id, facebook_id);
        if hit {
            proof {
                lemma_first_platform_user_at(store.users@, g, f, i as int);
            }
            return Some(&store.users[i]);
        }
        i += 1;
    }
    proof {
        lemma_first_platform_user_none(store.users@, g, f);
    }
    None
}

/// Record a user's fantasy-platform id. A missing user updates nothing, as
/// a filtered update touching zero rows.
pub fn update_fpl_id(store: &mut Store, user_id: i32, fpl_id: i32)
    requires
        old(store).wf(),
    ensures
        final(store).users@.len() == old(store).users@.len(),
        forall|i: int|
            0 <= i < old(store).users@.len() ==> final(store).users@[i] == (
            if old(store).users@[i].id == user_id {
                User { fpl_id: Some(fpl_id), ..old(store).users@[i] }
            } else {
                old(store).users@[i]
            }),
        final(store).events == old(store).events,
        final(store).matches == old(store).matches,
        final(store).transactions == old(store).transactions,
        final(store).next_match_id == old(store).next_match_id,
        final(store).next_transaction_id == old(store).next_transaction_id,
        final(store).next_user_id == old(store).next_user_id,
        final(store).wf(),
{
    let n = store.users.len();
    let mut i: usize = 0;
    while i < n
        invariant
            i <= n,
            n == store.users@.len(),
            n == old(store).users@.len(),
            old(store).wf(),
            forall|k: int|
                0 <= k < i ==> store.users@[k] == (if old(store).users@[k].id == user_id {
                    User { fpl_id: Some(fpl_id), ..old(store).users@[k] }
                } else {
                    old(store).users@[k]
                }),
            forall|k: int| i <= k < n ==> store.users@[k] == old(store).users@[k],
            store.events == old(store).events,
            store.matches == old(store).matches,
            store.transactions == old(store).transactions,
            store.next_match_id == old(store).next_match_id,
            store.next_transaction_id == old(store).next_transaction_id,
            store.next_user_id == old(store).next_user_id,
        decreases n - i,
    {
        if store.users[i].id == user_id {
            let ghost before = store.users@;
            let mut u = store.users.remove(i);
            u.fpl_id = Some(fpl_id);
            store.users.insert(i, u);
            proof {
                assert(store.users@ =~= before.update(
                    i as int,
                    User { fpl_id: Some(fpl_id), ..old(store).users@[i as int] },
                ));
            }
        }
        i += 1;
    }
}

} // verus!
