use vstd::prelude::*;
use crate::error::ServiceError;
use crate::user::{
    User, UserView, has_key, new_row, confirmed_row, relisted_row, redacted, users_view,
};

verus! {

/// Rows are ordered by creation time, oldest first.
pub open spec fn sorted_by_created(s: Seq<UserView>) -> bool {
    forall|i: int, j: int| 0 <= i <= j < s.len() ==> #[trigger] s[i].created <= #[trigger] s[j].created
}

/// No two rows share a username.
pub open spec fn names_unique(s: Seq<UserView>) -> bool {
    forall|i: int, j: int|
        0 <= i < s.len() && 0 <= j < s.len() && i != j ==> #[trigger] s[i].username
            != #[trigger] s[j].username
}

/// The invariant of the table: non-empty, unique usernames, rows in creation order.
pub open spec fn table_wf(s: Seq<UserView>) -> bool {
    &&& forall|i: int| 0 <= i < s.len() ==> (#[trigger] s[i]).username.len() > 0
    &&& names_unique(s)
    &&& sorted_by_created(s)
}

/// Some row carries the username `name`.
pub open spec fn registered(s: Seq<UserView>, name: Seq<char>) -> bool {
    exists|i: int| 0 <= i < s.len() && (#[trigger] s[i]).username == name
}

/// Some row is keyed by `(token, name)`.
pub open spec fn key_present(s: Seq<UserView>, token: i64, name: Seq<char>) -> bool {
    exists|i: int| 0 <= i < s.len() && has_key(#[trigger] s[i], token, name)
}

/// The position of the row keyed by `(token, name)`, where `key_present` holds.
pub open spec fn key_index(s: Seq<UserView>, token: i64, name: Seq<char>) -> int {
    choose|i: int| 0 <= i < s.len() && has_key(#[trigger] s[i], token, name)
}

/// Where a row created at `c` goes: after every row created at or before `c`.
pub open spec fn insert_pos(s: Seq<UserView>, c: i64) -> int
    decreases s.len(),
{
    if s.len() == 0 {
        0
    } else if s.last().created <= c {
        s.len() as int
    } else {
        insert_pos(s.drop_last(), c)
    }
}

/// `s` with `u` added in creation order.
pub open spec fn insert_row(s: Seq<UserView>, u: UserView) -> Seq<UserView> {
    s.insert(insert_pos(s, u.created), u)
}

/// The confirmed rows of `s`, in table order.
pub open spec fn listing(s: Seq<UserView>) -> Seq<UserView>
    decreases s.len(),
{
    if s.len() == 0 {
        Seq::empty()
    } else if s.last().confirmed {
        listing(s.drop_last()).push(s.last())
    } else {
        listing(s.drop_last())
    }
}

/// The confirmed rows of `s` with their usernames removed.
pub open spec fn anonymous_listing(s: Seq<UserView>) -> Seq<UserView> {
    listing(s).map_values(|u: UserView| redacted(u))
}

/// The table `s` after confirming the row keyed by `(token, name)`.
pub open spec fn confirm_in(s: Seq<UserView>, token: i64, name: Seq<char>) -> Seq<UserView> {
    if key_present(s, token, name) {
        let i = key_index(s, token, name);
        s.update(i, confirmed_row(s[i]))
    } else {
        s
    }
}

/// The table `s` after setting the quantities of the row keyed by `(token, name)`.
pub open spec fn relist_in(
    s: Seq<UserView>,
    token: i64,
    name: Seq<char>,
    buying: i32,
    selling: i32,
) -> Seq<UserView> {
    if key_present(s, token, name) {
        let i = key_index(s, token, name);
        s.update(i, relisted_row(s[i], buying, selling))
    } else {
        s
    }
}

/// The table `s` without the row keyed by `(token, name)`.
pub open spec fn delete_in(s: Seq<UserView>, token: i64, name: Seq<char>) -> Seq<UserView> {
    if key_present(s, token, name) {
        s.remove(key_index(s, token, name))
    } else {
        s
    }
}

/// A row created at `c` goes after the rows created at or before `c` and
/// before the later ones.
pub proof fn lemma_insert_pos_split(s: Seq<UserView>, c: i64)
    requires
        sorted_by_created(s),
    ensures
        0 <= insert_pos(s, c) <= s.len(),
        forall|j: int| 0 <= j < insert_pos(s, c) ==> (#[trigger] s[j]).created <= c,
        forall|j: int| insert_pos(s, c) <= j < s.len() ==> (#[trigger] s[j]).created > c,
    decreases s.len(),
{
    if s.len() > 0 {
        let t = s.drop_last();
        lemma_insert_pos_split(t, c);
        if s.last().created <= c {
            assert forall|j: int| 0 <= j < s.len() implies (#[trigger] s[j]).created <= c by {
                assert(s[j].created <= s[s.len() - 1].created);
            }
        } else {
            assert forall|j: int| insert_pos(s, c) <= j < s.len() implies (#[trigger] s[j]).created
                > c by {
                if j < s.len() - 1 {
                    assert(s[j] == t[j]);
                }
            }
            assert forall|j: int| 0 <= j < insert_pos(s, c) implies (#[trigger] s[j]).created
                <= c by {
                assert(s[j] == t[j]);
            }
        }
    }
}

/// Adding a row with a fresh, non-empty username in creation order keeps the
/// table's invariant.
pub proof fn lemma_insert_row_wf(s: Seq<UserView>, u: UserView)
    requires
        table_wf(s),
        u.username.len() > 0,
        !registered(s, u.username),
    ensures
        table_wf(insert_row(s, u)),
{
    lemma_insert_pos_split(s, u.created);
    let i = insert_pos(s, u.created);
    let t = insert_row(s, u);
    assert forall|a: int, b: int| 0 <= a <= b < t.len() implies #[trigger] t[a].created
        <= #[trigger] t[b].created by {
        if a < i && b < i {
            assert(t[a] == s[a] && t[b] == s[b]);
        } else if a < i && b == i {
            assert(t[a] == s[a]);
        } else if a < i {
            assert(t[a] == s[a] && t[b] == s[b - 1]);
        } else if a == i && b > i {
            assert(t[b] == s[b - 1]);
        } else if a > i {
            assert(t[a] == s[a - 1] && t[b] == s[b - 1]);
        }
    }
    assert forall|a: int, b: int|
        0 <= a < t.len() && 0 <= b < t.len() && a != b implies #[trigger] t[a].username
        != #[trigger] t[b].username by {
        if a == i {
            if b < i {
                assert(s[b].username != u.username);
            } else {
                assert(s[b - 1].username != u.username);
            }
        } else if b == i {
            if a < i {
                assert(s[a].username != u.username);
            } else {
                assert(s[a - 1].username != u.username);
            }
        } else {
            let a2 = if a < i { a } else { a - 1 };
            let b2 = if b < i { b } else { b - 1 };
            assert(t[a] == s[a2] && t[b] == s[b2]);
        }
    }
    assert forall|a: int| 0 <= a < t.len() implies (#[trigger] t[a]).username.len() > 0 by {
        if a < i {
            assert(t[a] == s[a]);
        } else if a > i {
            assert(t[a] == s[a - 1]);
        }
    }
}

/// Confirmation keeps the table's invariant.
pub proof fn lemma_confirm_wf(s: Seq<UserView>, token: i64, name: Seq<char>)
    requires
        table_wf(s),
    ensures
        table_wf(confirm_in(s, token, name)),
{
    let t = confirm_in(s, token, name);
    assert forall|a: int| 0 <= a < s.len() implies #[trigger] t[a].username == s[a].username
        && t[a].created == s[a].created by {}
}

/// The relation of user records, keyed by `(access_id, username)`.
pub struct UserTable {
    rows: Vec<User>,
}

impl View for UserTable {
    type V = Seq<UserView>;

    closed spec fn view(&self) -> Seq<UserView> {
        users_view(self.rows@)
    }
}

impl UserTable {
    pub open spec fn wf(&self) -> bool {
        table_wf(self@)
    }

    /// An empty table.
    pub fn new() -> (r: UserTable)
        ensures
            r.wf(),
            r@ == Seq::<UserView>::empty(),
    {
        let r = UserTable { rows: Vec::new() };
        assert(r@ =~= Seq::<UserView>::empty());
        r
    }

    /// The number of records.
    pub fn len(&self) -> (r: usize)
        ensures
            r == self@.len(),
    {
        self.rows.len()
    }

    /// The record at position `i`.
    pub fn get(&self, i: usize) -> (r: &User)
        requires
            i < self@.len(),
        ensures
            r@ == self@[i as int],
    {
        &self.rows[i]
    }

    /// The position of the record named `name`, whatever its token.
    pub fn find_by_username(&self, name: &str) -> (r: Option<usize>)
        ensures
            match r {
                Some(i) => i < self@.len() && self@[i as int].username == name@,
                None => !registered(self@, name@),
            },
    {
        let key = String::from_str(name);
        let mut i: usize = 0;
        while i < self.rows.len()
            invariant
                i <= self.rows.len(),
                key@ == name@,
                forall|j: int| 0 <= j < i ==> (#[trigger] self@[j]).username != name@,
            decreases self.rows.len() - i,
        {
            if self.rows[i].username == key {
                return Some(i);
            }
            i = i + 1;
        }
        None
    }

    /// The position of the record keyed by `(token, name)`.
    pub fn find_key(&self, token: i64, name: &str) -> (r: Option<usize>)
        requires
            self.wf(),
        ensures
            match r {
                Some(i) => i == key_index(self@, token, name@) && key_present(self@, token, name@),
                None => !key_present(self@, token, name@),
            },
    {
        match self.find_by_username(name) {
            Some(i) => {
                if self.rows[i].access_id == token {
                    assert(has_key(self@[i as int], token, name@));
                    let ghost k = key_index(self@, token, name@);
                    assert(has_key(self@[k], token, name@));
                    Some(i)
                } else {
                    None
                }
            },
            None => None,
        }
    }

    /// The record keyed by `(token, name)`, if there is one.
    pub fn find_user(&self, token: i64, name: &str) -> (r: Option<User>)
        requires
            self.wf(),
        ensures
            match r {
                Some(u) => key_present(self@, token, name@) && u@ == self@[key_index(
                    self@,
                    token,
                    name@,
                )],
                None => !key_present(self@, token, name@),
            },
    {
        match self.find_key(token, name) {
            Some(i) => Some(self.rows[i].clone()),
            None => None,
        }
    }

    /// Adds `u` after every record created at or before it.
    fn insert_sorted(&mut self, u: User)
        requires
            old(self).wf(),
            u@.username.len() > 0,
            !registered(old(self)@, u@.username),
        ensures
            final(self).wf(),
            final(self)@ == insert_row(old(self)@, u@),
    {
        let ghost s = self@;
        let ghost c = u.created;
        let mut i: usize = self.rows.len();
        proof {
            assert(s.subrange(0, i as int) =~= s);
        }
        while i > 0 && self.rows[i - 1].created > u.created
            invariant
                i <= self.rows.len(),
                self@ == s,
                table_wf(s),
                c == u.created,
                insert_pos(s, c) == insert_pos(s.subrange(0, i as int), c),
            decreases i,
        {
            proof {
                assert(s.subrange(0, i - 1) =~= s.subrange(0, i as int).drop_last());
            }
            i = i - 1;
        }
        proof {
            if i > 0 {
                assert(s.subrange(0, i as int).last() == s[i - 1]);
            }
            assert(insert_pos(s, c) == i);
        }
        let ghost uv = u@;
        self.rows.insert(i, u);
        proof {
            assert(self@ =~= s.insert(i as int, uv));
            lemma_insert_row_wf(s, uv);
        }
    }

    /// Adds a record read back from storage, in creation order. A record with
    /// an empty username, or one already present, is refused.
    pub fn restore(&mut self, u: User) -> (r: bool)
        requires
            old(self).wf(),
        ensures
            final(self).wf(),
            r == (u@.username.len() > 0 && !registered(old(self)@, u@.username)),
            r ==> final(self)@ == insert_row(old(self)@, u@),
            !r ==> final(self)@ == old(self)@,
    {
        if u.username.as_str().is_empty() {
            return false;
        }
        if self.find_by_username(u.username.as_str()).is_some() {
            return false;
        }
        self.insert_sorted(u);
        true
    }

    /// Stores the fresh record for `name` once its token was delivered
    /// (`delivered`); without delivery nothing is stored.
    pub fn commit_registration(
        &mut self,
        name: &str,
        buying: i32,
        selling: i32,
        token: i64,
        created: i64,
        delivered: bool,
    ) -> (r: Result<bool, ServiceError>)
        requires
            old(self).wf(),
            name@.len() > 0,
            !registered(old(self)@, name@),
        ensures
            final(self).wf(),
            delivered ==> r == Ok::<bool, ServiceError>(true) && final(self)@ == insert_row(
                old(self)@,
                new_row(token, name@, buying, selling, created),
            ),
            !delivered ==> r == Err::<bool, ServiceError>(ServiceError::Infrastructure)
                && final(self)@ == old(self)@,
    {
        if !delivered {
            return Err(ServiceError::Infrastructure);
        }
        let u = User {
            access_id: token,
            username: String::from_str(name),
            buying,
            selling,
            confirmed: false,
            created,
        };
        self.insert_sorted(u);
        Ok(true)
    }

    /// Marks the record keyed by `(token, name)` confirmed; true iff there is one.
    pub fn confirm(&mut self, token: i64, name: &str) -> (r: bool)
        requires
            old(self).wf(),
        ensures
            final(self).wf(),
            r == key_present(old(self)@, token, name@),
            final(self)@ == confirm_in(old(self)@, token, name@),
    {
        let ghost s = self@;
        match self.find_key(token, name) {
            Some(i) => {
                let mut u = self.rows.remove(i);
                u.confirmed = true;
                self.rows.insert(i, u);
                proof {
                    assert(self@ =~= s.update(i as int, confirmed_row(s[i as int])));
                    assert(self@ == confirm_in(s, token, name@));
                    assert forall|a: int| 0 <= a < s.len() implies #[trigger] self@[a].username
                        == s[a].username && self@[a].created == s[a].created by {}
                }
                true
            },
            None => false,
        }
    }

    /// Sets the quantities of the record keyed by `(token, name)`; true iff there is one.
    pub fn set_listing(&mut self, token: i64, name: &str, buying: i32, selling: i32) -> (r: bool)
        requires
            old(self).wf(),
        ensures
            final(self).wf(),
            r == key_present(old(self)@, token, name@),
            final(self)@ == relist_in(old(self)@, token, name@, buying, selling),
    {
        let ghost s = self@;
        match self.find_key(token, name) {
            Some(i) => {
                let mut u = self.rows.remove(i);
                u.buying = buying;
                u.selling = selling;
                self.rows.insert(i, u);
                proof {
                    assert(self@ =~= s.update(i as int, relisted_row(s[i as int], buying, selling)));
                    assert forall|a: int| 0 <= a < s.len() implies #[trigger] self@[a].username
                        == s[a].username && self@[a].created == s[a].created by {}
                }
                true
            },
            None => false,
        }
    }

    /// Removes the record keyed by `(token, name)`; true iff there was one.
    pub fn delete(&mut self, token: i64, name: &str) -> (r: bool)
        requires
            old(self).wf(),
        ensures
            final(self).wf(),
            r == key_present(old(self)@, token, name@),
            final(self)@ == delete_in(old(self)@, token, name@),
    {
        let ghost s = self@;
        match self.find_key(token, name) {
            Some(i) => {
                self.rows.remove(i);
                proof {
                    let t = s.remove(i as int);
                    assert(self@ =~= t);
                    assert forall|a: int| 0 <= a < t.len() implies #[trigger] t[a] == if a < i {
                        s[a]
                    } else {
                        s[a + 1]
                    } by {}
                    assert forall|a: int, b: int| 0 <= a <= b < t.len() implies #[trigger] t[a].created
                        <= #[trigger] t[b].created by {
                        let a2 = if a < i { a } else { a + 1 };
                        let b2 = if b < i { b } else { b + 1 };
                        assert(t[a] == s[a2] && t[b] == s[b2]);
                    }
                    assert forall|a: int, b: int|
                        0 <= a < t.len() && 0 <= b < t.len() && a != b implies #[trigger] t[a].username
                        != #[trigger] t[b].username by {
                        let a2 = if a < i { a } else { a + 1 };
                        let b2 = if b < i { b } else { b + 1 };
                        assert(t[a] == s[a2] && t[b] == s[b2]);
                    }
                }
                true
            },
            None => false,
        }
    }

    /// Every confirmed record, in creation order.
    fn confirmed_rows(&self, anonymous: bool) -> (r: Vec<User>)
        ensures
            !anonymous ==> users_view(r@) == listing(self@),
            anonymous ==> users_view(r@) == anonymous_listing(self@),
    {
        let ghost s = self@;
        let mut out: Vec<User> = Vec::new();
        let mut i: usize = 0;
        proof {
            assert(users_view(out@) =~= listing(s.subrange(0, 0)));
            assert(users_view(out@) =~= anonymous_listing(s.subrange(0, 0)));
        }
        while i < self.rows.len()
            invariant
                i <= self.rows.len(),
                s == self@,
                !anonymous ==> users_view(out@) == listing(s.subrange(0, i as int)),
                anonymous ==> users_view(out@) == anonymous_listing(s.subrange(0, i as int)),
            decreases self.rows.len() - i,
        {
            let ghost prev = out@;
            proof {
                assert(s.subrange(0, i + 1).drop_last() =~= s.subrange(0, i as int));
                assert(s.subrange(0, i + 1).last() == s[i as int]);
            }
            if self.rows[i].confirmed {
                let mut u = self.rows[i].clone();
                if anonymous {
                    u.username = String::new();
                }
                out.push(u);
                proof {
                    assert(users_view(out@) =~= users_view(prev).push(out@.last()@));
                    if anonymous {
                        assert(out@.last()@ == redacted(s[i as int]));
                        assert(listing(s.subrange(0, i + 1)) == listing(s.subrange(0, i as int)).push(s[i as int]));
                        assert(anonymous_listing(s.subrange(0, i + 1)) =~= anonymous_listing(s.subrange(0, i as int)).push(redacted(s[i as int])));
                    }
                }
            }
            i = i + 1;
        }
        proof {
            assert(s.subrange(0, i as int) =~= s);
        }
        out
    }

    /// Every confirmed record, in creation order, for the holder of the
    /// credential `(token, name)`; `Unauthorized` when no record has that key.
    pub fn list_confirmed(&self, token: i64, name: &str) -> (r: Result<Vec<User>, ServiceError>)
        requires
            self.wf(),
        ensures
            match r {
                Ok(v) => key_present(self@, token, name@) && users_view(v@) == listing(self@),
                Err(e) => !key_present(self@, token, name@) && e == ServiceError::Unauthorized,
            },
    {
        match self.find_key(token, name) {
            Some(_) => Ok(self.confirmed_rows(false)),
            None => Err(ServiceError::Unauthorized),
        }
    }

    /// Every confirmed record, in creation order, with usernames removed.
    pub fn list_anonymous(&self) -> (r: Vec<User>)
        ensures
            users_view(r@) == anonymous_listing(self@),
    {
        self.confirmed_rows(true)
    }

    /// The listing a request shows: the full one for a valid credential, the
    /// anonymous one when no token comes with the request.
    pub fn list_users(&self, token: Option<i64>, name: &str) -> (r: Result<Vec<User>, ServiceError>)
        requires
            self.wf(),
        ensures
            token is None ==> (r matches Ok(v) && users_view(v@) == anonymous_listing(self@)),
            token matches Some(t) ==> match r {
                Ok(v) => key_present(self@, t, name@) && users_view(v@) == listing(self@),
                Err(e) => !key_present(self@, t, name@) && e == ServiceError::Unauthorized,
            },
    {
        match token {
            Some(t) => self.list_confirmed(t, name),
            None => Ok(self.list_anonymous()),
        }
    }
}

} // verus!
