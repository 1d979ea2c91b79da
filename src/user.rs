use vstd::prelude::*;

verus! {

/// One persisted registration.
#[derive(Debug)]
pub struct User {
    /// The confirmation token; together with `username` the record's key.
    pub access_id: i64,
    pub username: String,
    pub buying: i32,
    pub selling: i32,
    /// Set once, by a successful confirmation; never cleared.
    pub confirmed: bool,
    /// Creation time in microseconds since the Unix epoch.
    pub created: i64,
}

/// The mathematical value of a `User`.
pub struct UserView {
    pub access_id: i64,
    pub username: Seq<char>,
    pub buying: i32,
    pub selling: i32,
    pub confirmed: bool,
    pub created: i64,
}

impl View for User {
    type V = UserView;

    open spec fn view(&self) -> UserView {
        UserView {
            access_id: self.access_id,
            username: self.username@,
            buying: self.buying,
            selling: self.selling,
            confirmed: self.confirmed,
            created: self.created,
        }
    }
}

impl Clone for User {
    fn clone(&self) -> (r: Self)
        ensures
            r@ == self@,
    {
        User {
            access_id: self.access_id,
            username: self.username.clone(),
            buying: self.buying,
            selling: self.selling,
            confirmed: self.confirmed,
            created: self.created,
        }
    }
}

/// Whether `u` is the record keyed by `(token, name)`.
pub open spec fn has_key(u: UserView, token: i64, name: Seq<char>) -> bool {
    u.access_id == token && u.username == name
}

/// The fresh, unconfirmed record that a registration stores.
pub open spec fn new_row(token: i64, name: Seq<char>, buying: i32, selling: i32, created: i64) -> UserView {
    UserView { access_id: token, username: name, buying, selling, confirmed: false, created }
}

/// `u` after confirmation.
pub open spec fn confirmed_row(u: UserView) -> UserView {
    UserView { confirmed: true, ..u }
}

/// `u` with new quantities.
pub open spec fn relisted_row(u: UserView, buying: i32, selling: i32) -> UserView {
    UserView { buying, selling, ..u }
}

/// `u` as the anonymous listing shows it: without its username.
pub open spec fn redacted(u: UserView) -> UserView {
    UserView { username: Seq::empty(), ..u }
}

/// The views of a sequence of records.
pub open spec fn users_view(v: Seq<User>) -> Seq<UserView> {
    v.map_values(|u: User| u@)
}

} // verus!
