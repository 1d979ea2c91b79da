use vstd::prelude::*;
use crate::table::{
    table_wf, sorted_by_created, registered, key_present, key_index, insert_pos,
    insert_row, listing, confirm_in, relist_in, delete_in, lemma_insert_pos_split,
    lemma_insert_row_wf, lemma_confirm_wf,
};
use crate::user::{UserView, has_key, new_row, confirmed_row};

verus! {

/// Every listed row is a confirmed row of the table.
proof fn lemma_listing_members(s: Seq<UserView>)
    ensures
        forall|k: int|
            0 <= k < listing(s).len() ==> exists|i: int|
                0 <= i < s.len() && #[trigger] listing(s)[k] == s[i] && s[i].confirmed,
    decreases s.len(),
{
    if s.len() > 0 {
        let t = s.drop_last();
        lemma_listing_members(t);
        assert forall|k: int| 0 <= k < listing(s).len() implies exists|i: int|
            0 <= i < s.len() && #[trigger] listing(s)[k] == s[i] && s[i].confirmed by {
            if k < listing(t).len() {
                let i = choose|i: int| 0 <= i < t.len() && listing(t)[k] == t[i] && t[i].confirmed;
                assert(listing(s)[k] == s[i]);
            } else {
                assert(listing(s)[k] == s[s.len() - 1]);
            }
        }
    }
}

/// Every confirmed row of the table is listed.
proof fn lemma_listing_contains(s: Seq<UserView>, i: int)
    requires
        0 <= i < s.len(),
        s[i].confirmed,
    ensures
        exists|k: int| 0 <= k < listing(s).len() && #[trigger] listing(s)[k] == s[i],
    decreases s.len(),
{
    let t = s.drop_last();
    if i == s.len() - 1 {
        assert(listing(s)[listing(t).len() as int] == s[i]);
    } else {
        lemma_listing_contains(t, i);
        let k = choose|k: int| 0 <= k < listing(t).len() && #[trigger] listing(t)[k] == t[i];
        assert(listing(s)[k] == s[i]);
    }
}

/// No listed row carries a username that only unconfirmed rows carry.
proof fn lemma_name_unlisted(s: Seq<UserView>, name: Seq<char>)
    requires
        forall|i: int| 0 <= i < s.len() && (#[trigger] s[i]).username == name ==> !s[i].confirmed,
    ensures
        forall|k: int| 0 <= k < listing(s).len() ==> (#[trigger] listing(s)[k]).username != name,
{
    lemma_listing_members(s);
    assert forall|k: int| 0 <= k < listing(s).len() implies (#[trigger] listing(s)[k]).username
        != name by {
        let i = choose|i: int| 0 <= i < s.len() && listing(s)[k] == s[i] && s[i].confirmed;
        assert(s[i].username != name);
    }
}

/// Registration stores its record under the username, so a second
/// registration of that username finds it and does nothing.
pub proof fn law_registered_after_insert(
    s: Seq<UserView>,
    token: i64,
    name: Seq<char>,
    buying: i32,
    selling: i32,
    created: i64,
)
    requires
        table_wf(s),
        name.len() > 0,
        !registered(s, name),
    ensures
        registered(insert_row(s, new_row(token, name, buying, selling, created)), name),
{
    let u = new_row(token, name, buying, selling, created);
    lemma_insert_pos_split(s, created);
    let p = insert_pos(s, created);
    assert(insert_row(s, u)[p] == u);
}

/// A record that is not confirmed appears in no listing, under any name it carries.
pub proof fn law_unconfirmed_unlisted(s: Seq<UserView>, i: int)
    requires
        table_wf(s),
        0 <= i < s.len(),
        !s[i].confirmed,
    ensures
        forall|k: int|
            0 <= k < listing(s).len() ==> (#[trigger] listing(s)[k]).username != s[i].username,
{
    assert forall|j: int| 0 <= j < s.len() && (#[trigger] s[j]).username == s[i].username implies !s[j].confirmed by {
        if j != i {
            assert(s[j].username != s[i].username);
        }
    }
    lemma_name_unlisted(s, s[i].username);
}

/// A freshly registered record is not listed.
pub proof fn law_fresh_record_unlisted(
    s: Seq<UserView>,
    token: i64,
    name: Seq<char>,
    buying: i32,
    selling: i32,
    created: i64,
)
    requires
        table_wf(s),
        name.len() > 0,
        !registered(s, name),
    ensures
        forall|k: int|
            0 <= k < listing(insert_row(s, new_row(token, name, buying, selling, created))).len()
                ==> (#[trigger] listing(
                insert_row(s, new_row(token, name, buying, selling, created)),
            )[k]).username != name,
{
    let u = new_row(token, name, buying, selling, created);
    let t = insert_row(s, u);
    lemma_insert_pos_split(s, created);
    let p = insert_pos(s, created);
    assert forall|j: int| 0 <= j < t.len() && (#[trigger] t[j]).username == name implies !t[j].confirmed by {
        if j < p {
            assert(t[j] == s[j]);
        } else if j > p {
            assert(t[j] == s[j - 1]);
        }
    }
    lemma_name_unlisted(t, name);
}

/// Confirming with a record's own key puts the confirmed record in the listing.
pub proof fn law_confirm_lists(s: Seq<UserView>, token: i64, name: Seq<char>)
    requires
        table_wf(s),
        key_present(s, token, name),
    ensures
        exists|k: int|
            0 <= k < listing(confirm_in(s, token, name)).len() && #[trigger] listing(
                confirm_in(s, token, name),
            )[k] == confirmed_row(s[key_index(s, token, name)]),
        exists|k: int|
            0 <= k < listing(confirm_in(s, token, name)).len() && (#[trigger] listing(
                confirm_in(s, token, name),
            )[k]).username == name,
{
    let i = key_index(s, token, name);
    let t = confirm_in(s, token, name);
    assert(t[i] == confirmed_row(s[i]));
    lemma_listing_contains(t, i);
    let k = choose|k: int| 0 <= k < listing(t).len() && #[trigger] listing(t)[k] == t[i];
    assert(listing(t)[k].username == name);
}

/// A token that is not the one stored for a username confirms, changes and
/// deletes nothing, though the username exists.
pub proof fn law_foreign_token_rejected(s: Seq<UserView>, i: int, token: i64, buying: i32, selling: i32)
    requires
        table_wf(s),
        0 <= i < s.len(),
        s[i].access_id != token,
    ensures
        !key_present(s, token, s[i].username),
        confirm_in(s, token, s[i].username) == s,
        relist_in(s, token, s[i].username, buying, selling) == s,
        delete_in(s, token, s[i].username) == s,
{
    if key_present(s, token, s[i].username) {
        let j = choose|j: int| 0 <= j < s.len() && has_key(#[trigger] s[j], token, s[i].username);
        assert(j != i);
        assert(s[j].username != s[i].username);
    }
}

/// The listing is in creation order, oldest first.
pub proof fn law_listing_sorted(s: Seq<UserView>)
    requires
        sorted_by_created(s),
    ensures
        sorted_by_created(listing(s)),
    decreases s.len(),
{
    if s.len() > 0 {
        let t = s.drop_last();
        law_listing_sorted(t);
        lemma_listing_members(t);
        let l = listing(s);
        if s.last().confirmed {
            assert forall|a: int, b: int| 0 <= a <= b < l.len() implies #[trigger] l[a].created
                <= #[trigger] l[b].created by {
                if b == l.len() - 1 && a < b {
                    let i = choose|i: int|
                        0 <= i < t.len() && listing(t)[a] == t[i] && t[i].confirmed;
                    assert(s[i].created <= s[s.len() - 1].created);
                }
            }
        }
    }
}

/// Confirmation moves no record and changes no creation time, so the
/// listing after it is still in creation order.
pub proof fn law_confirm_keeps_order(s: Seq<UserView>, token: i64, name: Seq<char>)
    requires
        table_wf(s),
    ensures
        confirm_in(s, token, name).len() == s.len(),
        forall|i: int|
            0 <= i < s.len() ==> (#[trigger] confirm_in(s, token, name)[i]).created == s[i].created
                && confirm_in(s, token, name)[i].username == s[i].username,
        sorted_by_created(listing(confirm_in(s, token, name))),
{
    let t = confirm_in(s, token, name);
    assert(sorted_by_created(t));
    law_listing_sorted(t);
}

/// After the record keyed by `(token, name)` is deleted, no listing shows `name`.
pub proof fn law_deleted_unlisted(s: Seq<UserView>, token: i64, name: Seq<char>)
    requires
        table_wf(s),
        key_present(s, token, name),
    ensures
        forall|k: int|
            0 <= k < listing(delete_in(s, token, name)).len() ==> (#[trigger] listing(
                delete_in(s, token, name),
            )[k]).username != name,
{
    let i = key_index(s, token, name);
    let t = delete_in(s, token, name);
    assert(t == s.remove(i));
    assert forall|j: int| 0 <= j < t.len() && (#[trigger] t[j]).username == name implies !t[j].confirmed by {
        let j2 = if j < i { j } else { j + 1 };
        assert(t[j] == s[j2]);
        assert(s[j2].username != s[i].username);
    }
    lemma_name_unlisted(t, name);
}

/// Registering a name, confirming it with its token, and deleting it again:
/// after the confirmation the listing shows the name, the credential still
/// opens the listing, and after the deletion no listing shows it.
pub proof fn law_round_trip(
    s: Seq<UserView>,
    token: i64,
    name: Seq<char>,
    buying: i32,
    selling: i32,
    created: i64,
)
    requires
        table_wf(s),
        name.len() > 0,
        !registered(s, name),
    ensures
        ({
            let registered_table = insert_row(s, new_row(token, name, buying, selling, created));
            let confirmed_table = confirm_in(registered_table, token, name);
            &&& key_present(registered_table, token, name)
            &&& key_present(confirmed_table, token, name)
            &&& exists|k: int|
                0 <= k < listing(confirmed_table).len() && (#[trigger] listing(
                    confirmed_table,
                )[k]).username == name
            &&& forall|k: int|
                0 <= k < listing(delete_in(confirmed_table, token, name)).len() ==> (
                #[trigger] listing(delete_in(confirmed_table, token, name))[k]).username != name
        }),
{
    let u = new_row(token, name, buying, selling, created);
    let t1 = insert_row(s, u);
    lemma_insert_pos_split(s, created);
    lemma_insert_row_wf(s, u);
    let p = insert_pos(s, created);
    assert(t1[p] == u);
    assert(has_key(t1[p], token, name));
    law_confirm_lists(t1, token, name);
    let t2 = confirm_in(t1, token, name);
    lemma_confirm_wf(t1, token, name);
    let i = key_index(t1, token, name);
    assert(has_key(t2[i], token, name));
    law_deleted_unlisted(t2, token, name);
}

} // verus!
