use commencement_tickets::error::ServiceError;
use commencement_tickets::handler::DbHandler;
use commencement_tickets::notify::MockNotifier;
use commencement_tickets::table::UserTable;
use commencement_tickets::user::User;

fn handler() -> (DbHandler, MockNotifier) {
    (DbHandler::new("tickets.example".to_string()), MockNotifier::new())
}

fn token_of(h: &DbHandler, name: &str) -> i64 {
    let i = h.table.find_by_username(name).unwrap();
    h.table.get(i).access_id
}

#[test]
fn second_registration_is_a_silent_success() {
    let (mut h, mut m) = handler();
    assert_eq!(h.register(&mut m, "alice", 2, 0), Ok(true));
    let token = token_of(&h, "alice");
    assert_eq!(h.register(&mut m, "alice", 5, 5), Ok(true));
    assert_eq!(h.table.len(), 1);
    assert_eq!(m.outbox.len(), 1);
    assert_eq!(token_of(&h, "alice"), token);
    let u = h.table.get(0);
    assert_eq!((u.buying, u.selling), (2, 0));
}

#[test]
fn same_username_many_times_gives_one_record() {
    let (mut h, mut m) = handler();
    for _ in 0..8 {
        assert_eq!(h.register(&mut m, "carol", 1, 1), Ok(true));
    }
    assert_eq!(h.table.len(), 1);
    assert_eq!(m.outbox.len(), 1);
}

#[test]
fn distinct_usernames_get_distinct_tokens() {
    let (mut h, mut m) = handler();
    let names = ["a1", "a2", "a3", "a4", "a5", "a6"];
    for n in names.iter() {
        assert_eq!(h.register(&mut m, n, 1, 0), Ok(true));
    }
    assert_eq!(h.table.len(), 6);
    assert_eq!(m.outbox.len(), 6);
    let mut tokens: Vec<i64> = names.iter().map(|n| token_of(&h, n)).collect();
    tokens.sort();
    tokens.dedup();
    assert_eq!(tokens.len(), 6);
}

#[test]
fn empty_username_is_refused() {
    let (mut h, mut m) = handler();
    assert_eq!(h.register(&mut m, "", 1, 1), Err(ServiceError::Validation));
    assert_eq!(h.table.len(), 0);
    assert_eq!(m.outbox.len(), 0);
    assert_eq!(ServiceError::Validation.status_code(), 400);
}

#[test]
fn undelivered_token_stores_nothing() {
    let mut h = DbHandler::new("tickets.example".to_string());
    let d = h.prepare_registration("dave").unwrap().unwrap();
    assert_eq!(d.username, "dave");
    assert_eq!(d.domain, "tickets.example");
    assert_eq!(h.complete_registration(&d, 1, 0, false), Err(ServiceError::Infrastructure));
    assert_eq!(h.table.len(), 0);
    assert_eq!(ServiceError::Infrastructure.status_code(), 500);
}

#[test]
fn registration_sends_token_to_user() {
    let (mut h, mut m) = handler();
    assert_eq!(h.register_with_token(&mut m, "erin", 3, 1, -42, 1000), Ok(true));
    let mail = &m.outbox[0];
    assert_eq!(mail.to, "erin@husky.neu.edu");
    assert_eq!(mail.from, "mock-emailer@localhost");
    assert_eq!(mail.subject, "Commencement Ticket Resell Confirmation");
    assert_eq!(
        mail.text,
        "Hey erin, thanks for registering. Login with this url \
         https://tickets.example/api/confirm?username=erin&token=-42"
    );
    let u = h.table.get(0);
    assert_eq!(u.access_id, -42);
    assert_eq!(u.username, "erin");
    assert!(!u.confirmed);
    assert_eq!(u.created, 1000);
}

#[test]
fn alice_example() {
    let (mut h, mut m) = handler();
    assert_eq!(h.register_with_token(&mut m, "bob", 0, 1, 77, 10), Ok(true));
    assert!(h.table.confirm(77, "bob"));
    assert_eq!(h.register(&mut m, "alice", 2, 0), Ok(true));
    let t = token_of(&h, "alice");
    let before = h.table.list_confirmed(77, "bob").unwrap();
    assert!(before.iter().all(|u| u.username != "alice"));
    assert!(h.table.confirm(t, "alice"));
    let after = h.table.list_confirmed(77, "bob").unwrap();
    let alice: Vec<_> = after.iter().filter(|u| u.username == "alice").collect();
    assert_eq!(alice.len(), 1);
    assert_eq!((alice[0].buying, alice[0].selling), (2, 0));
}

#[test]
fn unconfirmed_record_is_not_listed() {
    let (mut h, mut m) = handler();
    assert_eq!(h.register_with_token(&mut m, "frank", 1, 0, 5, 1), Ok(true));
    assert_eq!(h.register_with_token(&mut m, "gina", 0, 2, 6, 2), Ok(true));
    assert_eq!(h.table.list_confirmed(5, "frank").unwrap().len(), 0);
    assert!(!h.table.confirm(6, "frank"));
    assert!(h.table.set_listing(6, "gina", 4, 4));
    assert_eq!(h.table.list_confirmed(6, "gina").unwrap().len(), 0);
    assert!(h.table.confirm(6, "gina"));
    let l = h.table.list_confirmed(5, "frank").unwrap();
    assert_eq!(l.len(), 1);
    assert_eq!(l[0].username, "gina");
    assert_eq!((l[0].buying, l[0].selling), (4, 4));
}

#[test]
fn foreign_token_changes_nothing() {
    let (mut h, mut m) = handler();
    assert_eq!(h.register_with_token(&mut m, "hank", 1, 1, 100, 1), Ok(true));
    assert_eq!(h.register_with_token(&mut m, "ivy", 2, 2, 200, 2), Ok(true));
    assert!(!h.table.confirm(200, "hank"));
    assert!(!h.table.set_listing(200, "hank", 9, 9));
    assert!(!h.table.delete(200, "hank"));
    assert!(!h.table.confirm(101, "hank"));
    assert_eq!(h.table.len(), 2);
    let u = h.table.get(0);
    assert_eq!((u.buying, u.selling, u.confirmed), (1, 1, false));
    assert!(h.table.find_user(200, "hank").is_none());
    assert_eq!(h.table.find_user(100, "hank").unwrap().username, "hank");
}

#[test]
fn listing_needs_a_valid_token() {
    let (mut h, mut m) = handler();
    assert_eq!(h.register_with_token(&mut m, "jack", 1, 1, 1, 1), Ok(true));
    assert_eq!(
        h.table.list_confirmed(2, "jack").map(|v| v.len()),
        Err(ServiceError::Unauthorized)
    );
    assert_eq!(
        h.table.list_confirmed(1, "nobody").map(|v| v.len()),
        Err(ServiceError::Unauthorized)
    );
    assert_eq!(ServiceError::Unauthorized.status_code(), 401);
    assert_eq!(ServiceError::Unauthorized.description(), "Invalid token");
    assert_eq!(ServiceError::Validation.description(), "Invalid request");
    assert_eq!(ServiceError::Infrastructure.description(), "Internal failure");
}

#[test]
fn listing_follows_creation_time() {
    let (mut h, mut m) = handler();
    assert_eq!(h.register_with_token(&mut m, "late", 0, 1, 3, 300), Ok(true));
    assert_eq!(h.register_with_token(&mut m, "early", 0, 1, 1, 100), Ok(true));
    assert_eq!(h.register_with_token(&mut m, "mid", 0, 1, 2, 200), Ok(true));
    assert!(h.table.confirm(3, "late"));
    assert!(h.table.confirm(1, "early"));
    assert!(h.table.confirm(2, "mid"));
    let names: Vec<String> = h
        .table
        .list_confirmed(1, "early")
        .unwrap()
        .into_iter()
        .map(|u| u.username)
        .collect();
    assert_eq!(names, vec!["early", "mid", "late"]);
}

#[test]
fn equal_creation_times_keep_registration_order() {
    let (mut h, mut m) = handler();
    assert_eq!(h.register_with_token(&mut m, "x", 0, 1, 1, 50), Ok(true));
    assert_eq!(h.register_with_token(&mut m, "y", 0, 1, 2, 50), Ok(true));
    assert!(h.table.confirm(2, "y"));
    assert!(h.table.confirm(1, "x"));
    let l = h.table.list_confirmed(1, "x").unwrap();
    assert_eq!(l[0].username, "x");
    assert_eq!(l[1].username, "y");
}

#[test]
fn confirm_list_delete_round_trip() {
    let (mut h, mut m) = handler();
    assert_eq!(h.register_with_token(&mut m, "kim", 1, 0, 11, 1), Ok(true));
    assert_eq!(h.register_with_token(&mut m, "lee", 0, 1, 22, 2), Ok(true));
    assert!(h.table.confirm(11, "kim"));
    let l = h.table.list_confirmed(22, "lee").unwrap();
    assert!(l.iter().any(|u| u.username == "kim"));
    assert!(h.table.delete(11, "kim"));
    assert!(!h.table.delete(11, "kim"));
    let l = h.table.list_confirmed(22, "lee").unwrap();
    assert!(l.iter().all(|u| u.username != "kim"));
    assert_eq!(h.table.len(), 1);
}

#[test]
fn anonymous_listing_hides_names() {
    let (mut h, mut m) = handler();
    assert_eq!(h.register_with_token(&mut m, "max", 3, 0, 1, 1), Ok(true));
    assert_eq!(h.register_with_token(&mut m, "ned", 0, 3, 2, 2), Ok(true));
    assert!(h.table.confirm(1, "max"));
    let l = h.table.list_users(None, "").unwrap();
    assert_eq!(l.len(), 1);
    assert_eq!(l[0].username, "");
    assert_eq!((l[0].buying, l[0].selling), (3, 0));
    assert_eq!(h.table.list_anonymous().len(), 1);
    let named = h.table.list_users(Some(2), "ned").unwrap();
    assert_eq!(named[0].username, "max");
    assert!(h.table.list_users(Some(3), "ned").is_err());
}

#[test]
fn restore_keeps_creation_order() {
    let mut t = UserTable::new();
    let row = |name: &str, token: i64, created: i64, confirmed: bool| User {
        access_id: token,
        username: name.to_string(),
        buying: 1,
        selling: 0,
        confirmed,
        created,
    };
    assert!(t.restore(row("b", 2, 20, true)));
    assert!(t.restore(row("a", 1, 10, true)));
    assert!(t.restore(row("c", 3, 30, false)));
    assert!(!t.restore(row("a", 9, 5, true)));
    assert!(!t.restore(row("", 4, 1, true)));
    assert_eq!(t.len(), 3);
    assert_eq!(t.get(0).username, "a");
    let names: Vec<String> = t.list_confirmed(3, "c").unwrap().into_iter().map(|u| u.username).collect();
    assert_eq!(names, vec!["a", "b"]);
}

#[test]
fn new_table_is_empty() {
    let t = UserTable::new();
    assert_eq!(t.len(), 0);
    assert!(t.find_by_username("a").is_none());
    assert_eq!(t.list_anonymous().len(), 0);
}

#[test]
fn mock_notifier_records_each_message() {
    let mut m = MockNotifier::new();
    assert!(m.send_token("localhost", "alice", 42));
    assert!(m.send_token("localhost", "bob", -7));
    assert_eq!(m.outbox.len(), 2);
    let first = &m.outbox[0];
    assert_eq!(first.to, "alice@husky.neu.edu");
    assert_eq!(first.from, "mock-emailer@localhost");
    assert_eq!(first.subject, "Commencement Ticket Resell Confirmation");
    assert_eq!(
        first.text,
        "Hey alice, thanks for registering. Login with this url \
         https://localhost/api/confirm?username=alice&token=42"
    );
    assert_eq!(m.outbox[1].to, "bob@husky.neu.edu");
    assert!(m.outbox[1].text.ends_with("username=bob&token=-7"));
}

#[test]
fn notification_carries_the_stored_token() {
    let (mut h, mut m) = handler();
    for n in ["p1", "p2", "p3"] {
        assert_eq!(h.register(&mut m, n, 1, 0), Ok(true));
    }
    assert_eq!(m.outbox.len(), 3);
    for (k, n) in ["p1", "p2", "p3"].iter().enumerate() {
        let t = token_of(&h, n);
        let expected = format!("https://tickets.example/api/confirm?username={}&token={}", n, t);
        assert!(m.outbox[k].text.ends_with(&expected));
        assert_eq!(m.outbox[k].to, format!("{}@husky.neu.edu", n));
    }
}

#[test]
fn two_step_registration_stores_the_delivered_token() {
    let mut h = DbHandler::new("d.org".to_string());
    assert!(matches!(h.prepare_registration(""), Err(ServiceError::Validation)));
    let d = h.prepare_registration_with_token("quinn", 99).unwrap().unwrap();
    assert_eq!((d.domain.as_str(), d.username.as_str(), d.token), ("d.org", "quinn", 99));
    assert_eq!(h.complete_registration_at(&d, 4, 5, 123, true), Ok(true));
    let u = h.table.get(0);
    assert_eq!((u.access_id, u.buying, u.selling, u.created, u.confirmed), (99, 4, 5, 123, false));
    assert!(h.prepare_registration("quinn").unwrap().is_none());
    let d2 = h.prepare_registration("rose").unwrap().unwrap();
    assert_eq!(h.complete_registration(&d2, 0, 1, true), Ok(true));
    assert_eq!(token_of(&h, "rose"), d2.token);
}
