use vstd::prelude::*;
use crate::error::ServiceError;
use crate::notify::{ADDRESS_SUFFIX, MOCK_SENDER, SUBJECT, MockNotifier, message_text_of};
use crate::table::{UserTable, insert_row, registered};
use crate::token::issue_token;
use crate::user::{UserView, new_row};

verus! {

/// Relies on `chrono::Utc::now` and `DateTime::timestamp_micros`: the current
/// UTC time in microseconds since the Unix epoch. Nothing is known of the value.
/// `Utc::now` panics only when the system clock reads before 1970.
#[verifier::external_body]
fn now_micros() -> i64 {
    chrono::Utc::now().timestamp_micros()
}

/// A token to deliver before a registration is stored: the domain the
/// confirmation link points to, the user, and the token.
pub struct Delivery {
    pub domain: String,
    pub username: String,
    pub token: i64,
}

/// The single owner of the user table: every operation on it goes through
/// one handler, one request at a time.
///
/// Registration takes two steps with the delivery of the token between
/// them: `prepare_registration` says what to deliver, if anything, and
/// `complete_registration` stores exactly that token once it was delivered.
pub struct DbHandler {
    pub table: UserTable,
    /// The domain that confirmation links point to.
    pub domain: String,
}

impl DbHandler {
    /// A handler over an empty table.
    pub fn new(domain: String) -> (r: Self)
        ensures
            r.table.wf(),
            r.table@ == Seq::<UserView>::empty(),
            r.domain == domain,
    {
        DbHandler { table: UserTable::new(), domain }
    }

    /// The first step of registering `username` under `token`. An empty
    /// username is refused; a username already present needs no delivery
    /// (`None`: the registration is a success that changes nothing);
    /// otherwise `token` is to be delivered to `username`.
    pub fn prepare_registration_with_token(&self, username: &str, token: i64) -> (r: Result<
        Option<Delivery>,
        ServiceError,
    >)
        requires
            self.table.wf(),
        ensures
            username@.len() == 0 ==> r == Err::<Option<Delivery>, ServiceError>(ServiceError::Validation),
            username@.len() > 0 && registered(self.table@, username@) ==> r matches Ok(None),
            username@.len() > 0 && !registered(self.table@, username@) ==> (r matches Ok(Some(d))
                && d.domain@ == self.domain@ && d.username@ == username@ && d.token == token),
    {
        if username.is_empty() {
            return Err(ServiceError::Validation);
        }
        if self.table.find_by_username(username).is_some() {
            return Ok(None);
        }
        Ok(Some(Delivery { domain: self.domain.clone(), username: String::from_str(username), token }))
    }

    /// `prepare_registration_with_token` under a freshly drawn token.
    pub fn prepare_registration(&self, username: &str) -> (r: Result<Option<Delivery>, ServiceError>)
        requires
            self.table.wf(),
        ensures
            username@.len() == 0 ==> r == Err::<Option<Delivery>, ServiceError>(ServiceError::Validation),
            username@.len() > 0 && registered(self.table@, username@) ==> r matches Ok(None),
            username@.len() > 0 && !registered(self.table@, username@) ==> (r matches Ok(Some(d))
                && d.domain@ == self.domain@ && d.username@ == username@),
    {
        self.prepare_registration_with_token(username, issue_token())
    }

    /// The second step: stores the record for `d`, created at `created`,
    /// with exactly the token of `d`, when it was delivered (`delivered`);
    /// without delivery nothing is stored.
    pub fn complete_registration_at(
        &mut self,
        d: &Delivery,
        buying: i32,
        selling: i32,
        created: i64,
        delivered: bool,
    ) -> (r: Result<bool, ServiceError>)
        requires
            old(self).table.wf(),
            d.username@.len() > 0,
            !registered(old(self).table@, d.username@),
        ensures
            final(self).table.wf(),
            final(self).domain == old(self).domain,
            delivered ==> r == Ok::<bool, ServiceError>(true) && final(self).table@ == insert_row(
                old(self).table@,
                new_row(d.token, d.username@, buying, selling, created),
            ),
            !delivered ==> r == Err::<bool, ServiceError>(ServiceError::Infrastructure)
                && final(self).table@ == old(self).table@,
    {
        self.table.commit_registration(
            d.username.as_str(),
            buying,
            selling,
            d.token,
            created,
            delivered,
        )
    }

    /// `complete_registration_at`, stamped with the current time.
    pub fn complete_registration(
        &mut self,
        d: &Delivery,
        buying: i32,
        selling: i32,
        delivered: bool,
    ) -> (r: Result<bool, ServiceError>)
        requires
            old(self).table.wf(),
            d.username@.len() > 0,
            !registered(old(self).table@, d.username@),
        ensures
            final(self).table.wf(),
            final(self).domain == old(self).domain,
            delivered ==> r == Ok::<bool, ServiceError>(true) && exists|created: i64|
                final(self).table@ == insert_row(
                    old(self).table@,
                    #[trigger] new_row(d.token, d.username@, buying, selling, created),
                ),
            !delivered ==> r == Err::<bool, ServiceError>(ServiceError::Infrastructure)
                && final(self).table@ == old(self).table@,
    {
        let created = now_micros();
        let r = self.complete_registration_at(d, buying, selling, created, delivered);
        let ghost stored = new_row(d.token, d.username@, buying, selling, created);
        r
    }

    /// Registers `username` under `token`, created at `created`, with the
    /// discarding notifier: an empty username is refused; one already present
    /// is a success that changes nothing and sends nothing; otherwise one
    /// message carrying `token` is recorded and the record is stored with
    /// that token.
    pub fn register_with_token(
        &mut self,
        notifier: &mut MockNotifier,
        username: &str,
        buying: i32,
        selling: i32,
        token: i64,
        created: i64,
    ) -> (r: Result<bool, ServiceError>)
        requires
            old(self).table.wf(),
        ensures
            final(self).table.wf(),
            final(self).domain == old(self).domain,
            username@.len() == 0 ==> r == Err::<bool, ServiceError>(ServiceError::Validation)
                && final(self).table@ == old(self).table@ && final(notifier).outbox@ == old(
                notifier,
            ).outbox@,
            username@.len() > 0 && registered(old(self).table@, username@) ==> r == Ok::<
                bool,
                ServiceError,
            >(true) && final(self).table@ == old(self).table@ && final(notifier).outbox@ == old(
                notifier,
            ).outbox@,
            username@.len() > 0 && !registered(old(self).table@, username@) ==> {
                &&& r == Ok::<bool, ServiceError>(true)
                &&& final(self).table@ == insert_row(
                    old(self).table@,
                    new_row(token, username@, buying, selling, created),
                )
                &&& final(notifier).outbox@.len() == old(notifier).outbox@.len() + 1
                &&& final(notifier).outbox@.subrange(0, old(notifier).outbox@.len() as int)
                    == old(notifier).outbox@
                &&& final(notifier).outbox@.last().to@ == username@ + ADDRESS_SUFFIX@
                &&& final(notifier).outbox@.last().from@ == MOCK_SENDER@
                &&& final(notifier).outbox@.last().subject@ == SUBJECT@
                &&& final(notifier).outbox@.last().text@ == message_text_of(
                    old(self).domain@,
                    username@,
                    token,
                )
            },
    {
        match self.prepare_registration_with_token(username, token) {
            Err(e) => Err(e),
            Ok(None) => Ok(true),
            Ok(Some(d)) => {
                let delivered = notifier.send_token(d.domain.as_str(), d.username.as_str(), d.token);
                self.complete_registration_at(&d, buying, selling, created, delivered)
            },
        }
    }

    /// `register_with_token` under a freshly drawn token, stamped with the
    /// current time. The recorded message carries the token that is stored.
    pub fn register(
        &mut self,
        notifier: &mut MockNotifier,
        username: &str,
        buying: i32,
        selling: i32,
    ) -> (r: Result<bool, ServiceError>)
        requires
            old(self).table.wf(),
        ensures
            final(self).table.wf(),
            final(self).domain == old(self).domain,
            username@.len() == 0 ==> r == Err::<bool, ServiceError>(ServiceError::Validation)
                && final(self).table@ == old(self).table@ && final(notifier).outbox@ == old(
                notifier,
            ).outbox@,
            username@.len() > 0 && registered(old(self).table@, username@) ==> r == Ok::<
                bool,
                ServiceError,
            >(true) && final(self).table@ == old(self).table@ && final(notifier).outbox@ == old(
                notifier,
            ).outbox@,
            username@.len() > 0 && !registered(old(self).table@, username@) ==> {
                &&& r == Ok::<bool, ServiceError>(true)
                &&& final(notifier).outbox@.len() == old(notifier).outbox@.len() + 1
                &&& final(notifier).outbox@.subrange(0, old(notifier).outbox@.len() as int)
                    == old(notifier).outbox@
                &&& final(notifier).outbox@.last().to@ == username@ + ADDRESS_SUFFIX@
                &&& exists|token: i64, created: i64|
                    {
                        &&& final(self).table@ == insert_row(
                            old(self).table@,
                            #[trigger] new_row(token, username@, buying, selling, created),
                        )
                        &&& final(notifier).outbox@.last().text@ == message_text_of(
                            old(self).domain@,
                            username@,
                            token,
                        )
                    }
            },
    {
        let token = issue_token();
        let created = now_micros();
        let r = self.register_with_token(notifier, username, buying, selling, token, created);
        let ghost stored = new_row(token, username@, buying, selling, created);
        r
    }
}

} // verus!
