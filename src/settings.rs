use vstd::prelude::*;

verus! {

pub const DEFAULT_DB: &'static str = "data.db";

pub const DEFAULT_PORT: &'static str = "8080";

pub const DEFAULT_ADDR: &'static str = "127.0.0.1";

pub const DEFAULT_DOMAIN: &'static str = "localhost";

/// How confirmation messages leave the service.
pub enum Emailer {
    /// Nothing is sent; messages are only recorded.
    Mock,
    /// Messages go out through the account's SMTP relay.
    Gmail { gmail_username: String, gmail_password: String },
}

/// The service's configuration, fixed at startup.
pub struct Properties {
    /// `address:port` to listen on.
    pub bind_to: String,
    /// Path of the database file.
    pub db: String,
    /// The domain that confirmation links point to.
    pub domain: String,
    pub emailer: Emailer,
}

/// `v`, or `d` where it is absent.
pub open spec fn or_default(v: Option<String>, d: Seq<char>) -> Seq<char> {
    match v {
        Some(s) => s@,
        None => d,
    }
}

fn value_or(v: Option<String>, d: &str) -> (r: String)
    ensures
        r@ == or_default(v, d@),
{
    match v {
        Some(s) => s,
        None => String::from_str(d),
    }
}

impl Emailer {
    /// The address that messages are sent from.
    pub fn sender(&self) -> (r: String)
        ensures
            self is Mock ==> r@ == crate::notify::MOCK_SENDER@,
            self matches Emailer::Gmail { gmail_username, .. } ==> r@ == gmail_username@,
    {
        match self {
            Emailer::Mock => String::from_str(crate::notify::MOCK_SENDER),
            Emailer::Gmail { gmail_username, .. } => gmail_username.clone(),
        }
    }
}

impl Properties {
    /// The configuration from the options given at startup, each absent one
    /// replaced by its default. Mail goes out for real only when both a
    /// username and a password are given.
    pub fn from_options(
        db: Option<String>,
        port: Option<String>,
        addr: Option<String>,
        domain: Option<String>,
        username: Option<String>,
        password: Option<String>,
    ) -> (r: Properties)
        ensures
            r.db@ == or_default(db, DEFAULT_DB@),
            r.domain@ == or_default(domain, DEFAULT_DOMAIN@),
            r.bind_to@ == or_default(addr, DEFAULT_ADDR@) + ":"@ + or_default(port, DEFAULT_PORT@),
            match (username, password) {
                (Some(u), Some(p)) => r.emailer matches Emailer::Gmail {
                    gmail_username,
                    gmail_password,
                } && gmail_username@ == u@ && gmail_password@ == p@,
                _ => r.emailer is Mock,
            },
    {
        let db = value_or(db, DEFAULT_DB);
        let port = value_or(port, DEFAULT_PORT);
        let addr = value_or(addr, DEFAULT_ADDR);
        let domain = value_or(domain, DEFAULT_DOMAIN);
        let mut bind_to = addr;
        bind_to.append(":");
        bind_to.append(port.as_str());
        let emailer = match (username, password) {
            (Some(u), Some(p)) => Emailer::Gmail { gmail_username: u, gmail_password: p },
            _ => Emailer::Mock,
        };
        Properties { bind_to, db, domain, emailer }
    }
}

} // verus!
