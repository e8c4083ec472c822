//! The session record: the credentials the remote service clients are
//! built from. Reloading credentials is a pure function from values to a
//! fresh session; the front end rebuilds its clients from the result.

use vstd::prelude::*;

verus! {

/// The credentials and region a session runs under.
#[derive(Debug)]
pub struct Session {
    pub access_key: String,
    pub secret_key: String,
    pub region: Option<String>,
}

impl Session {
    /// A fresh session holding exactly the given credentials.
    pub fn reload(access_key: String, secret_key: String, region: Option<String>) -> (s: Session)
        ensures
            s.access_key == access_key,
            s.secret_key == secret_key,
            s.region == region,
    {
        Session { access_key, secret_key, region }
    }

    /// The emptied session a run leaves behind on exit, holding no
    /// usable credentials.
    pub fn cleared() -> (s: Session)
        ensures
            s.access_key@.len() == 0,
            s.secret_key@.len() == 0,
            s.region is None,
    {
        Session { access_key: String::new(), secret_key: String::new(), region: None }
    }

    /// Whether both credential fields are present; nothing should be
    /// sent to a remote service from an unconfigured session.
    pub fn is_configured(&self) -> (r: bool)
        ensures
            r == (self.access_key@.len() > 0 && self.secret_key@.len() > 0),
    {
        !self.access_key.as_str().is_empty() && !self.secret_key.as_str().is_empty()
    }
}

} // verus!
