//! The one-line startup summary of resolved settings.

use vstd::prelude::*;
use crate::settings::{Settings, opt_text};
use crate::text::{decimal, push_decimal};

verus! {

/// The scheme that `url::Url::parse` finds in a string; `None` when it rejects it.
pub uninterp spec fn url_scheme_of(s: Seq<char>) -> Option<Seq<char>>;

/// Relies on `url::Url::parse` and `Url::scheme`: the scheme of the parsed URL,
/// or `None` when parsing fails.
#[verifier::external_body]
fn url_scheme(s: &str) -> (r: Option<String>)
    ensures
        opt_text(r) == url_scheme_of(s@),
{
    url::Url::parse(s).ok().map(|u| u.scheme().to_owned())
}

/// Placeholder shown when the database URL does not parse.
pub const INVALID_DB: &'static str = "<invalid db>";

/// The banner for a host, a port and the scheme of the database URL, if any.
pub open spec fn banner_text(host: Seq<char>, port: u16, scheme: Option<Seq<char>>) -> Seq<char> {
    let db = match scheme {
        Some(s) => s,
        None => "<invalid db>"@,
    };
    "http://"@ + host + ":"@ + decimal(port as nat) + " ("@ + db + ")"@
}

/// Formats the banner from a host, a port and the database scheme found, if any.
pub fn banner_with_scheme(host: &str, port: u16, scheme: &Option<String>) -> (r: String)
    ensures
        r@ == banner_text(host@, port, opt_text(*scheme)),
{
    let mut out = String::from_str("http://");
    out.append(host);
    out.append(":");
    push_decimal(&mut out, port);
    out.append(" (");
    match scheme {
        Some(s) => out.append(s.as_str()),
        None => out.append(INVALID_DB),
    }
    out.append(")");
    out
}

impl Settings {
    /// A short summary of the host, port and database scheme for display at startup.
    pub fn banner(&self) -> (r: String)
        ensures
            r@ == banner_text(self.host@, self.port, url_scheme_of(self.database_url@)),
    {
        let scheme = url_scheme(self.database_url.as_str());
        banner_with_scheme(self.host.as_str(), self.port, &scheme)
    }
}

} // verus!
