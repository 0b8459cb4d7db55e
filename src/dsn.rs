//! The endpoint resolver: from a DSN to the ingestion URL and the public key.

use vstd::prelude::*;
use crate::error::{DsnError, SinkError};
use crate::text::{nat_text, u64_text};
use sentry::types::{Dsn as SentryDsn, ParseDsnError};

verus! {

/// A parsed DSN: `scheme://public_key@host[:port]/project_id`.
#[derive(Clone, Debug)]
pub struct Dsn {
    scheme: String,
    public_key: String,
    host: String,
    port: u16,
    default_port: u16,
    project_id: String,
}

/// What a parsed DSN holds, with text as characters.
pub struct DsnView {
    pub scheme: Seq<char>,
    pub public_key: Seq<char>,
    pub host: Seq<char>,
    /// The port, the scheme's default where the DSN gives none.
    pub port: u16,
    pub default_port: u16,
    pub project_id: Seq<char>,
}

impl View for Dsn {
    type V = DsnView;

    closed spec fn view(&self) -> DsnView {
        DsnView {
            scheme: self.scheme@,
            public_key: self.public_key@,
            host: self.host@,
            port: self.port,
            default_port: self.default_port,
            project_id: self.project_id@,
        }
    }
}

/// A name for what `sentry::Dsn` parses from a text: its parts, or the part
/// that is malformed.
pub uninterp spec fn parsed_dsn(s: Seq<char>) -> Result<DsnView, DsnError>;

/// Relies on `<sentry::Dsn as FromStr>::from_str`, which parses the text as a
/// URL and splits it into scheme, public key, host, port and project id,
/// and on the getters of `sentry::Dsn`, which hand those parts out.
#[verifier::external_body]
fn parse_sentry_dsn(s: &str) -> (r: Result<Dsn, DsnError>)
    ensures
        match r {
            Ok(d) => parsed_dsn(s@) == Ok::<DsnView, DsnError>(d@),
            Err(e) => parsed_dsn(s@) == Err::<DsnView, DsnError>(e),
        },
{
    match s.parse::<SentryDsn>() {
        Ok(d) => Ok(Dsn {
            scheme: d.scheme().to_string(),
            public_key: d.public_key().to_string(),
            host: d.host().to_string(),
            port: d.port(),
            default_port: d.scheme().default_port(),
            project_id: d.project_id().value().to_string(),
        }),
        Err(ParseDsnError::InvalidUrl) => Err(DsnError::InvalidUrl),
        Err(ParseDsnError::InvalidScheme) => Err(DsnError::InvalidScheme),
        Err(ParseDsnError::NoUsername) => Err(DsnError::NoUsername),
        Err(ParseDsnError::NoProjectId) => Err(DsnError::NoProjectId),
        Err(ParseDsnError::InvalidProjectId(_)) => Err(DsnError::InvalidProjectId),
    }
}

/// Whether a text is a non-empty run of ASCII digits.
pub open spec fn is_numeric(s: Seq<char>) -> bool {
    s.len() > 0 && forall|i: int| 0 <= i < s.len() ==> '0' <= #[trigger] s[i] <= '9'
}

/// The outcome of parsing a DSN: its parts, where they are well formed and
/// the project id is a number.
pub open spec fn dsn_outcome(s: Seq<char>) -> Result<DsnView, DsnError> {
    match parsed_dsn(s) {
        Ok(d) => if is_numeric(d.project_id) {
            Ok(d)
        } else {
            Err(DsnError::InvalidProjectId)
        },
        Err(e) => Err(e),
    }
}

/// The ingestion URL of a DSN:
/// `scheme://host[:port]/api/{project_id}/envelope/`, with the port written
/// only where it is not the scheme's default.
pub open spec fn endpoint_of(d: DsnView) -> Seq<char> {
    let port = if d.port != d.default_port {
        seq![':'] + nat_text(d.port as nat)
    } else {
        Seq::empty()
    };
    d.scheme + "://"@ + d.host + port + "/api/"@ + d.project_id + "/envelope/"@
}

fn is_numeric_text(s: &str) -> (r: bool)
    ensures
        r == is_numeric(s@),
{
    let n = s.unicode_len();
    if n == 0 {
        return false;
    }
    let mut i: usize = 0;
    while i < n
        invariant
            n == s@.len(),
            i <= n,
            forall|j: int| 0 <= j < i ==> '0' <= #[trigger] s@[j] <= '9',
        decreases n - i,
    {
        let c = s.get_char(i);
        if !('0' <= c && c <= '9') {
            return false;
        }
        i = i + 1;
    }
    true
}

impl Dsn {
    /// Parses a DSN; a project id that is not a number is refused.
    pub fn parse(s: &str) -> (r: Result<Dsn, DsnError>)
        ensures
            match r {
                Ok(d) => dsn_outcome(s@) == Ok::<DsnView, DsnError>(d@),
                Err(e) => dsn_outcome(s@) == Err::<DsnView, DsnError>(e),
            },
    {
        match parse_sentry_dsn(s) {
            Ok(d) => {
                if is_numeric_text(d.project_id.as_str()) {
                    Ok(d)
                } else {
                    Err(DsnError::InvalidProjectId)
                }
            },
            Err(e) => Err(e),
        }
    }

    pub fn scheme(&self) -> (r: &str)
        ensures
            r@ == self@.scheme,
    {
        self.scheme.as_str()
    }

    pub fn public_key(&self) -> (r: &str)
        ensures
            r@ == self@.public_key,
    {
        self.public_key.as_str()
    }

    pub fn host(&self) -> (r: &str)
        ensures
            r@ == self@.host,
    {
        self.host.as_str()
    }

    /// The port, the scheme's default where the DSN gives none.
    pub fn port(&self) -> (r: u16)
        ensures
            r == self@.port,
    {
        self.port
    }

    pub fn project_id(&self) -> (r: &str)
        ensures
            r@ == self@.project_id,
    {
        self.project_id.as_str()
    }

    /// The ingestion URL for envelopes.
    pub fn envelope_url(&self) -> (r: String)
        ensures
            r@ == endpoint_of(self@),
    {
        proof {
            reveal_strlit("://");
            reveal_strlit("/api/");
            reveal_strlit("/envelope/");
            reveal_strlit(":");
        }
        let mut url = self.scheme.clone();
        url.append("://");
        url.append(self.host.as_str());
        if self.port != self.default_port {
            url.append(":");
            let digits = u64_text(self.port as u64);
            url.append(digits.as_str());
        }
        url.append("/api/");
        url.append(self.project_id.as_str());
        url.append("/envelope/");
        proof {
            let d = self@;
            let port = if d.port != d.default_port {
                seq![':'] + nat_text(d.port as nat)
            } else {
                Seq::<char>::empty()
            };
            assert(url@ =~= d.scheme + "://"@ + d.host + port + "/api/"@ + d.project_id
                + "/envelope/"@);
        }
        url
    }
}

/// Resolves a DSN into the ingestion URL for envelopes and the public key.
pub fn parse_dsn_to_endpoint(dsn_str: &str) -> (r: Result<(String, String), SinkError>)
    ensures
        match dsn_outcome(dsn_str@) {
            Ok(d) => r matches Ok(p) && p.0@ == endpoint_of(d) && p.1@ == d.public_key,
            Err(e) => r == Err::<(String, String), SinkError>(SinkError::InvalidDsn(e)),
        },
{
    match Dsn::parse(dsn_str) {
        Ok(d) => {
            let endpoint = d.envelope_url();
            let public_key = String::from_str(d.public_key());
            Ok((endpoint, public_key))
        },
        Err(e) => Err(SinkError::InvalidDsn(e)),
    }
}

/// The outcome of a healthcheck: success for a well-formed DSN, else the
/// part that is malformed.
pub open spec fn healthcheck_result(dsn: Seq<char>) -> Result<(), SinkError> {
    match dsn_outcome(dsn) {
        Ok(_) => Ok(()),
        Err(e) => Err(SinkError::InvalidDsn(e)),
    }
}

/// Checks that a DSN is well formed, without sending anything.
pub fn healthcheck(dsn_str: &str) -> (r: Result<(), SinkError>)
    ensures
        r == healthcheck_result(dsn_str@),
{
    match Dsn::parse(dsn_str) {
        Ok(_) => Ok(()),
        Err(e) => Err(SinkError::InvalidDsn(e)),
    }
}

} // verus!
