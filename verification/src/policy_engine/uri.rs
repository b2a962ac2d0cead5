//! The request address as expressions see it.
use vstd::prelude::*;

verus! {

/// The scheme of an address.
#[derive(Debug, Clone, Copy, PartialEq, Eq, Structural)]
pub enum Scheme {
    Http,
    Https,
}

/// Why an address cannot be shown to expressions.
#[derive(Debug, Clone, Copy, PartialEq, Eq, Structural)]
pub enum RhaiUriError {
    MissingScheme,
    UnsupportedScheme,
}

impl Scheme {
    /// The scheme an address's scheme name stands for; only `http` and
    /// `https` are supported.
    pub fn from_name(name: &str) -> (r: Result<Scheme, RhaiUriError>)
        ensures
            name@ == "http"@ ==> r == Ok::<Scheme, RhaiUriError>(Scheme::Http),
            name@ == "https"@ ==> r == Ok::<Scheme, RhaiUriError>(Scheme::Https),
            name@ != "http"@ && name@ != "https"@ ==> r == Err::<Scheme, RhaiUriError>(
                RhaiUriError::UnsupportedScheme,
            ),
    {
        proof {
            reveal_strlit("http");
            reveal_strlit("https");
            assert("http"@.len() != "https"@.len());
        }
        if crate::routes::str_eq(name, "http") {
            Ok(Scheme::Http)
        } else if crate::routes::str_eq(name, "https") {
            Ok(Scheme::Https)
        } else {
            Err(RhaiUriError::UnsupportedScheme)
        }
    }

    /// Whether the scheme is `http`.
    pub fn is_http(&self) -> (r: bool)
        ensures
            r == (*self == Scheme::Http),
    {
        *self == Scheme::Http
    }

    /// Whether the scheme is `https`.
    pub fn is_https(&self) -> (r: bool)
        ensures
            r == (*self == Scheme::Https),
    {
        *self == Scheme::Https
    }
}

/// An address: its full text, scheme, host, port (when given), path and
/// query (when given).
#[derive(Debug, Clone)]
pub struct RhaiUri {
    pub uri: String,
    pub scheme: Scheme,
    pub host: String,
    pub port: Option<u16>,
    pub path: String,
    pub query: Option<String>,
}

/// The port of an address: the one given, or the scheme's default.
pub open spec fn spec_port(port: Option<u16>, scheme: Scheme) -> u16 {
    match port {
        Some(p) => p,
        None => match scheme {
            Scheme::Https => 443,
            Scheme::Http => 80,
        },
    }
}

impl RhaiUri {
    /// The address of a request from its parts.
    pub fn create(
        scheme: Scheme,
        host: String,
        uri: String,
        port: Option<u16>,
        path: String,
        query: Option<String>,
    ) -> (r: Result<RhaiUri, RhaiUriError>)
        ensures
            r matches Ok(u) && u.scheme == scheme && u.host == host && u.uri == uri && u.port
                == port && u.path == path && u.query == query,
    {
        Ok(RhaiUri { uri, scheme, host, port, path, query })
    }

    /// The full text of the address.
    pub fn to_string(&self) -> (r: String)
        ensures
            r@ == self.uri@,
    {
        self.uri.clone()
    }

    /// The scheme.
    pub fn get_scheme(&self) -> (r: Scheme)
        ensures
            r == self.scheme,
    {
        self.scheme
    }

    /// The host.
    pub fn get_host(&self) -> (r: String)
        ensures
            r@ == self.host@,
    {
        self.host.clone()
    }

    /// The port, or the scheme's default one (443 for https, 80 for http).
    pub fn get_port(&self) -> (r: u16)
        ensures
            r == spec_port(self.port, self.scheme),
    {
        match self.port {
            Some(p) => p,
            None => match self.scheme {
                Scheme::Https => 443,
                Scheme::Http => 80,
            },
        }
    }

    /// The path.
    pub fn get_path(&self) -> (r: String)
        ensures
            r@ == self.path@,
    {
        self.path.clone()
    }

    /// The query, if any.
    pub fn get_query(&self) -> (r: Option<String>)
        ensures
            crate::opt_view(r) == crate::opt_view(self.query),
    {
        match &self.query {
            Some(q) => Some(q.clone()),
            None => None,
        }
    }
}

} // verus!
