//! The cross-origin policy: one trusted origin receives a fixed permissive
//! header set; every other origin receives none.

use vstd::prelude::*;
use vstd::string::StringExecFns;

verus! {

/// The one origin the service trusts.
pub open spec fn trusted_origin() -> Seq<char> {
    "https://projectfluent.org"@
}

/// The cross-origin response headers granted to a trusted request.
#[derive(Debug)]
pub struct CorsHeaders {
    pub allow_origin: String,
    pub allow_methods: String,
    pub allow_headers: String,
    pub allow_credentials: bool,
    pub max_age_seconds: u32,
}

#[verifier::ext_equal]
pub struct CorsHeadersAbs {
    pub allow_origin: Seq<char>,
    pub allow_methods: Seq<char>,
    pub allow_headers: Seq<char>,
    pub allow_credentials: bool,
    pub max_age_seconds: u32,
}

impl View for CorsHeaders {
    type V = CorsHeadersAbs;

    open spec fn view(&self) -> CorsHeadersAbs {
        CorsHeadersAbs {
            allow_origin: self.allow_origin@,
            allow_methods: self.allow_methods@,
            allow_headers: self.allow_headers@,
            allow_credentials: self.allow_credentials,
            max_age_seconds: self.max_age_seconds,
        }
    }
}

impl DeepView for CorsHeaders {
    type V = CorsHeadersAbs;

    open spec fn deep_view(&self) -> CorsHeadersAbs {
        self.view()
    }
}

/// The permissive header set: the trusted origin itself, the methods GET
/// and POST, the Content-Type header, no credentialed access, and a
/// preflight cache lifetime of one hour.
pub open spec fn permissive_headers() -> CorsHeadersAbs {
    CorsHeadersAbs {
        allow_origin: trusted_origin(),
        allow_methods: "GET, POST"@,
        allow_headers: "Content-Type"@,
        allow_credentials: false,
        max_age_seconds: 3600,
    }
}

/// The policy: exactly the trusted origin is granted the permissive
/// headers; any other declared origin, or none, is granted nothing.
pub open spec fn spec_cors(origin: Option<Seq<char>>) -> Option<CorsHeadersAbs> {
    match origin {
        Some(o) => if o == trusted_origin() {
            Some(permissive_headers())
        } else {
            None
        },
        None => None,
    }
}

/// Decides the cross-origin headers for a request's declared origin.
pub fn cors_headers_for(origin: Option<&str>) -> (out: Option<CorsHeaders>)
    ensures
        out.deep_view() == spec_cors(origin.deep_view()),
{
    match origin {
        None => None,
        Some(o) => {
            let trusted = String::from_str("https://projectfluent.org");
            let given = o.to_owned();
            if given == trusted {
                let h = CorsHeaders {
                    allow_origin: trusted,
                    allow_methods: String::from_str("GET, POST"),
                    allow_headers: String::from_str("Content-Type"),
                    allow_credentials: false,
                    max_age_seconds: 3600,
                };
                proof {
                    assert(h@ =~= permissive_headers());
                }
                Some(h)
            } else {
                None
            }
        },
    }
}

/// A request from the trusted origin receives exactly the permissive
/// header set — its own origin echoed, methods GET and POST, the
/// Content-Type header, no credentials, a one-hour preflight lifetime —
/// and a request from any other origin, or with none, receives no
/// cross-origin headers at all.
pub proof fn lemma_cors_policy(origin: Option<Seq<char>>)
    ensures
        origin == Some(trusted_origin()) ==> spec_cors(origin) == Some(permissive_headers()),
        origin != Some(trusted_origin()) ==> spec_cors(origin) is None,
        permissive_headers().allow_origin == trusted_origin(),
        permissive_headers().allow_methods == "GET, POST"@,
        permissive_headers().allow_headers == "Content-Type"@,
        !permissive_headers().allow_credentials,
        permissive_headers().max_age_seconds == 3600,
{
}

} // verus!
