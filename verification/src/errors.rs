use vstd::prelude::*;
use vstd::string::StringExecFns;

verus! {

/// The closed set of error kinds an API operation can produce.
#[derive(Debug)]
pub enum FacebookError {
    /// A non-success HTTP status, for the endpoints that use this
    /// convention, or a transport-level failure. The detail holds the
    /// status and body, or the transport failure description.
    HttpError(String),
    /// An HTTP 401, surfaced by the token-refresh path.
    Unauthorized,
    /// A malformed response body, a response-reading failure, and, for two
    /// endpoints, any client- or server-error status.
    Unexpected(String),
}

pub enum FacebookErrorV {
    HttpError(Seq<char>),
    Unauthorized,
    Unexpected(Seq<char>),
}

impl View for FacebookError {
    type V = FacebookErrorV;

    open spec fn view(&self) -> FacebookErrorV {
        match self {
            FacebookError::HttpError(d) => FacebookErrorV::HttpError(d@),
            FacebookError::Unauthorized => FacebookErrorV::Unauthorized,
            FacebookError::Unexpected(d) => FacebookErrorV::Unexpected(d@),
        }
    }
}

/// The wording of each error kind.
pub open spec fn spec_describe_error(e: FacebookErrorV) -> Seq<char> {
    match e {
        FacebookErrorV::HttpError(d) => "HTTP request failed with status: "@ + d,
        FacebookErrorV::Unauthorized => "Unauthorized access"@,
        FacebookErrorV::Unexpected(d) => "Unexpected error: "@ + d,
    }
}

impl FacebookError {
    /// A human-readable description of the error.
    pub fn describe(&self) -> (r: String)
        ensures
            r@ == spec_describe_error(self@),
    {
        match self {
            FacebookError::HttpError(d) => {
                let mut m = String::new();
                m.append("HTTP request failed with status: ");
                m.append(d.as_str());
                proof {
                    assert(m@ =~= spec_describe_error(self@));
                }
                m
            },
            FacebookError::Unauthorized => {
                let mut m = String::new();
                m.append("Unauthorized access");
                proof {
                    assert(m@ =~= spec_describe_error(self@));
                }
                m
            },
            FacebookError::Unexpected(d) => {
                let mut m = String::new();
                m.append("Unexpected error: ");
                m.append(d.as_str());
                proof {
                    assert(m@ =~= spec_describe_error(self@));
                }
                m
            },
        }
    }
}

} // verus!
