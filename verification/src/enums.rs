use vstd::prelude::*;

verus! {

/// The protocol version a task asks for.
#[derive(Debug, Clone, Copy, PartialEq, Eq, Structural)]
pub enum HttpVersion {
    /// HTTP/3: accepted as a setting, carried out as HTTP/1.1.
    Http3,
    /// HTTP/2, spoken from the first byte without an upgrade.
    Http2,
    /// HTTP/1.1, the default.
    Http11,
}

impl HttpVersion {
    /// The version whose code path a transfer really takes.
    pub open spec fn spec_effective(self) -> HttpVersion {
        match self {
            HttpVersion::Http2 => HttpVersion::Http2,
            _ => HttpVersion::Http11,
        }
    }

    /// Whether the connection must speak HTTP/2 with prior knowledge.
    pub open spec fn spec_forces_http2(self) -> bool {
        self == HttpVersion::Http2
    }

    /// The version whose code path a transfer really takes: HTTP/3 falls
    /// back to HTTP/1.1, the others stand for themselves.
    #[verifier::when_used_as_spec(spec_effective)]
    pub fn effective(self) -> (r: HttpVersion)
        ensures
            r == self.spec_effective(),
            r != HttpVersion::Http3,
    {
        match self {
            HttpVersion::Http2 => HttpVersion::Http2,
            _ => HttpVersion::Http11,
        }
    }

    /// Whether the connection must speak HTTP/2 with prior knowledge.
    #[verifier::when_used_as_spec(spec_forces_http2)]
    pub fn forces_http2(self) -> (r: bool)
        ensures
            r == (self == HttpVersion::Http2),
    {
        match self {
            HttpVersion::Http2 => true,
            _ => false,
        }
    }
}

} // verus!
