use vstd::prelude::*;

use crate::error::{headed, NgetError};
use crate::text::chars_of;

verus! {

/// The error of the `url` crate's parser.
#[verifier::external_type_specification]
#[verifier::external_body]
pub struct ExParseError(url::ParseError);

/// The parts of a parsed URL that a download reads.
#[derive(Debug, Clone)]
pub struct ParsedUrl {
    /// The scheme, in lower case, without the colon.
    pub scheme: String,
    /// The host as it is written in the normalised URL, where there is one.
    pub host: Option<String>,
    /// The path, percent-encoded as in the normalised URL.
    pub path: String,
}

/// The parts of a parsed URL, as sequences of characters.
pub struct UrlParts {
    pub scheme: Seq<char>,
    pub host: Option<Seq<char>>,
    pub path: Seq<char>,
}

impl View for ParsedUrl {
    type V = UrlParts;

    open spec fn view(&self) -> UrlParts {
        UrlParts {
            scheme: self.scheme@,
            host: match self.host {
                Some(h) => Some(h@),
                None => None,
            },
            path: self.path@,
        }
    }
}

/// What the `url` crate's parser makes of a text: the scheme, host and path
/// of the URL it reads there, or nothing where it refuses the text.
pub uninterp spec fn url_parts(input: Seq<char>) -> Option<UrlParts>;

/// Calls `url::Url::parse` and reads the scheme, the host and the path off
/// the URL with `Url::scheme`, `Url::host_str` and `Url::path`. Trusted: the
/// outcome is what `url_parts` names for this text.
#[verifier::external_body]
fn parse_parts(input: &str) -> (r: Result<ParsedUrl, url::ParseError>)
    ensures
        match r {
            Ok(u) => url_parts(input@) == Some(u@),
            Err(_) => url_parts(input@) is None,
        },
{
    let u = url::Url::parse(input)?;
    Ok(
        ParsedUrl {
            scheme: u.scheme().to_owned(),
            host: u.host_str().map(str::to_owned),
            path: u.path().to_owned(),
        },
    )
}

/// The message of a `url::ParseError`, as its `Display` writes it. Trusted;
/// nothing is claimed of the text.
#[verifier::external_body]
fn parse_error_text(e: &url::ParseError) -> (text: String) {
    e.to_string()
}

/// Parses a URL. A text that the parser refuses gives `InvalidUrl`, with
/// the parser's reason after the words "Failed to parse URL: ".
pub fn parse_url(url: &str) -> (r: Result<ParsedUrl, NgetError>)
    ensures
        match r {
            Ok(u) => url_parts(url@) == Some(u@),
            Err(e) => {
                &&& url_parts(url@) is None
                &&& e matches NgetError::InvalidUrl(m) && "Failed to parse URL: "@.is_prefix_of(m@)
            },
        },
{
    match parse_parts(url) {
        Ok(u) => Ok(u),
        Err(e) => {
            let reason = parse_error_text(&e);
            Err(NgetError::InvalidUrl(headed("Failed to parse URL: ", reason.as_str())))
        },
    }
}

/// One past the last character of `path` that is not a slash; 0 where
/// every character is one.
pub open spec fn segment_end(path: Seq<char>) -> int
    decreases path.len(),
{
    if path.len() == 0 {
        0
    } else if path.last() != '/' {
        path.len() as int
    } else {
        segment_end(path.drop_last())
    }
}

/// The place behind the last slash before `end`; 0 where there is none.
pub open spec fn segment_start(path: Seq<char>, end: int) -> int
    decreases end,
{
    if end <= 0 {
        0
    } else if path[end - 1] == '/' {
        end
    } else {
        segment_start(path, end - 1)
    }
}

/// The last stretch of `path` between slashes that holds a character;
/// empty where the path holds none but slashes.
pub open spec fn last_segment(path: Seq<char>) -> Seq<char> {
    let end = segment_end(path);
    path.subrange(segment_start(path, end), end)
}

/// The name under which the resource at `path` is saved: its last segment
/// that is not empty; "index.html" where the path is empty or made of
/// slashes; "index" where the path does not begin with a slash and so has
/// no segments.
pub open spec fn file_name_of(path: Seq<char>) -> Seq<char> {
    if last_segment(path).len() == 0 {
        "index.html"@
    } else if path[0] != '/' {
        "index"@
    } else {
        last_segment(path)
    }
}

/// What `last_segment` picks: a stretch of the path without a slash, with
/// nothing but slashes behind it and a slash or the path's beginning before
/// it, and empty only where the path holds no other character than slashes.
pub proof fn lemma_last_segment(path: Seq<char>)
    ensures
        ({
            let end = segment_end(path);
            let start = segment_start(path, end);
            &&& 0 <= start <= end <= path.len()
            &&& forall|i: int| end <= i < path.len() ==> path[i] == '/'
            &&& forall|i: int| start <= i < end ==> path[i] != '/'
            &&& start == 0 || path[start - 1] == '/'
            &&& (start == end <==> forall|i: int| 0 <= i < path.len() ==> path[i] == '/')
        }),
{
    lemma_segment_end(path);
    lemma_segment_start(path, segment_end(path));
}

/// What `segment_end` picks.
pub proof fn lemma_segment_end(path: Seq<char>)
    ensures
        0 <= segment_end(path) <= path.len(),
        forall|i: int| segment_end(path) <= i < path.len() ==> path[i] == '/',
        segment_end(path) > 0 ==> path[segment_end(path) - 1] != '/',
    decreases path.len(),
{
    if path.len() > 0 && path.last() == '/' {
        let head = path.drop_last();
        lemma_segment_end(head);
        assert forall|i: int| segment_end(path) <= i < path.len() implies path[i] == '/' by {
            if i < head.len() {
                assert(head[i] == path[i]);
            }
        }
        if segment_end(path) > 0 {
            assert(head[segment_end(path) - 1] == path[segment_end(path) - 1]);
        }
    }
}

/// What `segment_start` picks.
pub proof fn lemma_segment_start(path: Seq<char>, end: int)
    requires
        0 <= end <= path.len(),
    ensures
        0 <= segment_start(path, end) <= end,
        forall|i: int| segment_start(path, end) <= i < end ==> path[i] != '/',
        segment_start(path, end) == 0 || path[segment_start(path, end) - 1] == '/',
    decreases end,
{
    if end > 0 && path[end - 1] != '/' {
        lemma_segment_start(path, end - 1);
    }
}

/// The name under which the resource of a URL is saved when the task names
/// none.
pub fn get_file_name(url: &ParsedUrl) -> (name: String)
    ensures
        name@ == file_name_of(url.path@),
{
    let path = url.path.as_str();
    let chars = chars_of(path);
    let mut end: usize = chars.len();
    assert(chars@.take(end as int) =~= chars@);
    while end > 0 && chars[end - 1] == '/'
        invariant
            end <= chars@.len(),
            segment_end(chars@) == segment_end(chars@.take(end as int)),
        decreases end,
    {
        assert(chars@.take(end as int).drop_last() =~= chars@.take(end - 1));
        end -= 1;
    }
    proof {
        if end > 0 {
            assert(chars@.take(end as int).last() == chars@[end - 1]);
        }
        assert(segment_end(chars@) == end);
    }
    let mut start: usize = end;
    while start > 0 && chars[start - 1] != '/'
        invariant
            start <= end <= chars@.len(),
            segment_start(chars@, end as int) == segment_start(chars@, start as int),
        decreases start,
    {
        start -= 1;
    }
    if start == end {
        assert(last_segment(chars@).len() == 0);
        "index.html".to_owned()
    } else if chars[0] != '/' {
        "index".to_owned()
    } else {
        path.substring_char(start, end).to_owned()
    }
}

/// The name of the destination file: the name the task gives, taken as it
/// is, and else the name that the URL's path gives.
pub fn destination_name(output_file_name: Option<&str>, url: &ParsedUrl) -> (name: String)
    ensures
        name@ == match output_file_name {
            Some(given) => given@,
            None => file_name_of(url.path@),
        },
{
    match output_file_name {
        Some(given) => given.to_owned(),
        None => get_file_name(url),
    }
}

/// The host to look up before the request: the URL's host, or the empty
/// text where it has none.
pub fn lookup_host(url: &ParsedUrl) -> (host: String)
    ensures
        host@ == match url@.host {
            Some(h) => h,
            None => Seq::<char>::empty(),
        },
{
    match &url.host {
        Some(h) => h.clone(),
        None => String::new(),
    }
}

} // verus!
