use vstd::prelude::*;
use crate::errors::ResolutionError;

verus! {

/// What `url::Url::parse` makes of a string: `None` when the string is not a
/// well-formed absolute URL; otherwise the parsed URL's serialization and its
/// slash-separated path segments (empty when the URL cannot be a base). The
/// result depends on the input string alone.
pub uninterp spec fn url_parts_of(s: Seq<char>) -> Option<(Seq<char>, Seq<Seq<char>>)>;

/// Relies on `url::Url::parse`, with `Url::as_str` and `Url::path_segments`
/// reading the result out: whether a string parses, the parsed serialization,
/// and the path segments are functions of the string alone.
#[verifier::external_body]
fn parse_url(s: &str) -> (r: Option<(String, Vec<String>)>)
    ensures
        (match r {
            Some(p) => Some((p.0@, p.1.deep_view())),
            None => None,
        }) == url_parts_of(s@),
{
    match url::Url::parse(s) {
        Ok(u) => {
            let segments: Vec<String> = match u.path_segments() {
                Some(it) => it.map(|seg| seg.to_string()).collect(),
                None => Vec::new(),
            };
            Some((u.as_str().to_string(), segments))
        }
        Err(_) => None,
    }
}

/// A remote source location. Identity for cache-keying purposes is the URL
/// serialization: two handles with equal URLs may share one object database.
/// The path segments are held as plain values so that the naming logic over
/// them is checked; they come from the same parse as the serialization.
#[derive(Debug, Clone)]
pub struct GitRemote {
    /// The URL's full serialization.
    pub url: String,
    /// The slash-separated segments of the URL's path; empty when the URL
    /// cannot serve as a base.
    pub segments: Vec<String>,
}

impl GitRemote {
    /// A remote whose ephemeral resources can be named: its URL path has at
    /// least one segment to borrow a name from.
    pub open spec fn nameable(self) -> bool {
        self.segments@.len() > 0
    }

    /// Builds a handle directly from its parts.
    pub fn new(url: String, segments: Vec<String>) -> (r: Self)
        ensures
            r.url == url,
            r.segments == segments,
    {
        GitRemote { url, segments }
    }

    /// Parses a remote location string. Returns the handle exactly when the
    /// string is a well-formed absolute URL, and `MalformedUrl` otherwise.
    pub fn parse(text: &str) -> (r: Result<Self, ResolutionError>)
        ensures
            r is Ok <==> url_parts_of(text@) is Some,
            r matches Ok(remote) ==> {
                &&& Some((remote.url@, remote.segments.deep_view())) == url_parts_of(text@)
            },
            r matches Err(e) ==> e matches ResolutionError::MalformedUrl(t) && t@ == text@,
    {
        match parse_url(text) {
            Some(p) => Ok(GitRemote { url: p.0, segments: p.1 }),
            None => Err(ResolutionError::MalformedUrl(text.to_owned())),
        }
    }

    /// The last path segment of the remote's URL: the name ephemeral
    /// directories for this remote are given, for debuggability.
    pub fn name(&self) -> (r: &String)
        requires
            self.nameable(),
        ensures
            r == self.segments@.last(),
    {
        &self.segments[self.segments.len() - 1]
    }
}

} // verus!
