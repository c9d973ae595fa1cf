//! The boundary to the `url` crate: URLs taken apart, and query parameters
//! appended to them.
use vstd::prelude::*;

verus! {

/// The parts of a parsed URL that the login and model rules read.
pub struct UrlParts {
    pub scheme: String,
    pub host: Option<String>,
    /// The explicit port, or the one that the scheme implies.
    pub port: Option<u16>,
    pub path: String,
    /// The decoded query parameters, in order.
    pub query: Vec<(String, String)>,
}

/// The parts of a parsed URL as mathematical values.
#[verifier::ext_equal]
pub struct UrlView {
    pub scheme: Seq<char>,
    pub host: Option<Seq<char>>,
    pub port: Option<u16>,
    pub path: Seq<char>,
    pub query: Seq<(Seq<char>, Seq<char>)>,
}

/// Name and value pairs as mathematical values.
pub open spec fn pairs_view(pairs: Seq<(String, String)>) -> Seq<(Seq<char>, Seq<char>)> {
    pairs.map_values(|pair: (String, String)| (pair.0@, pair.1@))
}

impl View for UrlParts {
    type V = UrlView;

    open spec fn view(&self) -> UrlView {
        UrlView {
            scheme: self.scheme@,
            host: match self.host {
                Some(host) => Some(host@),
                None => None,
            },
            port: self.port,
            path: self.path@,
            query: pairs_view(self.query@),
        }
    }
}

/// The parts of the URL that a text parses to; `None` where it is no URL.
pub uninterp spec fn url_parts(text: Seq<char>) -> Option<UrlView>;

/// The serialization of a URL with query parameters appended; `None` where the
/// text is no URL.
pub uninterp spec fn url_with_query(
    text: Seq<char>,
    pairs: Seq<(Seq<char>, Seq<char>)>,
) -> Option<Seq<char>>;

/// More characters than any of the texts here may have: the offsets within a
/// URL are 32-bit numbers, and encoding lengthens what it is given.
pub const MAX_URL_CHARS: usize = 0x100_0000;

/// The most characters of a text that is parsed: the characters of an authority
/// are counted in a signed 32-bit number.
pub const MAX_PARSED_CHARS: usize = 0x7fff_ffff;

/// `url::Url::parse`, and the accessors `scheme`, `host_str`,
/// `port_or_known_default`, `path` and `query_pairs` on its result: the parts
/// are those that [`url_parts`] names, a function of the text alone. An empty
/// text is no URL. Longer texts are left out: counting them may overflow.
#[verifier::external_body]
pub(crate) fn parse_url(text: &str) -> (parsed: Option<UrlParts>)
    requires
        text@.len() <= MAX_PARSED_CHARS,
    ensures
        parsed is Some <==> url_parts(text@) is Some,
        text@.len() == 0 ==> parsed is None,
        parsed matches Some(parts) ==> url_parts(text@) == Some(parts@),
{
    let url = url::Url::parse(text).ok()?;
    Some(
        UrlParts {
            scheme: url.scheme().to_owned(),
            host: url.host_str().map(|host| host.to_owned()),
            port: url.port_or_known_default(),
            path: url.path().to_owned(),
            query: url.query_pairs().into_owned().collect(),
        },
    )
}

/// `url::Url::parse_with_params`: the serialized URL is the one that
/// [`url_with_query`] names. It fails exactly where the text is no URL; else
/// scheme and port stay, and the parameters, read back, follow those that were
/// there. Host and path stay too, but for `file` URLs: one whose path came to start
/// with a drive letter loses its host when it is read back. Longer texts are left
/// out: they may overflow the 32-bit offsets that a URL keeps.
#[verifier::external_body]
pub(crate) fn append_query(text: &str, pairs: &Vec<(String, String)>) -> (extended: Option<String>)
    requires
        text@.len() <= MAX_URL_CHARS,
        pairs@.len() <= 4,
        forall|i: int|
            0 <= i < pairs@.len() ==> #[trigger] pairs@[i].0@.len() <= MAX_URL_CHARS
                && pairs@[i].1@.len() <= MAX_URL_CHARS,
    ensures
        extended is Some <==> url_parts(text@) is Some,
        extended is Some <==> url_with_query(text@, pairs_view(pairs@)) is Some,
        extended matches Some(url) ==> {
            &&& url_with_query(text@, pairs_view(pairs@)) == Some(url@)
            &&& url_parts(url@) is Some
            &&& url_parts(url@)->0.scheme == url_parts(text@)->0.scheme
            &&& url_parts(url@)->0.port == url_parts(text@)->0.port
            &&& url_parts(text@)->0.scheme != "file"@ ==> url_parts(url@)->0.host == url_parts(
                text@,
            )->0.host
            &&& url_parts(text@)->0.scheme != "file"@ ==> url_parts(url@)->0.path == url_parts(
                text@,
            )->0.path
            &&& url_parts(url@)->0.query == url_parts(text@)->0.query + pairs_view(pairs@)
        },
{
    url::Url::parse_with_params(text, pairs).ok().map(|url| url.into())
}

} // verus!
