//! Web addresses, parsed and resolved by the `url` parser that `reqwest`
//! exports as `reqwest::Url`.

use vstd::prelude::*;

verus! {

/// `reqwest::Url`, carried through the library as an opaque value.
#[verifier::external_type_specification]
#[verifier::external_body]
pub struct ExUrl(reqwest::Url);

/// What `reqwest::Url::parse` gives for `input`: the serialization of the
/// URL it builds, or the display text of the error it returns.
pub uninterp spec fn url_parse(input: Seq<char>) -> Result<Seq<char>, Seq<char>>;

/// What `reqwest::Url::join` gives for the URL serialized as `base` and the
/// reference `input`: the serialization of the URL it builds, or the display
/// text of the error it returns.
pub uninterp spec fn url_join(base: Seq<char>, input: Seq<char>) -> Result<Seq<char>, Seq<char>>;

/// An absolute URL together with its serialization.
#[derive(Debug)]
pub struct WebUrl {
    url: reqwest::Url,
    href: String,
}

impl View for WebUrl {
    type V = Seq<char>;

    /// The URL's serialization.
    closed spec fn view(&self) -> Seq<char> {
        self.href@
    }
}

/// Calls `reqwest::Url::parse` on `input`. The contract claims that the URL
/// it returns serializes to (`Url::as_str`), or the error it returns displays
/// as, what `url_parse(input)` holds, and that an empty input is refused (with
/// no base URL, an input that does not start with a scheme is a relative URL
/// without a base).
#[verifier::external_body]
fn parse_url(input: &str) -> (r: Result<WebUrl, String>)
    ensures
        match r {
            Ok(u) => url_parse(input@) == Ok::<Seq<char>, Seq<char>>(u@),
            Err(m) => url_parse(input@) == Err::<Seq<char>, Seq<char>>(m@),
        },
        input@.len() == 0 ==> r is Err,
{
    match reqwest::Url::parse(input) {
        Ok(url) => Ok(WebUrl { href: url.as_str().to_string(), url }),
        Err(e) => Err(e.to_string()),
    }
}

/// Calls `reqwest::Url::join` on the URL of `base` and `input`. The contract
/// claims that the URL it returns serializes to, or the error it returns
/// displays as, what `url_join(base, input)` holds. A `reqwest::Url` is
/// determined by its serialization (`Url` compares by it), so the name takes
/// the base by its serialization.
#[verifier::external_body]
fn join_url(base: &WebUrl, input: &str) -> (r: Result<WebUrl, String>)
    ensures
        match r {
            Ok(u) => url_join(base@, input@) == Ok::<Seq<char>, Seq<char>>(u@),
            Err(m) => url_join(base@, input@) == Err::<Seq<char>, Seq<char>>(m@),
        },
{
    match base.url.join(input) {
        Ok(url) => Ok(WebUrl { href: url.as_str().to_string(), url }),
        Err(e) => Err(e.to_string()),
    }
}

impl WebUrl {
    /// Parses an absolute URL; the parser's message where it refuses `input`.
    pub fn parse(input: &str) -> (r: Result<WebUrl, String>)
        ensures
            match r {
                Ok(u) => url_parse(input@) == Ok::<Seq<char>, Seq<char>>(u@),
                Err(m) => url_parse(input@) == Err::<Seq<char>, Seq<char>>(m@),
            },
            input@.len() == 0 ==> r is Err,
    {
        parse_url(input)
    }

    /// Resolves the reference `input` against this URL; the parser's message
    /// where it refuses it.
    pub fn join(&self, input: &str) -> (r: Result<WebUrl, String>)
        ensures
            match r {
                Ok(u) => url_join(self@, input@) == Ok::<Seq<char>, Seq<char>>(u@),
                Err(m) => url_join(self@, input@) == Err::<Seq<char>, Seq<char>>(m@),
            },
    {
        join_url(self, input)
    }

    /// The URL's serialization.
    pub fn as_str(&self) -> (s: &str)
        ensures
            s@ == self@,
    {
        self.href.as_str()
    }
}

} // verus!
