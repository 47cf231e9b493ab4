//! Where the `aria2c` tarball comes from: the copy embedded in the program, a
//! URL, or a local file.

use vstd::prelude::*;

use crate::text::{has_prefix, has_prefix_spec, skip_chars};
use crate::web_url::{url_parse, WebUrl};

verus! {

/// Source of the tarball that holds a statically compiled `aria2c`.
#[derive(Debug)]
pub enum AriaSource {
    /// The tarball embedded in the program.
    Embedded,
    /// A tarball downloaded from this URL.
    Url(WebUrl),
    /// A tarball read from this local path.
    File(String),
}

/// An `AriaSource` as plain values.
pub enum AriaSourceView {
    Embedded,
    Url(Seq<char>),
    File(Seq<char>),
}

impl View for AriaSource {
    type V = AriaSourceView;

    open spec fn view(&self) -> AriaSourceView {
        match self {
            AriaSource::Embedded => AriaSourceView::Embedded,
            AriaSource::Url(u) => AriaSourceView::Url(u@),
            AriaSource::File(p) => AriaSourceView::File(p@),
        }
    }
}

/// Why a text does not name an `aria2c` source.
#[derive(Debug)]
pub enum AriaSourceError {
    /// `url:` followed by what the URL parser refuses, with the parser's message.
    InvalidUrl(String),
    /// `file:` followed by a path whose existence could not be checked.
    ExistsCheckFailed,
    /// `file:` followed by a path where no file is found.
    FileNotFound,
    /// None of `embedded`, `url:` or `file:`.
    Unrecognized,
}

/// An `AriaSourceError` as plain values.
pub enum AriaSourceErrorView {
    InvalidUrl(Seq<char>),
    ExistsCheckFailed,
    FileNotFound,
    Unrecognized,
}

impl View for AriaSourceError {
    type V = AriaSourceErrorView;

    open spec fn view(&self) -> AriaSourceErrorView {
        match self {
            AriaSourceError::InvalidUrl(m) => AriaSourceErrorView::InvalidUrl(m@),
            AriaSourceError::ExistsCheckFailed => AriaSourceErrorView::ExistsCheckFailed,
            AriaSourceError::FileNotFound => AriaSourceErrorView::FileNotFound,
            AriaSourceError::Unrecognized => AriaSourceErrorView::Unrecognized,
        }
    }
}

/// The source that a text names, before any file is looked at: `embedded`
/// exactly, else `url:` and an absolute URL, else `file:` and a path.
pub open spec fn parse_aria_source(s: Seq<char>) -> Result<AriaSourceView, AriaSourceErrorView> {
    if s == "embedded"@ {
        Ok(AriaSourceView::Embedded)
    } else if has_prefix_spec(s, "url:"@) {
        match url_parse(s.subrange(4, s.len() as int)) {
            Ok(href) => Ok(AriaSourceView::Url(href)),
            Err(m) => Err(AriaSourceErrorView::InvalidUrl(m)),
        }
    } else if has_prefix_spec(s, "file:"@) {
        Ok(AriaSourceView::File(s.subrange(5, s.len() as int)))
    } else {
        Err(AriaSourceErrorView::Unrecognized)
    }
}

/// The text that a source displays as.
pub open spec fn display_aria_source(src: AriaSourceView) -> Seq<char> {
    match src {
        AriaSourceView::Embedded => "embedded"@,
        AriaSourceView::File(_) => "file:"@,
        AriaSourceView::Url(_) => "url:"@,
    }
}

/// Whether `a` and `b` hold the same characters.
pub fn same_text(a: &str, b: &str) -> (r: bool)
    ensures
        r == (a@ == b@),
{
    if a.unicode_len() != b.unicode_len() {
        return false;
    }
    let r = has_prefix(a, b);
    proof {
        assert(a@.subrange(0, b@.len() as int) =~= a@);
    }
    r
}

impl AriaSource {
    /// Reads a source from `embedded`, `url:<url>` or `file:<path>`. A file
    /// source comes back unchecked: `confirm_file` takes the outcome of the
    /// existence check of its path.
    pub fn from_str(s: &str) -> (r: Result<AriaSource, AriaSourceError>)
        ensures
            match r {
                Ok(src) => parse_aria_source(s@) == Ok::<AriaSourceView, AriaSourceErrorView>(src@),
                Err(e) => parse_aria_source(s@) == Err::<AriaSourceView, AriaSourceErrorView>(e@),
            },
            s@ == "url:"@ ==> r matches Err(AriaSourceError::InvalidUrl(_)),
    {
        proof {
            reveal_strlit("url:");
            reveal_strlit("embedded");
            if s@ == "url:"@ {
                assert(s@.subrange(0, 4) =~= s@);
                assert(s@.len() != "embedded"@.len());
            }
        }
        if same_text(s, "embedded") {
            Ok(AriaSource::Embedded)
        } else if has_prefix(s, "url:") {
            proof {
                reveal_strlit("url:");
            }
            let rest = skip_chars(s, 4);
            assert(s@ == "url:"@ ==> rest@.len() == 0);
            match WebUrl::parse(rest.as_str()) {
                Ok(u) => Ok(AriaSource::Url(u)),
                Err(msg) => Err(AriaSourceError::InvalidUrl(msg)),
            }
        } else if has_prefix(s, "file:") {
            proof {
                reveal_strlit("file:");
            }
            Ok(AriaSource::File(skip_chars(s, 5)))
        } else {
            Err(AriaSourceError::Unrecognized)
        }
    }

    /// The path of a file source.
    pub fn file_path(&self) -> (p: Option<&str>)
        ensures
            match self@ {
                AriaSourceView::File(path) => p matches Some(q) && q@ == path,
                _ => p is None,
            },
    {
        match self {
            AriaSource::File(path) => Some(path.as_str()),
            _ => None,
        }
    }

    /// Finishes reading a file source from the existence check of its path:
    /// `None` where the check itself failed. Other sources pass unchanged.
    pub fn confirm_file(self, exists: Option<bool>) -> (r: Result<AriaSource, AriaSourceError>)
        ensures
            match self@ {
                AriaSourceView::File(_) => match exists {
                    None => r matches Err(e) && e@ == AriaSourceErrorView::ExistsCheckFailed,
                    Some(false) => r matches Err(e) && e@ == AriaSourceErrorView::FileNotFound,
                    Some(true) => r matches Ok(src) && src@ == self@,
                },
                _ => r matches Ok(src) && src@ == self@,
            },
    {
        match self {
            AriaSource::File(path) => match exists {
                None => Err(AriaSourceError::ExistsCheckFailed),
                Some(false) => Err(AriaSourceError::FileNotFound),
                Some(true) => Ok(AriaSource::File(path)),
            },
            other => Ok(other),
        }
    }

    /// The text this source displays as: `embedded`, `url:` or `file:`.
    pub fn display(&self) -> (s: String)
        ensures
            s@ == display_aria_source(self@),
    {
        match self {
            AriaSource::Embedded => String::from_str("embedded"),
            AriaSource::File(_) => String::from_str("file:"),
            AriaSource::Url(_) => String::from_str("url:"),
        }
    }
}

impl Default for AriaSource {
    /// The default source: the embedded tarball.
    fn default() -> (s: AriaSource)
        ensures
            s@ == AriaSourceView::Embedded,
    {
        AriaSource::Embedded
    }
}

impl AriaSourceError {
    /// The message the launcher reports for this error.
    pub fn message(&self) -> (s: String)
        ensures
            s@ == match self {
                AriaSourceError::InvalidUrl(msg) => msg@,
                AriaSourceError::ExistsCheckFailed => "exists check operation failed"@,
                AriaSourceError::FileNotFound => "unable to find file at given path"@,
                AriaSourceError::Unrecognized => "valid sources are 'embedded', 'url:' or 'file:'"@,
            },
    {
        match self {
            AriaSourceError::InvalidUrl(msg) => msg.clone(),
            AriaSourceError::ExistsCheckFailed => String::from_str("exists check operation failed"),
            AriaSourceError::FileNotFound => String::from_str("unable to find file at given path"),
            AriaSourceError::Unrecognized => String::from_str(
                "valid sources are 'embedded', 'url:' or 'file:'",
            ),
        }
    }
}

/// What a source displays as reads back as: the embedded source as itself;
/// a file source as a file source with the empty path (which `confirm_file`
/// refuses where no file is found there); a URL source as what the URL parser
/// makes of the empty text (which `AriaSource::from_str` states is refused).
pub proof fn lemma_display_then_parse(x: AriaSourceView)
    ensures
        parse_aria_source(display_aria_source(x)) == match x {
            AriaSourceView::Embedded => Ok::<AriaSourceView, AriaSourceErrorView>(
                AriaSourceView::Embedded,
            ),
            AriaSourceView::File(_) => Ok(AriaSourceView::File(Seq::empty())),
            AriaSourceView::Url(_) => match url_parse(Seq::empty()) {
                Ok(href) => Ok(AriaSourceView::Url(href)),
                Err(m) => Err(AriaSourceErrorView::InvalidUrl(m)),
            },
        },
{
    reveal_strlit("embedded");
    reveal_strlit("url:");
    reveal_strlit("file:");
    match x {
        AriaSourceView::Embedded => {},
        AriaSourceView::File(_) => {
            let t = "file:"@;
            assert(t != "embedded"@);
            assert(!has_prefix_spec(t, "url:"@)) by {
                assert(t.subrange(0, 4)[0] == 'f');
            }
            assert(t.subrange(0, 5) =~= t);
            assert(t.subrange(5, 5) =~= Seq::<char>::empty());
        },
        AriaSourceView::Url(_) => {
            let t = "url:"@;
            assert(t != "embedded"@);
            assert(t.subrange(0, 4) =~= t);
            assert(t.subrange(4, 4) =~= Seq::<char>::empty());
        },
    }
}

/// How a text names a source: exactly `embedded` names the embedded
/// tarball; `url:` followed by any text `u` names the URL that the parser
/// makes of `u` (or is refused with the parser's message); `file:` followed
/// by any text `p` names the file at `p`; any other text is refused.
pub proof fn lemma_source_texts(u: Seq<char>, t: Seq<char>)
    ensures
        parse_aria_source("embedded"@) == Ok::<AriaSourceView, AriaSourceErrorView>(
            AriaSourceView::Embedded,
        ),
        parse_aria_source("url:"@ + u) == match url_parse(u) {
            Ok(href) => Ok::<AriaSourceView, AriaSourceErrorView>(AriaSourceView::Url(href)),
            Err(m) => Err(AriaSourceErrorView::InvalidUrl(m)),
        },
        parse_aria_source("file:"@ + u) == Ok::<AriaSourceView, AriaSourceErrorView>(
            AriaSourceView::File(u),
        ),
        (t != "embedded"@ && !has_prefix_spec(t, "url:"@) && !has_prefix_spec(t, "file:"@))
            ==> parse_aria_source(t) == Err::<AriaSourceView, AriaSourceErrorView>(
            AriaSourceErrorView::Unrecognized,
        ),
{
    reveal_strlit("embedded");
    reveal_strlit("url:");
    reveal_strlit("file:");
    let su = "url:"@ + u;
    assert(su.subrange(0, 4) =~= "url:"@);
    assert(su.subrange(4, su.len() as int) =~= u);
    assert(su != "embedded"@) by {
        if su == "embedded"@ {
            assert(su[0] == 'u');
        }
    }
    let sf = "file:"@ + u;
    assert(sf.subrange(0, 5) =~= "file:"@);
    assert(sf.subrange(5, sf.len() as int) =~= u);
    assert(sf != "embedded"@) by {
        if sf == "embedded"@ {
            assert(sf[0] == 'f');
        }
    }
    assert(!has_prefix_spec(sf, "url:"@)) by {
        assert(sf.subrange(0, 4)[0] == 'f');
    }
}

} // verus!
