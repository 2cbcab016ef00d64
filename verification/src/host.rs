//! Hosts: absolute URLs, held as the text that the `url` crate writes for them.
use crate::error::{refused_port_text, Error, ErrorKind, ErrorView};
use url::Url;
use vstd::prelude::*;
use vstd::utf8::encode_utf8;

verus! {

/// The serialisation of the URL that `url::Url::parse` reads from `text`, or
/// `None` where it reads none.
pub uninterp spec fn url_parse(text: Seq<char>) -> Option<Seq<char>>;

/// What the `url::ParseError` that `url::Url::parse` gives for `text` shows
/// when displayed. It says something only of a text in which no URL is read.
pub uninterp spec fn url_parse_error(text: Seq<char>) -> Seq<char>;

/// What comes of reading `href` with `url::Url::parse`, giving the URL the
/// port `port` with `url::Url::set_port`, and writing the URL out: its
/// serialisation, or `None` where the text is not read or the port is refused.
pub uninterp spec fn url_with_port(href: Seq<char>, port: u16) -> Option<Seq<char>>;

/// The longest serialisation, in bytes, of a URL that is handed to `set_port`:
/// the `url` crate counts positions in 32 bits, and a port adds up to six bytes.
pub const HOST_LIMIT: usize = 0xFFFF_FFF0;

/// The number of bytes that `text` takes as UTF-8, as `str::len` counts them.
pub open spec fn byte_len(text: Seq<char>) -> usize {
    encode_utf8(text).len() as usize
}

/// Whether `href` is a text that the `url` crate wrote: the serialisation of a
/// URL that was read, or of one that was given a port.
pub open spec fn written_by_url(href: Seq<char>) -> bool {
    ||| exists|text: Seq<char>| #[trigger] url_parse(text) == Some(href)
    ||| exists|from: Seq<char>, port: u16| #[trigger] url_with_port(from, port) == Some(href)
}

/// The host `href` with its port replaced by `port`: what `url_with_port`
/// names, where the URL that `href` is read as is short enough to be given a
/// port.
pub open spec fn overlay(href: Seq<char>, port: u16) -> Option<Seq<char>> {
    match url_parse(href) {
        Some(written) => if byte_len(written) <= HOST_LIMIT {
            url_with_port(href, port)
        } else {
            None
        },
        None => None,
    }
}

/// The message of the error for a text that is a URL, but not as the `url`
/// crate writes it.
pub open spec fn unwritten_text() -> Seq<char> {
    "URL is not in its written form"@
}

/// Calls `url::Url::parse`; on success `String::from` on the URL, on failure
/// `to_string` on the `url::ParseError`.
///
/// Trusted: success and the text are those that `url_parse` names, and the
/// message of a failure is the one that `url_parse_error` names. Both depend on
/// `text` alone: the parser is called with its default options, and each
/// variant of the error displays a fixed text.
#[verifier::external_body]
fn parse_url(text: &str) -> (parsed: Result<String, String>)
    ensures
        match parsed {
            Ok(href) => url_parse(text@) == Some(href@),
            Err(message) => url_parse(text@) is None && url_parse_error(text@) == message@,
        },
{
    match Url::parse(text) {
        Ok(url) => Ok(String::from(url)),
        Err(cause) => Err(cause.to_string()),
    }
}

/// Reads `href` with `url::Url::parse`, calls `url::Url::set_port` with
/// `Some(port)`, and returns the serialisation of the changed URL.
///
/// Trusted: the outcome is the one that `url_with_port` names. The bound on
/// the URL that `href` is read as keeps `set_port` clear of the one place where
/// it would panic: it cuts the serialisation after the host, adds a colon and
/// the port, and takes the new length for a position of 32 bits.
#[verifier::external_body]
fn set_url_port(href: &str, port: u16) -> (changed: Option<String>)
    requires
        url_parse(href@) matches Some(written) && byte_len(written) <= HOST_LIMIT,
    ensures
        match changed {
            Some(text) => url_with_port(href@, port) == Some(text@),
            None => url_with_port(href@, port) is None,
        },
{
    let mut url = Url::parse(href).ok()?;
    url.set_port(Some(port)).ok()?;
    Some(String::from(url))
}

/// An absolute URL in serialised form.
pub struct Host {
    href: String,
}

impl View for Host {
    type V = Seq<char>;

    closed spec fn view(&self) -> Seq<char> {
        self.href@
    }
}

impl Clone for Host {
    fn clone(&self) -> (copy: Self)
        ensures
            copy@ == self@,
    {
        proof {
            use_type_invariant(self);
        }
        Host { href: self.href.clone() }
    }
}

impl Host {
    /// A host's text is one that the `url` crate wrote.
    #[verifier::type_invariant]
    spec fn is_written(&self) -> bool {
        written_by_url(self.href@)
    }

    /// Reads a URL from `text` and keeps it as the `url` crate writes it.
    pub fn parse(text: &str) -> (parsed: Result<Host, Error>)
        ensures
            match parsed {
                Ok(host) => url_parse(text@) == Some(host@),
                Err(error) => url_parse(text@) is None && error@ == (ErrorView {
                    kind: ErrorKind::UrlParse,
                    message: url_parse_error(text@),
                }),
            },
    {
        match parse_url(text) {
            Ok(href) => Ok(Host { href }),
            Err(message) => Err(Error::new(ErrorKind::UrlParse, message)),
        }
    }

    /// Takes `text` for a host as it stands, where it is a URL just as the
    /// `url` crate writes it: where reading it and writing it out gives `text`
    /// again.
    pub fn from_written(text: &str) -> (taken: Result<Host, Error>)
        ensures
            match taken {
                Ok(host) => url_parse(text@) == Some(text@) && host@ == text@,
                Err(error) => match url_parse(text@) {
                    Some(written) => written != text@ && error@ == (ErrorView {
                        kind: ErrorKind::UrlParse,
                        message: unwritten_text(),
                    }),
                    None => error@ == (ErrorView {
                        kind: ErrorKind::UrlParse,
                        message: url_parse_error(text@),
                    }),
                },
            },
    {
        match parse_url(text) {
            Ok(href) => {
                let given = text.to_owned();
                if href == given {
                    Ok(Host { href })
                } else {
                    Err(
                        Error::new(
                            ErrorKind::UrlParse,
                            "URL is not in its written form".to_owned(),
                        ),
                    )
                }
            },
            Err(message) => Err(Error::new(ErrorKind::UrlParse, message)),
        }
    }

    /// The URL as text.
    pub fn as_str(&self) -> (href: &str)
        ensures
            href@ == self@,
            written_by_url(href@),
    {
        proof {
            use_type_invariant(self);
        }
        self.href.as_str()
    }

    /// The host with `port` in place of whatever port it had.
    pub fn with_port(self, port: u16) -> (changed: Result<Host, Error>)
        ensures
            match changed {
                Ok(host) => overlay(self@, port) == Some(host@),
                Err(error) => overlay(self@, port) is None && error@ == (ErrorView {
                    kind: ErrorKind::Invariant,
                    message: refused_port_text(),
                }),
            },
    {
        let written = match parse_url(self.href.as_str()) {
            Ok(written) => written,
            Err(_) => return Err(Error::refused_port()),
        };
        if written.as_str().len() > HOST_LIMIT {
            return Err(Error::refused_port());
        }
        match set_url_port(self.href.as_str(), port) {
            Some(href) => Ok(Host { href }),
            None => Err(Error::refused_port()),
        }
    }
}

} // verus!
