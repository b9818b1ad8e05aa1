//! The address of a page, as far as the bridge reads it: its text, its scheme and its
//! domain. Parsing and relating addresses is the work of the `url` crate.

use url::Url;
use vstd::prelude::*;
use crate::text::text_of;

verus! {

/// The address of a page.
#[derive(Debug)]
pub struct PageUrl {
    href: String,
    scheme: String,
    domain: Option<String>,
}

/// An address as a value of the model.
pub struct PageUrlView {
    /// The whole address as text.
    pub href: Seq<char>,
    /// The scheme, without the colon.
    pub scheme: Seq<char>,
    /// The host, where the address has one and it is a domain name.
    pub domain: Option<Seq<char>>,
}

impl View for PageUrl {
    type V = PageUrlView;

    closed spec fn view(&self) -> PageUrlView {
        PageUrlView { href: self.href@, scheme: self.scheme@, domain: text_of(self.domain) }
    }
}

/// What `url::Url::parse` makes of the text `input`: nothing where the text is no
/// absolute URL, else the parsed URL's serialization, scheme and domain.
pub uninterp spec fn url_parse(input: Seq<char>) -> Option<PageUrlView>;

/// What `url::Url::make_relative` gives for the URL written `base` and the URL written
/// `target`: nothing where one of the texts is no absolute URL.
pub uninterp spec fn url_make_relative(base: Seq<char>, target: Seq<char>) -> Option<Seq<char>>;

/// Calls `url::Url::parse` and reads the parsed URL's `as_str`, `scheme` and `domain`.
/// The contract only names the outcome: it is `url_parse` of the input.
#[verifier::external_body]
fn parse_url(input: &str) -> (parsed: Option<PageUrl>)
    ensures
        match parsed {
            Some(url) => url_parse(input@) == Some(url@),
            None => url_parse(input@) is None,
        },
{
    let url = Url::parse(input).ok()?;
    Some(
        PageUrl {
            href: url.as_str().to_owned(),
            scheme: url.scheme().to_owned(),
            domain: url.domain().map(str::to_owned),
        },
    )
}

/// Calls `url::Url::make_relative` on the URLs that the two texts parse to. The
/// contract only names the outcome: it is `url_make_relative` of the two texts.
#[verifier::external_body]
fn relative_reference(base: &str, target: &str) -> (relative: Option<String>)
    ensures
        match relative {
            Some(path) => url_make_relative(base@, target@) == Some(path@),
            None => url_make_relative(base@, target@) is None,
        },
{
    let base = Url::parse(base).ok()?;
    let target = Url::parse(target).ok()?;
    base.make_relative(&target)
}

impl PageUrl {
    /// An address given by its parts.
    pub fn new(href: String, scheme: String, domain: Option<String>) -> (url: Self)
        ensures
            url@ == (PageUrlView { href: href@, scheme: scheme@, domain: text_of(domain) }),
    {
        PageUrl { href, scheme, domain }
    }

    /// Reads an address from text: `None` where the text is no absolute URL.
    pub fn parse(input: &str) -> (parsed: Option<Self>)
        ensures
            match parsed {
                Some(url) => url_parse(input@) == Some(url@),
                None => url_parse(input@) is None,
            },
    {
        parse_url(input)
    }

    /// The whole address as text.
    pub fn as_str(&self) -> (href: &str)
        ensures
            href@ == self@.href,
    {
        self.href.as_str()
    }

    /// The scheme, without the colon.
    pub fn scheme(&self) -> (scheme: &str)
        ensures
            scheme@ == self@.scheme,
    {
        self.scheme.as_str()
    }

    /// The host, where the address has one and it is a domain name.
    pub fn domain(&self) -> (domain: Option<&str>)
        ensures
            match domain {
                Some(d) => self@.domain == Some(d@),
                None => self@.domain is None,
            },
    {
        match &self.domain {
            Some(d) => Some(d.as_str()),
            None => None,
        }
    }

    /// The reference that leads from this address to `url`, where there is one.
    pub fn make_relative(&self, url: &PageUrl) -> (relative: Option<String>)
        ensures
            match relative {
                Some(path) => url_make_relative(self@.href, url@.href) == Some(path@),
                None => url_make_relative(self@.href, url@.href) is None,
            },
    {
        relative_reference(self.href.as_str(), url.href.as_str())
    }
}

impl Clone for PageUrl {
    fn clone(&self) -> (copy: Self)
        ensures
            copy@ == self@,
    {
        PageUrl {
            href: self.href.clone(),
            scheme: self.scheme.clone(),
            domain: match &self.domain {
                Some(d) => Some(d.clone()),
                None => None,
            },
        }
    }
}

} // verus!
