use vstd::prelude::*;

verus! {

/// The URL parser decides on the text alone whether it is an absolute URL.
pub uninterp spec fn url_accepts(text: Seq<char>) -> bool;

#[verifier::external_type_specification]
#[verifier::external_body]
pub struct ExUrl(url::Url);

#[verifier::external_type_specification]
#[verifier::external_body]
pub struct ExParseError(url::ParseError);

/// Relies on `url::Url::parse`: whether it succeeds depends on the input text alone.
pub assume_specification[ url::Url::parse ](input: &str) -> (r: Result<url::Url, url::ParseError>)
    ensures
        r.is_ok() == url_accepts(input@),
;

/// Relies on `url::Url::host_str`: the host of a parsed URL, absent when it has no authority.
pub assume_specification[ url::Url::host_str ](u: &url::Url) -> (r: Option<&str>);

/// Why a locator could not become a target.
#[derive(Debug)]
pub enum TargetError {
    /// The text is not an absolute URL; the parser's reason is attached.
    InvalidUrl(url::ParseError),
}

/// A network locator to scan: the URL as the caller wrote it, and its host
/// when the URL has an authority.
#[derive(Debug, Clone)]
pub struct Target {
    full_url: String,
    host: Option<String>,
}

impl Target {
    /// The full URL, character by character.
    pub closed spec fn url_view(&self) -> Seq<char> {
        self.full_url@
    }

    /// The host, when the locator has one.
    pub closed spec fn host_view(&self) -> Option<Seq<char>> {
        match self.host {
            Some(h) => Some(h@),
            None => None,
        }
    }

    /// Every target holds a URL that the parser accepted.
    pub closed spec fn wf(&self) -> bool {
        url_accepts(self.full_url@)
    }

    /// Parses `text` as an absolute URL. The target keeps `text` itself as its
    /// full URL and takes the host that the parser found, if any.
    pub fn parse(text: &str) -> (r: Result<Target, TargetError>)
        ensures
            r.is_ok() == url_accepts(text@),
            r matches Ok(t) ==> t.wf() && t.url_view() == text@,
    {
        match url::Url::parse(text) {
            Ok(u) => {
                let host = match u.host_str() {
                    Some(h) => Some(h.to_owned()),
                    None => None,
                };
                Ok(Target { full_url: text.to_owned(), host })
            },
            Err(e) => Err(TargetError::InvalidUrl(e)),
        }
    }

    /// The full URL.
    pub fn full_url(&self) -> (r: &str)
        ensures
            r@ == self.url_view(),
    {
        self.full_url.as_str()
    }

    /// The host, absent when the locator has no authority.
    pub fn host(&self) -> (r: Option<&str>)
        ensures
            r.is_some() == self.host_view().is_some(),
            r matches Some(h) ==> self.host_view() == Some(h@),
    {
        match &self.host {
            Some(h) => Some(h.as_str()),
            None => None,
        }
    }
}

} // verus!
