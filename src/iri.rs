//! IRI types.
//!
//! An IRI here is a string that `url::Url::parse` accepts. Borrowed ([`Iri`]) and
//! owned ([`IriBuf`]) IRIs hold that as their invariant; the resolved forms
//! ([`ResolvedIri`], [`ResolvedIriBuf`]) keep the parsed [`Url`] beside the text.
use vstd::prelude::*;

verus! {

#[verifier::external_type_specification]
#[verifier::external_body]
pub struct ExUrlParseError(url::ParseError);

/// Holds when `url::Url::parse` accepts the text.
pub uninterp spec fn url_parses(s: Seq<char>) -> bool;

/// The serialization (`url::Url::as_str`) of the URL that `url::Url::parse`
/// reads from the text.
pub uninterp spec fn url_serialization(s: Seq<char>) -> Seq<char>;

/// The host (`url::Url::host_str`) of the URL that `url::Url::parse` reads
/// from the text.
pub uninterp spec fn url_host(s: Seq<char>) -> Option<Seq<char>>;

/// A parsed absolute URL: its serialization and its host.
#[derive(Debug, Clone)]
pub struct Url {
    serialization: String,
    host: Option<String>,
}

/// Reads an optional owned string as an optional character sequence.
pub open spec fn opt_chars(o: Option<String>) -> Option<Seq<char>> {
    match o {
        Some(s) => Some(s@),
        None => None,
    }
}

impl Url {
    /// The serialization of the URL.
    pub closed spec fn serialization(self) -> Seq<char> {
        self.serialization@
    }

    /// The host of the URL, if it has one.
    pub closed spec fn host(self) -> Option<Seq<char>> {
        opt_chars(self.host)
    }

    /// Holds when this is the URL that the text `s` parses to.
    pub open spec fn is_url_of(self, s: Seq<char>) -> bool {
        &&& self.serialization() == url_serialization(s)
        &&& self.host() == url_host(s)
    }

    /// Returns the serialization of the URL.
    pub fn as_str(&self) -> (r: &str)
        ensures
            r@ == self.serialization(),
    {
        self.serialization.as_str()
    }

    /// Returns the host of the URL, if it has one.
    pub fn host_str(&self) -> (r: Option<&str>)
        ensures
            r is Some <==> self.host() is Some,
            r matches Some(h) ==> self.host() == Some(h@),
    {
        match &self.host {
            Some(h) => Some(h.as_str()),
            None => None,
        }
    }
}

/// Relies on `url::Url::parse`, read back through `Url::as_str` and
/// `Url::host_str`: whether the text parses, and to which URL, depends on the
/// text alone.
#[verifier::external_body]
fn parse_url(s: &str) -> (r: core::result::Result<Url, url::ParseError>)
    ensures
        r is Ok <==> url_parses(s@),
        r matches Ok(u) ==> u.serialization() == url_serialization(s@),
        r matches Ok(u) ==> u.host() == url_host(s@),
{
    match url::Url::parse(s) {
        Ok(u) => Ok(Url { serialization: u.as_str().to_string(), host: u.host_str().map(String::from) }),
        Err(e) => Err(e),
    }
}

/// An IRI parse error.
#[derive(Debug, Clone, Copy, PartialEq, Eq)]
pub enum IriParseError {
    /// Parse error from the `url` crate.
    Url(url::ParseError),
}

/// Parses the text, with the URL parser's error wrapped as an IRI parse error.
fn run_iri_validation(s: &str) -> (r: core::result::Result<Url, IriParseError>)
    ensures
        r is Ok <==> url_parses(s@),
        r matches Ok(u) ==> u.is_url_of(s@),
{
    match parse_url(s) {
        Ok(u) => Ok(u),
        Err(e) => Err(IriParseError::Url(e)),
    }
}

/// A borrowed IRI.
#[derive(Debug, Clone, Copy)]
pub struct Iri<'a> {
    inner: &'a str,
}

impl<'a> View for Iri<'a> {
    type V = Seq<char>;

    closed spec fn view(&self) -> Seq<char> {
        self.inner@
    }
}

impl<'a> Iri<'a> {
    /// The text is a valid IRI.
    #[verifier::type_invariant]
    closed spec fn valid(self) -> bool {
        url_parses(self.inner@)
    }

    /// Wraps a string as an IRI without checking it again. The caller
    /// establishes that the string is valid, e.g. from an earlier check.
    pub fn from_str_unchecked(s: &'a str) -> (r: Iri<'a>)
        requires
            url_parses(s@),
        ensures
            r@ == s@,
    {
        Iri { inner: s }
    }

    /// Converts a string slice to an IRI slice, if it is a valid IRI.
    pub fn try_from_str(s: &'a str) -> (r: core::result::Result<Iri<'a>, IriParseError>)
        ensures
            r is Ok <==> url_parses(s@),
            r matches Ok(i) ==> i@ == s@,
    {
        match ResolvedIri::try_from_str(s) {
            Ok(v) => Ok(v.as_iri()),
            Err(e) => Err(e),
        }
    }

    /// Returns the text of the IRI.
    pub fn as_str(&self) -> (r: &'a str)
        ensures
            r@ == self@,
            url_parses(r@),
    {
        proof {
            use_type_invariant(self);
        }
        self.inner
    }

    /// Converts the IRI to an owned `IriBuf`.
    pub fn to_iri_buf(&self) -> (r: IriBuf)
        ensures
            r@ == self@,
    {
        proof {
            use_type_invariant(self);
        }
        IriBuf { inner: self.inner.to_owned() }
    }

    /// Parses the IRI into a URL. This cannot fail: the IRI was checked.
    pub fn to_url(&self) -> (r: Url)
        ensures
            r.is_url_of(self@),
    {
        proof {
            use_type_invariant(self);
        }
        match run_iri_validation(self.inner) {
            Ok(u) => u,
            Err(_) => vstd::pervasive::unreached(),
        }
    }
}

/// An owned IRI.
#[derive(Debug)]
pub struct IriBuf {
    inner: String,
}

impl View for IriBuf {
    type V = Seq<char>;

    closed spec fn view(&self) -> Seq<char> {
        self.inner@
    }
}

impl IriBuf {
    /// The text is a valid IRI.
    #[verifier::type_invariant]
    closed spec fn valid(self) -> bool {
        url_parses(self.inner@)
    }

    /// Wraps a string as an IRI without checking it again. The caller
    /// establishes that the string is valid, e.g. from an earlier check.
    pub fn from_string_unchecked(s: String) -> (r: IriBuf)
        requires
            url_parses(s@),
        ensures
            r@ == s@,
    {
        IriBuf { inner: s }
    }

    /// Converts a string to an owned IRI, if it is a valid IRI.
    pub fn try_from_string(s: String) -> (r: core::result::Result<IriBuf, IriParseError>)
        ensures
            r is Ok <==> url_parses(s@),
            r matches Ok(i) ==> i@ == s@,
    {
        match ResolvedIriBuf::try_from_string(s) {
            Ok(v) => {
                let (iri, _) = v.into_inner();
                Ok(iri)
            },
            Err(e) => Err(e),
        }
    }

    /// Borrows the IRI.
    pub fn as_iri(&self) -> (r: Iri<'_>)
        ensures
            r@ == self@,
    {
        proof {
            use_type_invariant(self);
        }
        Iri::from_str_unchecked(self.inner.as_str())
    }

    /// Returns the text of the IRI.
    pub fn as_str(&self) -> (r: &str)
        ensures
            r@ == self@,
            url_parses(r@),
    {
        proof {
            use_type_invariant(self);
        }
        self.inner.as_str()
    }

    /// Parses the IRI into a URL. This cannot fail: the IRI was checked.
    pub fn to_url(&self) -> (r: Url)
        ensures
            r.is_url_of(self@),
    {
        self.as_iri().to_url()
    }
}

impl core::str::FromStr for IriBuf {
    type Err = IriParseError;

    fn from_str(s: &str) -> core::result::Result<IriBuf, IriParseError> {
        match Iri::try_from_str(s) {
            Ok(i) => Ok(i.to_iri_buf()),
            Err(e) => Err(e),
        }
    }
}

/// A borrowed IRI together with the URL it parses to.
#[derive(Debug)]
pub struct ResolvedIri<'a> {
    iri: Iri<'a>,
    url: Url,
}

impl<'a> ResolvedIri<'a> {
    /// The URL is the one the IRI parses to.
    #[verifier::type_invariant]
    closed spec fn resolved(self) -> bool {
        self.url.is_url_of(self.iri@)
    }

    /// The text of the IRI.
    pub closed spec fn text(self) -> Seq<char> {
        self.iri@
    }

    /// The URL the IRI parses to.
    pub closed spec fn url(self) -> Url {
        self.url
    }

    /// Parses a string slice, keeping both the text and the URL.
    pub fn try_from_str(s: &'a str) -> (r: core::result::Result<ResolvedIri<'a>, IriParseError>)
        ensures
            r is Ok <==> url_parses(s@),
            r matches Ok(v) ==> v.text() == s@ && v.url().is_url_of(s@),
    {
        match run_iri_validation(s) {
            Ok(url) => {
                let iri = Iri::from_str_unchecked(s);
                Ok(ResolvedIri { iri, url })
            },
            Err(e) => Err(e),
        }
    }

    /// Splits into the IRI and the URL.
    pub fn into_inner(self) -> (r: (Iri<'a>, Url))
        ensures
            r.0@ == self.text(),
            r.1 == self.url(),
            r.1.is_url_of(r.0@),
    {
        proof {
            use_type_invariant(&self);
        }
        (self.iri, self.url)
    }

    /// Returns the IRI.
    pub fn as_iri(&self) -> (r: Iri<'a>)
        ensures
            r@ == self.text(),
    {
        self.iri
    }

    /// Returns the URL.
    pub fn as_url(&self) -> (r: &Url)
        ensures
            *r == self.url(),
            r.is_url_of(self.text()),
    {
        proof {
            use_type_invariant(self);
        }
        &self.url
    }
}

/// An owned IRI together with the URL it parses to.
#[derive(Debug)]
pub struct ResolvedIriBuf {
    iri: IriBuf,
    url: Url,
}

impl ResolvedIriBuf {
    /// The URL is the one the IRI parses to.
    #[verifier::type_invariant]
    closed spec fn resolved(self) -> bool {
        self.url.is_url_of(self.iri@)
    }

    /// The text of the IRI.
    pub closed spec fn text(self) -> Seq<char> {
        self.iri@
    }

    /// The URL the IRI parses to.
    pub closed spec fn url(self) -> Url {
        self.url
    }

    /// Parses a string, keeping both the text and the URL.
    pub fn try_from_string(s: String) -> (r: core::result::Result<ResolvedIriBuf, IriParseError>)
        ensures
            r is Ok <==> url_parses(s@),
            r matches Ok(v) ==> v.text() == s@ && v.url().is_url_of(s@),
    {
        match run_iri_validation(s.as_str()) {
            Ok(url) => {
                let iri = IriBuf::from_string_unchecked(s);
                Ok(ResolvedIriBuf { iri, url })
            },
            Err(e) => Err(e),
        }
    }

    /// Copies a borrowed resolved IRI into an owned one.
    pub fn from_resolved(v: ResolvedIri<'_>) -> (r: ResolvedIriBuf)
        ensures
            r.text() == v.text(),
            r.url() == v.url(),
    {
        let (iri, url) = v.into_inner();
        ResolvedIriBuf { iri: iri.to_iri_buf(), url }
    }

    /// Splits into the IRI and the URL.
    pub fn into_inner(self) -> (r: (IriBuf, Url))
        ensures
            r.0@ == self.text(),
            r.1 == self.url(),
            r.1.is_url_of(r.0@),
    {
        proof {
            use_type_invariant(&self);
        }
        (self.iri, self.url)
    }

    /// Returns the IRI.
    pub fn as_iri(&self) -> (r: Iri<'_>)
        ensures
            r@ == self.text(),
    {
        self.iri.as_iri()
    }

    /// Returns the URL.
    pub fn as_url(&self) -> (r: &Url)
        ensures
            *r == self.url(),
            r.is_url_of(self.text()),
    {
        proof {
            use_type_invariant(self);
        }
        &self.url
    }
}

impl core::str::FromStr for ResolvedIriBuf {
    type Err = IriParseError;

    fn from_str(s: &str) -> core::result::Result<ResolvedIriBuf, IriParseError> {
        match ResolvedIri::try_from_str(s) {
            Ok(v) => Ok(ResolvedIriBuf::from_resolved(v)),
            Err(e) => Err(e),
        }
    }
}

/// Resolving depends on the text alone: an IRI that was re-wrapped without a
/// check from the text of a checked one resolves to the same URL.
pub proof fn lemma_unchecked_resolves_alike(checked: ResolvedIri, rewrapped: Iri, url: Url)
    requires
        rewrapped@ == checked.text(),
        checked.url().is_url_of(checked.text()),
        url.is_url_of(rewrapped@),
    ensures
        url.serialization() == checked.url().serialization(),
        url.host() == checked.url().host(),
{
}

} // verus!
