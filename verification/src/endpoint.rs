//! The base URL of the service, held as the text a URL parser produced.

use vstd::prelude::*;

verus! {

/// Base URL used when none is configured.
pub const DEFAULT_BASE_URL: &'static str = "https://api.axiston.com/";

/// The serialization of the URL that `input` parses to, or `None` where
/// `input` is not an absolute URL.
///
/// This names what [`url::Url::parse`] makes of `input`, read through the
/// serialization that the parsed URL stores ([`url::Url::as_str`]). The
/// parser works on its input alone, so equal inputs give equal results.
/// Nothing else is claimed of it.
pub uninterp spec fn url_serialization(input: Seq<char>) -> Option<Seq<char>>;

/// [`url::ParseError`], the reason the parser gives for a refusal. Opaque
/// here: it is only told apart from success.
#[verifier::external_type_specification]
#[verifier::external_body]
pub struct ExParseError(url::ParseError);

/// Calls [`url::Url::parse`] and hands out the serialization that the parsed
/// URL stores, moved out of it by its `From<Url> for String`.
///
/// Trusted: the contract claims only that the outcome is the one that
/// [`url_serialization`] names for `input`, an `Err` standing for `None`.
#[verifier::external_body]
fn parse_url(input: &str) -> (parsed: Result<String, url::ParseError>)
    ensures
        url_serialization(input@) == match parsed {
            Ok(text) => Some(text@),
            Err(_) => None,
        },
{
    match url::Url::parse(input) {
        Ok(url) => Ok(String::from(url)),
        Err(error) => Err(error),
    }
}

/// Whether `text` may stand as a base URL: it is the built-in default or the
/// serialization of some input that parses.
pub open spec fn is_base_url_text(text: Seq<char>) -> bool {
    text == DEFAULT_BASE_URL@ || exists|input: Seq<char>|
        #[trigger] url_serialization(input) == Some(text)
}

/// A base URL that passed validation.
///
/// The only ways to make one are [`BaseUrl::parse`] and [`BaseUrl::default`],
/// so the text inside always satisfies [`is_base_url_text`].
#[derive(Debug)]
pub struct BaseUrl {
    text: String,
}

impl View for BaseUrl {
    type V = Seq<char>;

    closed spec fn view(&self) -> Seq<char> {
        self.text@
    }
}

impl BaseUrl {
    #[verifier::type_invariant]
    spec fn well_formed(&self) -> bool {
        is_base_url_text(self.text@)
    }

    /// Parses `input` as an absolute URL and keeps its serialization.
    ///
    /// Returns `None` exactly when `input` does not parse.
    pub fn parse(input: &str) -> (url: Option<BaseUrl>)
        ensures
            match url_serialization(input@) {
                Some(text) => url is Some && url->0@ == text,
                None => url is None,
            },
    {
        match parse_url(input) {
            Ok(text) => Some(BaseUrl { text }),
            Err(_) => None,
        }
    }

    /// Returns the serialization of the URL.
    pub fn as_str(&self) -> (text: &str)
        ensures
            text@ == self@,
            is_base_url_text(self@),
    {
        proof {
            use_type_invariant(self);
        }
        self.text.as_str()
    }
}

impl Default for BaseUrl {
    /// The built-in endpoint, [`DEFAULT_BASE_URL`].
    fn default() -> (url: BaseUrl)
        ensures
            url@ == DEFAULT_BASE_URL@,
    {
        BaseUrl { text: DEFAULT_BASE_URL.to_owned() }
    }
}

} // verus!
