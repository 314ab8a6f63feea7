use crate::error::{FliteError, FliteResult};
use crate::text::{has_nul, lemma_has_nul_concat, str_eq, CText};
use vstd::pervasive::unreached;
use vstd::prelude::*;
use vstd::string::StringExecFns;

verus! {

/// `url::Url`, a parsed URL. Nothing inside it is visible here; what is
/// known of one is what the two methods specified below return.
#[verifier::external_type_specification]
#[verifier::external_body]
pub struct ExUrl(url::Url);

/// The serialization of a URL: the text that a `url::Url` stores and that
/// `url::Url::as_str` returns.
pub uninterp spec fn url_text(url: url::Url) -> Seq<char>;

/// Whether `scheme` is the part of `text` that a colon ends and that holds
/// no colon itself.
pub open spec fn is_scheme_of(scheme: Seq<char>, text: Seq<char>) -> bool {
    &&& scheme.len() < text.len()
    &&& text.take(scheme.len() as int) == scheme
    &&& text[scheme.len() as int] == ':'
    &&& forall|i: int| 0 <= i < scheme.len() ==> scheme[i] != ':'
}

/// `url::Url::as_str` returns the URL's serialization.
pub assume_specification<'a>[ url::Url::as_str ](url: &'a url::Url) -> (text: &'a str)
    ensures
        text@ == url_text(*url),
;

/// `url::Url::scheme` returns the scheme: the start of the serialization up
/// to the colon that ends it. The scheme is made of ASCII letters, digits,
/// `+`, `-` and `.`, so it holds no colon itself.
pub assume_specification<'a>[ url::Url::scheme ](url: &'a url::Url) -> (scheme: &'a str)
    ensures
        is_scheme_of(scheme@, url_text(*url)),
;

/// The position of the first colon of `text`, or the length of `text` if it
/// holds none.
pub open spec fn first_colon(text: Seq<char>) -> int
    decreases text.len(),
{
    if text.len() == 0 || text[0] == ':' {
        0
    } else {
        1 + first_colon(text.drop_first())
    }
}

/// The scheme of a location: what stands before its first colon.
pub open spec fn scheme_of(text: Seq<char>) -> Seq<char> {
    text.take(first_colon(text))
}

/// Whether voices may be fetched over `scheme`: over `http` and `https` only.
pub open spec fn is_web_scheme(scheme: Seq<char>) -> bool {
    scheme == "http"@ || scheme == "https"@
}

/// The locator of the voice file at `path`: the path behind `file://`.
pub open spec fn file_locator_of(path: Seq<char>) -> Seq<char> {
    "file://"@ + path
}

/// A text has one scheme: whatever a colon ends and holds no colon is what
/// stands before the first colon.
pub proof fn lemma_scheme_unique(scheme: Seq<char>, text: Seq<char>)
    requires
        is_scheme_of(scheme, text),
    ensures
        scheme == scheme_of(text),
        first_colon(text) == scheme.len(),
    decreases scheme.len(),
{
    if scheme.len() > 0 {
        assert(text[0] == scheme[0]);
        let rest = scheme.drop_first();
        let tail = text.drop_first();
        assert(tail.take(rest.len() as int) =~= rest);
        assert(tail[rest.len() as int] == text[scheme.len() as int]);
        lemma_scheme_unique(rest, tail);
    }
}

/// Builds the locator of the voice file at `path`.
pub fn file_locator(path: &str) -> (locator: CText)
    requires
        !has_nul(path@),
    ensures
        locator@ == file_locator_of(path@),
        !has_nul(locator@),
{
    proof {
        reveal_strlit("file://");
        lemma_has_nul_concat("file://"@, path@);
        assert(!has_nul("file://"@)) by {
            if has_nul("file://"@) {
                let i = choose|i: int| 0 <= i < "file://"@.len() && "file://"@[i] == '\0';
                assert("file://"@[i] != '\0');
            }
        }
    }
    match CText::new(String::from_str("file://").concat(path)) {
        Ok(locator) => locator,
        Err(_) => unreached(),
    }
}

/// Builds the locator of the voice at `url`, which is the URL's text, if the
/// URL's scheme is one that voices may be fetched over.
///
/// A URL of another scheme is refused with its scheme. A URL whose text
/// holds a NUL cannot be a locator and is refused as invalid text.
pub fn url_locator(url: &url::Url) -> (locator: FliteResult<CText>)
    ensures
        match locator {
            Ok(l) => is_web_scheme(scheme_of(url_text(*url))) && !has_nul(url_text(*url)) && l@
                == url_text(*url),
            Err(FliteError::InvalidUrlScheme(s)) => !is_web_scheme(scheme_of(url_text(*url)))
                && s@ == scheme_of(url_text(*url)),
            Err(FliteError::InvalidText) => is_web_scheme(scheme_of(url_text(*url))) && has_nul(
                url_text(*url),
            ),
            Err(_) => false,
        },
{
    let scheme = url.scheme();
    proof {
        lemma_scheme_unique(scheme@, url_text(*url));
    }
    if !(str_eq(scheme, "http") || str_eq(scheme, "https")) {
        return Err(FliteError::InvalidUrlScheme(String::from_str(scheme)));
    }
    CText::new(String::from_str(url.as_str()))
}

} // verus!
