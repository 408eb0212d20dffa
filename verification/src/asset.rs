//! Asset URLs: the form under which the UI loads a local file.
//!
//! The URL of a file is a fixed prefix followed by the file's canonical
//! absolute path, percent-encoded so that not even a path separator is left
//! in it. The UI's asset loader undoes exactly this encoding, so both the
//! prefix and the encoding are part of the protocol.

use vstd::prelude::*;
use vstd::string::StringExecFns;
use vstd::utf8::*;
use crate::error::{ApiError, PathFailure};
use crate::text::same_text;

verus! {

/// Which of the two prefixes the platform's asset loader answers to.
#[derive(Debug, Clone, Copy, PartialEq, Eq, Structural)]
pub enum AssetBase {
    /// `http://asset.localhost/`: Windows and Android, where the web view
    /// cannot serve a custom scheme.
    HttpLocalhost,
    /// `asset://localhost/`: every other platform.
    AssetScheme,
}

/// The prefix family of a target, by the target's name.
pub open spec fn base_of_target(target_os: Seq<char>) -> AssetBase {
    if target_os == "windows"@ || target_os == "android"@ {
        AssetBase::HttpLocalhost
    } else {
        AssetBase::AssetScheme
    }
}

impl AssetBase {
    /// The prefix as a sequence of characters.
    pub open spec fn spec_prefix(self) -> Seq<char> {
        match self {
            AssetBase::HttpLocalhost => "http://asset.localhost/"@,
            AssetBase::AssetScheme => "asset://localhost/"@,
        }
    }

    /// The other family.
    pub open spec fn other(self) -> AssetBase {
        match self {
            AssetBase::HttpLocalhost => AssetBase::AssetScheme,
            AssetBase::AssetScheme => AssetBase::HttpLocalhost,
        }
    }

    /// Picks the family for a target name as the compiler spells it
    /// (`"windows"`, `"android"`, `"linux"`, ...).
    pub fn for_target(target_os: &str) -> (base: AssetBase)
        ensures
            base == base_of_target(target_os@),
    {
        if same_text(target_os, "windows") || same_text(target_os, "android") {
            AssetBase::HttpLocalhost
        } else {
            AssetBase::AssetScheme
        }
    }

    /// The scheme and host that every URL of this family starts with.
    pub fn prefix(self) -> (prefix: &'static str)
        ensures
            prefix@ == self.spec_prefix(),
    {
        match self {
            AssetBase::HttpLocalhost => "http://asset.localhost/",
            AssetBase::AssetScheme => "asset://localhost/",
        }
    }
}

/// The bytes that percent-encoding leaves as they are: ASCII letters and
/// digits, `-`, `.`, `_` and `~`.
pub open spec fn is_unreserved(byte: u8) -> bool {
    ||| 0x30 <= byte <= 0x39
    ||| 0x41 <= byte <= 0x5a
    ||| 0x61 <= byte <= 0x7a
    ||| byte == 0x2d
    ||| byte == 0x2e
    ||| byte == 0x5f
    ||| byte == 0x7e
}

/// The upper-case hexadecimal digit for a value below 16.
pub open spec fn hex_upper(nibble: int) -> char {
    if nibble < 10 {
        (0x30 + nibble) as char
    } else {
        (0x41 + nibble - 10) as char
    }
}

/// One byte, percent-encoded: itself if unreserved, else `%` and its two
/// upper-case hexadecimal digits.
pub open spec fn encoded_byte(byte: u8) -> Seq<char> {
    if is_unreserved(byte) {
        seq![byte as char]
    } else {
        seq!['%', hex_upper(byte as int / 16), hex_upper(byte as int % 16)]
    }
}

/// A byte string, percent-encoded byte by byte.
pub open spec fn percent_encoded(bytes: Seq<u8>) -> Seq<char>
    decreases bytes.len(),
{
    if bytes.len() == 0 {
        Seq::empty()
    } else {
        encoded_byte(bytes.first()) + percent_encoded(bytes.drop_first())
    }
}

/// The asset URL of a canonical path: the family's prefix, then the path's
/// UTF-8 bytes percent-encoded.
pub open spec fn asset_url(base: AssetBase, path: Seq<char>) -> Seq<char> {
    base.spec_prefix() + percent_encoded(encode_utf8(path))
}

/// Percent-encodes a string with `urlencoding::encode`.
///
/// Trusted: the result is the input's UTF-8 bytes, each one kept if it is an
/// ASCII letter, a digit or one of `-._~`, and else replaced by `%` and two
/// upper-case hexadecimal digits.
#[verifier::external_body]
fn percent_encode(text: &str) -> (encoded: String)
    ensures
        encoded@ == percent_encoded(encode_utf8(text@)),
{
    urlencoding::encode(text).into_owned()
}

/// The text of the asset URL for a canonical path.
pub fn asset_url_text(base: AssetBase, path: &str) -> (url: String)
    ensures
        url@ == asset_url(base, path@),
{
    let encoded = percent_encode(path);
    let mut url = base.prefix().to_owned();
    url.append(encoded.as_str());
    url
}

/// A parsed URL of the `url` crate. Opaque here: this module only needs to
/// know whether the parser accepted a text.
#[verifier::external_type_specification]
#[verifier::external_body]
pub struct ExUrl(url::Url);

/// The reason for which the `url` crate's parser rejects a text.
#[verifier::external_type_specification]
#[verifier::external_body]
pub struct ExUrlParseError(url::ParseError);

/// Whether `url::Url::parse` accepts a text as an absolute URL.
pub uninterp spec fn url_parser_accepts(text: Seq<char>) -> bool;

/// Trusted: `url::Url::parse` decides from the text alone, so it returns `Ok`
/// exactly on the texts that `url_parser_accepts` names. Nothing is claimed
/// of the parsed value or of the error.
pub assume_specification[ url::Url::parse ](input: &str) -> (parsed: Result<
    url::Url,
    url::ParseError,
>)
    ensures
        parsed is Ok <==> url_parser_accepts(input@),
;

/// What resolving a path gives, from the outcome of canonicalization and the
/// URL parser's verdict on the text that was built.
pub open spec fn resolved(
    base: AssetBase,
    canonical: Result<Seq<char>, PathFailure>,
) -> Result<Seq<char>, ApiError> {
    match canonical {
        Err(failure) => Err(failure.reported_as()),
        Ok(path) => if url_parser_accepts(asset_url(base, path)) {
            Ok(asset_url(base, path))
        } else {
            Err(ApiError::Internal)
        },
    }
}

/// A canonicalization outcome with the path taken as its characters.
pub open spec fn canonical_view(canonical: Result<String, PathFailure>) -> Result<
    Seq<char>,
    PathFailure,
> {
    match canonical {
        Ok(path) => Ok(path@),
        Err(failure) => Err(failure),
    }
}

/// A resolution outcome with the URL taken as its characters.
pub open spec fn resolution_view(outcome: Result<String, ApiError>) -> Result<
    Seq<char>,
    ApiError,
> {
    match outcome {
        Ok(url) => Ok(url@),
        Err(error) => Err(error),
    }
}

/// Settles a resolution once the URL parser has seen `text`: the text
/// itself if the parser took it for a URL, else `Internal`. The URL that is
/// handed on is the text as it was built, character for character.
pub fn checked_asset_url(text: String, parsed: Result<url::Url, url::ParseError>) -> (outcome:
    Result<String, ApiError>)
    ensures
        parsed is Ok ==> outcome == Ok::<String, ApiError>(text),
        parsed is Err ==> outcome == Err::<String, ApiError>(ApiError::Internal),
{
    match parsed {
        Ok(_) => Ok(text),
        Err(_) => Err(ApiError::Internal),
    }
}

/// Converts a file path into the URL under which the UI can load the file.
///
/// `canonical` is what canonicalizing the path gave: the absolute path with
/// symlinks resolved, or the reason why the file system refused. A refusal
/// is passed on under the error of its kind. Otherwise the URL is
/// `base`'s prefix followed by the percent-encoded path, provided that the
/// URL parser accepts that text; if it does not, the error is `Internal`.
///
/// The outcome depends on the two arguments alone, so resolving the same
/// path again gives the same URL as long as the file system canonicalizes
/// it to the same path.
pub fn tauri_convert_file_src(base: AssetBase, canonical: Result<String, PathFailure>) -> (outcome:
    Result<String, ApiError>)
    ensures
        resolution_view(outcome) == resolved(base, canonical_view(canonical)),
        outcome matches Ok(url) ==> is_asset_url_of(url@, base),
{
    match canonical {
        Err(failure) => Err(failure.into_error()),
        Ok(path) => {
            let text = asset_url_text(base, path.as_str());
            proof {
                lemma_asset_url_shape(base, path@);
            }
            let parsed = url::Url::parse(text.as_str());
            checked_asset_url(text, parsed)
        },
    }
}

/// Resolving is repeatable: two outcomes for the same family and the same
/// canonical path are the same answer.
pub proof fn lemma_resolution_is_repeatable(
    base: AssetBase,
    canonical: Result<String, PathFailure>,
    first: Result<String, ApiError>,
    second: Result<String, ApiError>,
)
    requires
        resolution_view(first) == resolved(base, canonical_view(canonical)),
        resolution_view(second) == resolved(base, canonical_view(canonical)),
    ensures
        resolution_view(first) == resolution_view(second),
{
}

/// A path separator of either kind.
pub open spec fn is_separator(c: char) -> bool {
    c == '/' || c == '\\'
}

/// Whether `text` begins with `prefix`.
pub open spec fn starts_with(text: Seq<char>, prefix: Seq<char>) -> bool {
    prefix.len() <= text.len() && text.subrange(0, prefix.len() as int) == prefix
}

/// The shape of an asset URL of the family `base`: it starts with that
/// family's prefix and not with the other's, and no path separator follows
/// the prefix.
pub open spec fn is_asset_url_of(text: Seq<char>, base: AssetBase) -> bool {
    &&& starts_with(text, base.spec_prefix())
    &&& !starts_with(text, base.other().spec_prefix())
    &&& forall|i: int|
        base.spec_prefix().len() <= i < text.len() ==> !is_separator(#[trigger] text[i])
}

/// Percent-encoding leaves no path separator behind.
pub proof fn lemma_percent_encoded_has_no_separator(bytes: Seq<u8>)
    ensures
        forall|i: int|
            0 <= i < percent_encoded(bytes).len() ==> !is_separator(
                #[trigger] percent_encoded(bytes)[i],
            ),
    decreases bytes.len(),
{
    if bytes.len() > 0 {
        let head = encoded_byte(bytes.first());
        let tail = percent_encoded(bytes.drop_first());
        lemma_percent_encoded_has_no_separator(bytes.drop_first());
        assert forall|i: int| 0 <= i < percent_encoded(bytes).len() implies !is_separator(
            #[trigger] percent_encoded(bytes)[i],
        ) by {
            if i < head.len() {
                assert(percent_encoded(bytes)[i] == head[i]);
            } else {
                assert(percent_encoded(bytes)[i] == tail[i - head.len()]);
            }
        }
    }
}

/// Every asset URL has the shape of its family, whatever the path: it starts
/// with exactly one of the two prefixes, and the encoded path that follows
/// holds no raw path separator.
pub proof fn lemma_asset_url_shape(base: AssetBase, path: Seq<char>)
    ensures
        is_asset_url_of(asset_url(base, path), base),
{
    reveal_strlit("http://asset.localhost/");
    reveal_strlit("asset://localhost/");
    let prefix = base.spec_prefix();
    let other = base.other().spec_prefix();
    let encoded = percent_encoded(encode_utf8(path));
    let text = asset_url(base, path);
    lemma_percent_encoded_has_no_separator(encode_utf8(path));
    assert(text.subrange(0, prefix.len() as int) =~= prefix);
    assert(prefix[0] != other[0]);
    if starts_with(text, other) {
        assert(text.subrange(0, other.len() as int)[0] == text[0]);
    }
    assert forall|i: int| prefix.len() <= i < text.len() implies !is_separator(
        #[trigger] text[i],
    ) by {
        assert(text[i] == encoded[i - prefix.len()]);
    }
}

/// Percent-encoding loses nothing: two byte strings with the same encoding
/// are the same byte string.
pub proof fn lemma_percent_encoding_is_injective(a: Seq<u8>, b: Seq<u8>)
    requires
        percent_encoded(a) == percent_encoded(b),
    ensures
        a == b,
    decreases a.len(),
{
    if a.len() == 0 {
        if b.len() > 0 {
            assert(percent_encoded(b).len() >= encoded_byte(b.first()).len());
        }
        assert(a =~= b);
    } else {
        let x = a.first();
        let head_a = encoded_byte(x);
        let tail_a = percent_encoded(a.drop_first());
        assert(percent_encoded(a).len() >= head_a.len());
        assert(b.len() > 0);
        let y = b.first();
        let head_b = encoded_byte(y);
        let tail_b = percent_encoded(b.drop_first());
        assert(percent_encoded(a)[0] == head_a[0]);
        assert(percent_encoded(b)[0] == head_b[0]);
        if is_unreserved(x) {
            assert(is_unreserved(y));
            assert(x == y);
        } else {
            assert(!is_unreserved(y));
            assert(percent_encoded(a)[1] == head_a[1]);
            assert(percent_encoded(b)[1] == head_b[1]);
            assert(percent_encoded(a)[2] == head_a[2]);
            assert(percent_encoded(b)[2] == head_b[2]);
            assert(x as int / 16 == y as int / 16);
            assert(x as int % 16 == y as int % 16);
            assert(x == y);
        }
        assert(head_a == head_b);
        assert(tail_a =~= percent_encoded(a).subrange(
            head_a.len() as int,
            percent_encoded(a).len() as int,
        ));
        assert(tail_b =~= percent_encoded(b).subrange(
            head_b.len() as int,
            percent_encoded(b).len() as int,
        ));
        lemma_percent_encoding_is_injective(a.drop_first(), b.drop_first());
        assert(a =~= seq![x] + a.drop_first());
        assert(b =~= seq![y] + b.drop_first());
    }
}

/// The mapping from paths to asset URLs can be undone: within one family,
/// two paths with the same URL are the same path.
pub proof fn lemma_asset_url_is_injective(base: AssetBase, p: Seq<char>, q: Seq<char>)
    requires
        asset_url(base, p) == asset_url(base, q),
    ensures
        p == q,
{
    let prefix = base.spec_prefix();
    let encoded_p = percent_encoded(encode_utf8(p));
    let encoded_q = percent_encoded(encode_utf8(q));
    assert(encoded_p =~= asset_url(base, p).subrange(
        prefix.len() as int,
        asset_url(base, p).len() as int,
    ));
    assert(encoded_q =~= asset_url(base, q).subrange(
        prefix.len() as int,
        asset_url(base, q).len() as int,
    ));
    lemma_percent_encoding_is_injective(encode_utf8(p), encode_utf8(q));
    encode_utf8_decode_utf8(p);
    encode_utf8_decode_utf8(q);
}

} // verus!
