//! Data URIs: `data:<mime>;base64,<payload>` text around base64-encoded bytes.

use vstd::prelude::*;
use vstd::string::*;
use vstd::utf8::*;

verus! {

broadcast use is_ascii_chars_encode_utf8;

#[verifier::external_type_specification]
#[verifier::external_body]
pub struct ExDecodeError(base64::DecodeError);

/// The standard base64 text (with `=` padding) of a byte string.
pub uninterp spec fn base64_text(bytes: Seq<u8>) -> Seq<char>;

/// What standard base64 decoding gives for a text, if the text is valid.
pub uninterp spec fn base64_decoded(text: Seq<u8>) -> Option<Seq<u8>>;

/// A character of the standard base64 alphabet, or the padding `=`.
pub open spec fn is_base64_char(c: char) -> bool {
    ('A' <= c <= 'Z') || ('a' <= c <= 'z') || ('0' <= c <= '9') || c == '+' || c == '/' || c == '='
}

/// Relies on base64's `encode` (standard alphabet with padding): the text depends
/// on the bytes alone and holds only alphabet characters and `=`.
#[verifier::external_body]
fn base64_encode(bytes: &[u8]) -> (r: String)
    ensures
        r@ == base64_text(bytes@),
        forall|i: int| 0 <= i < r@.len() ==> is_base64_char(#[trigger] r@[i]),
{
    base64::encode(bytes)
}

/// Relies on base64's `decode` (standard alphabet): the result depends on the
/// text alone, and the text that `encode` gives for some bytes decodes back to
/// those bytes.
#[verifier::external_body]
fn base64_decode(text: &[u8]) -> (r: Result<Vec<u8>, base64::DecodeError>)
    ensures
        r is Ok <==> base64_decoded(text@) is Some,
        r is Ok ==> r->Ok_0@ == base64_decoded(text@)->0,
        forall|b: Seq<u8>| encode_utf8(#[trigger] base64_text(b)) == text@ ==> (r is Ok && r->Ok_0@ == b),
{
    base64::decode(text)
}

/// The text of the data URI of an image in the format named `format`.
pub open spec fn image_data_uri(format: Seq<char>, bytes: Seq<u8>) -> Seq<char> {
    "data:image/"@ + format + ";base64,"@ + base64_text(bytes)
}

/// The text of the data URI of a font; the MIME type is the same for every font.
pub open spec fn font_data_uri(bytes: Seq<u8>) -> Seq<char> {
    "data:application/x-font-woff;base64,"@ + base64_text(bytes)
}

/// The marker `base64,` starts at byte `i` of `s`.
pub open spec fn marker_at(s: Seq<u8>, i: int) -> bool {
    &&& 0 <= i
    &&& i + 7 <= s.len()
    &&& s[i] == 98u8
    &&& s[i + 1] == 97u8
    &&& s[i + 2] == 115u8
    &&& s[i + 3] == 101u8
    &&& s[i + 4] == 54u8
    &&& s[i + 5] == 52u8
    &&& s[i + 6] == 44u8
}

/// The first position at or after `i` where the marker starts.
pub open spec fn marker_from(s: Seq<u8>, i: int) -> Option<int>
    decreases s.len() - i,
{
    if i < 0 || i + 7 > s.len() {
        None
    } else if marker_at(s, i) {
        Some(i)
    } else {
        marker_from(s, i + 1)
    }
}

/// The payload of a data URI: what follows the first marker, or, when there is
/// no marker, the whole text.
pub open spec fn data_uri_payload(s: Seq<u8>) -> Seq<u8> {
    match marker_from(s, 0) {
        Some(i) => s.subrange(i + 7, s.len() as int),
        None => s,
    }
}

pub fn to_image_data_uri(format: &str, bytes: &[u8]) -> (r: String)
    ensures
        r@ == image_data_uri(format@, bytes@),
{
    let encoded = base64_encode(bytes);
    let mut uri = String::from_str("data:image/");
    uri.append(format);
    uri.append(";base64,");
    uri.append(encoded.as_str());
    uri
}

pub fn to_font_data_uri(bytes: &[u8]) -> (r: String)
    ensures
        r@ == font_data_uri(bytes@),
{
    let encoded = base64_encode(bytes);
    let mut uri = String::from_str("data:application/x-font-woff;base64,");
    uri.append(encoded.as_str());
    uri
}

/// Position of the first marker in `s`, if any.
fn find_marker(s: &[u8]) -> (r: Option<usize>)
    ensures
        r matches Some(i) ==> marker_from(s@, 0) == Some(i as int) && i + 7 <= s@.len(),
        r is None ==> marker_from(s@, 0) is None,
{
    let n = s.len();
    if n < 7 {
        return None;
    }
    let mut i: usize = 0;
    while i <= n - 7
        invariant
            n == s@.len(),
            n >= 7,
            i <= n - 6,
            marker_from(s@, 0) == marker_from(s@, i as int),
        decreases n - i,
    {
        if s[i] == 98u8 && s[i + 1] == 97u8 && s[i + 2] == 115u8 && s[i + 3] == 101u8
            && s[i + 4] == 54u8 && s[i + 5] == 52u8 && s[i + 6] == 44u8 {
            return Some(i);
        }
        i = i + 1;
    }
    None
}

/// Decodes the base64 payload of a data URI. The payload is what follows the
/// first `base64,`; a text without that marker is decoded whole.
pub fn from_data_uri(data_uri: &str) -> (r: Result<Vec<u8>, base64::DecodeError>)
    ensures
        r is Ok <==> base64_decoded(data_uri_payload(data_uri.spec_bytes())) is Some,
        r is Ok ==> r->Ok_0@ == base64_decoded(data_uri_payload(data_uri.spec_bytes()))->0,
        forall|b: Seq<u8>|
            encode_utf8(#[trigger] base64_text(b)) == data_uri_payload(data_uri.spec_bytes()) ==> (
            r is Ok && r->Ok_0@ == b),
{
    let bytes = data_uri.as_bytes();
    let n = bytes.len();
    let payload = match find_marker(bytes) {
        Some(i) => vstd::slice::slice_subrange(bytes, i + 7, n),
        None => bytes,
    };
    base64_decode(payload)
}

proof fn lemma_encode_utf8_concat(a: Seq<char>, b: Seq<char>)
    ensures
        encode_utf8(a + b) == encode_utf8(a) + encode_utf8(b),
    decreases a.len(),
{
    if a.len() == 0 {
        assert(a + b =~= b);
        assert(encode_utf8(a) + encode_utf8(b) =~= encode_utf8(b));
    } else {
        assert((a + b).drop_first() =~= a.drop_first() + b);
        lemma_encode_utf8_concat(a.drop_first(), b);
        assert(encode_utf8(a + b) =~= encode_utf8(a) + encode_utf8(b));
    }
}

proof fn lemma_no_marker(s: Seq<u8>, i: int, k: int)
    requires
        0 <= i <= k,
        marker_from(s, i) is None,
    ensures
        !marker_at(s, k),
    decreases k - i,
{
    if i + 7 <= s.len() && i < k {
        lemma_no_marker(s, i + 1, k);
    }
}

proof fn lemma_marker_skip(s: Seq<u8>, i: int, k: int)
    requires
        0 <= i <= k,
        k + 7 <= s.len(),
        forall|j: int| i <= j < k ==> !marker_at(s, j),
    ensures
        marker_from(s, i) == marker_from(s, k),
    decreases k - i,
{
    if i < k {
        lemma_marker_skip(s, i + 1, k);
    }
}

/// The data URI of an image decodes back to the image's bytes. The payload
/// that decoding finds in the URI is exactly the base64 text that encoding wrote,
/// provided the format's name holds no `base64,` of its own; `from_data_uri`
/// then returns the bytes, since base64 text decodes to the bytes it encodes.
pub proof fn lemma_image_data_uri_round_trip(format: Seq<char>, bytes: Seq<u8>)
    requires
        marker_from(encode_utf8(format), 0) is None,
    ensures
        data_uri_payload(encode_utf8(image_data_uri(format, bytes))) == encode_utf8(
            base64_text(bytes),
        ),
{
    let p = "data:image/"@;
    let m = ";base64,"@;
    let t = base64_text(bytes);
    reveal_strlit("data:image/");
    reveal_strlit(";base64,");
    assert(is_ascii_chars(p));
    assert(is_ascii_chars(m));
    lemma_encode_utf8_concat(p, format);
    lemma_encode_utf8_concat(p + format, m);
    lemma_encode_utf8_concat(p + format + m, t);
    let pb = encode_utf8(p);
    let fb = encode_utf8(format);
    let mb = encode_utf8(m);
    let tb = encode_utf8(t);
    let s = encode_utf8(image_data_uri(format, bytes));
    assert(s == pb + fb + mb + tb);
    assert(pb.len() == 11);
    assert(mb.len() == 8);
    let i0: int = 11 + fb.len() as int + 1;
    assert forall|j: int| 0 <= j < i0 implies !marker_at(s, j) by {
        if marker_at(s, j) {
            if j + 6 < 11 {
                assert(s[j + 6] == pb[j + 6]);
            } else if j < 11 {
                assert(s[10] == pb[10]);
                assert(pb[10] == 47u8);
            } else if j + 6 < 11 + fb.len() {
                lemma_no_marker(fb, 0, j - 11);
                assert forall|k: int| 0 <= k < 7 implies #[trigger] s[j + k] == fb[j - 11 + k] by {}
            } else {
                assert(s[j + 6] == mb[j + 6 - 11 - fb.len()]);
            }
        }
    }
    assert(marker_at(s, i0)) by {
        assert forall|k: int| 0 <= k < 7 implies #[trigger] s[i0 + k] == mb[k + 1] by {}
    }
    lemma_marker_skip(s, 0, i0);
    assert(s.subrange(i0 + 7, s.len() as int) =~= tb);
}

} // verus!
