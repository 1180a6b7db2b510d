//! Response materialization: an immutable value capturing one HTTP
//! response, and the decoding of its body under the charset its
//! `content-type` header declares, falling back to UTF-8.

use vstd::prelude::*;

verus! {

/// Immutable materialized HTTP result: final URL after redirects, optional
/// declared content length, the header list (names lowercased by the
/// transport), status code, and the raw body bytes. Header order is the
/// order the transport delivered; a lookup takes the first match.
#[derive(Debug)]
pub struct Respond {
    pub url: String,
    pub content_length: Option<u64>,
    pub headers: Vec<(String, String)>,
    pub status: u16,
    pub bytes: Vec<u8>,
}

/// The value of the first header with the given name, if any.
pub open spec fn spec_header_lookup(
    headers: Seq<(Seq<char>, Seq<char>)>,
    name: Seq<char>,
) -> Option<Seq<char>>
    decreases headers.len(),
{
    if headers.len() == 0 {
        None
    } else if headers.first().0 == name {
        Some(headers.first().1)
    } else {
        spec_header_lookup(headers.drop_first(), name)
    }
}

/// The `charset` parameter of a `content-type` header value parsed under
/// the MIME grammar, or `None` when the value does not parse as a MIME
/// type or carries no such parameter.
pub uninterp spec fn charset_param(content_type: Seq<char>) -> Option<Seq<char>>;

/// The text that the body bytes decode to under the charset label: the
/// label is resolved case-insensitively to an encoding of the Encoding
/// Standard, unknown labels fall back to UTF-8, a leading byte-order mark
/// overrides the label, and malformed sequences are replaced with the
/// replacement character, so decoding never fails.
pub uninterp spec fn decoded_text(label: Seq<char>, bytes: Seq<u8>) -> Seq<char>;

/// Relies on str::parse::<mime::Mime> and mime::Mime::get_param: the
/// `charset` parameter of a content-type value, if the value parses and
/// has one.
#[verifier::external_body]
fn content_type_charset(content_type: &str) -> (r: Option<String>)
    ensures
        r.deep_view() == charset_param(content_type@),
{
    match content_type.parse::<mime::Mime>() {
        Ok(m) => m.get_param("charset").map(|c| c.as_str().to_string()),
        Err(_) => None,
    }
}

/// Whether the charset label resolves, case-insensitively, to an encoding
/// of the Encoding Standard; a pure function of the label text.
pub uninterp spec fn label_known(label: Seq<char>) -> bool;

/// No byte-order mark the decoder sniffs for stands at the front: neither
/// the UTF-8 mark nor either UTF-16 mark.
pub open spec fn spec_no_bom(bytes: Seq<u8>) -> bool {
    &&& !(bytes.len() >= 3 && bytes[0] == 0xEF && bytes[1] == 0xBB && bytes[2] == 0xBF)
    &&& !(bytes.len() >= 2 && bytes[0] == 0xFF && bytes[1] == 0xFE)
    &&& !(bytes.len() >= 2 && bytes[0] == 0xFE && bytes[1] == 0xFF)
}

/// Relies on encoding_rs::Encoding::for_label (falling back to UTF-8 for
/// an unknown label) and encoding_rs::Encoding::decode (lossy, with BOM
/// sniffing): the body decoded under the labelled charset. An unknown
/// label falls back to UTF-8. Under the
/// `utf-8` label, on input free of a byte-order mark, decode implements
/// the WHATWG UTF-8 decode, which on valid UTF-8 is the identity.
#[verifier::external_body]
fn decode_with_label(label: &str, bytes: &[u8]) -> (r: String)
    ensures
        r@ == decoded_text(label@, bytes@),
        bytes@.len() == 0 ==> r@.len() == 0,
        label@ == "utf-8"@ && spec_no_bom(bytes@) && vstd::utf8::valid_utf8(bytes@) ==> r@
            == vstd::utf8::decode_utf8(bytes@),
        !label_known(label@) ==> r@ == decoded_text("utf-8"@, bytes@),
{
    let encoding = encoding_rs::Encoding::for_label(label.as_bytes()).unwrap_or(encoding_rs::UTF_8);
    let (text, _, _) = encoding.decode(bytes);
    text.into_owned()
}

/// The charset label a response's headers select: the `charset` parameter
/// of the `content-type` header when present, `utf-8` when the header or
/// the parameter is absent or unparseable.
pub open spec fn spec_charset_label(headers: Seq<(Seq<char>, Seq<char>)>) -> Seq<char> {
    match spec_header_lookup(headers, "content-type"@) {
        Some(ct) => match charset_param(ct) {
            Some(cs) => cs,
            None => "utf-8"@,
        },
        None => "utf-8"@,
    }
}

/// Find the first header with the given name.
pub fn find_header<'a>(headers: &'a Vec<(String, String)>, name: &String) -> (r: Option<&'a String>)
    ensures
        match r {
            Some(v) => spec_header_lookup(headers.deep_view(), name@) == Some(v@),
            None => spec_header_lookup(headers.deep_view(), name@) is None,
        },
{
    let ghost all = headers.deep_view();
    proof {
        assert(all.skip(0) =~= all);
    }
    let mut i: usize = 0;
    while i < headers.len()
        invariant
            0 <= i <= headers.len(),
            all == headers.deep_view(),
            spec_header_lookup(all, name@) == spec_header_lookup(all.skip(i as int), name@),
        decreases headers.len() - i,
    {
        proof {
            assert(all.skip(i as int).first() == all[i as int]);
            assert(all.skip(i as int).drop_first() =~= all.skip(i as int + 1));
        }
        if headers[i].0 == *name {
            return Some(&headers[i].1);
        }
        i = i + 1;
    }
    None
}

impl Respond {
    /// The decoded text of this response's body.
    pub open spec fn spec_text(&self) -> Seq<char> {
        decoded_text(spec_charset_label(self.headers.deep_view()), self.bytes@)
    }

    /// Materialize a response from what the transport handed back. Only
    /// body retrieval can have failed; in that case there is no response
    /// and the caller abandons the visit.
    pub fn from_parts(
        url: String,
        content_length: Option<u64>,
        headers: Vec<(String, String)>,
        status: u16,
        bytes: Option<Vec<u8>>,
    ) -> (r: Option<Respond>)
        ensures
            match bytes {
                Some(b) => r matches Some(resp) && resp.url@ == url@ && resp.content_length
                    == content_length && resp.headers.deep_view() == headers.deep_view()
                    && resp.status == status && resp.bytes@ == b@,
                None => r is None,
            },
    {
        match bytes {
            Some(b) => Some(
                Respond { url, content_length, headers, status, bytes: b },
            ),
            None => None,
        }
    }

    /// Decode the body: pick the charset the headers declare, defaulting
    /// to UTF-8, and decode the bytes under it with lossy substitution.
    /// Decoding never fails. When the headers select UTF-8 and the body
    /// is valid UTF-8 without a byte-order mark, the result is exactly
    /// the string those bytes encode.
    pub fn text(&self) -> (r: String)
        ensures
            r@ == self.spec_text(),
            spec_charset_label(self.headers.deep_view()) == "utf-8"@ && spec_no_bom(self.bytes@)
                && vstd::utf8::valid_utf8(self.bytes@) ==> r@ == vstd::utf8::decode_utf8(
                self.bytes@,
            ),
            !label_known(spec_charset_label(self.headers.deep_view())) ==> r@ == decoded_text(
                "utf-8"@,
                self.bytes@,
            ),
    {
        let content_type_name: String = "content-type".to_owned();
        let label: String = match find_header(&self.headers, &content_type_name) {
            Some(ct) => match content_type_charset(ct.as_str()) {
                Some(cs) => cs,
                None => "utf-8".to_owned(),
            },
            None => "utf-8".to_owned(),
        };
        decode_with_label(label.as_str(), self.bytes.as_slice())
    }
}

/// Law: a response whose headers carry no `content-type`, or whose
/// `content-type` declares no charset, is decoded as UTF-8.
pub proof fn lemma_decode_defaults_to_utf8(headers: Seq<(Seq<char>, Seq<char>)>)
    ensures
        spec_header_lookup(headers, "content-type"@) is None ==> spec_charset_label(headers)
            == "utf-8"@,
        spec_header_lookup(headers, "content-type"@) matches Some(ct) && charset_param(ct)
            is None ==> spec_charset_label(headers) == "utf-8"@,
{
}

/// Law: the UTF-8 round trip. The UTF-8 encoding of any string is valid
/// UTF-8 and decodes back to the identical string — so a response whose
/// headers select UTF-8 and whose body is such an encoding (without a
/// byte-order mark) yields, through `text`, exactly the encoded string.
pub proof fn lemma_utf8_round_trip(chars: Seq<char>)
    ensures
        vstd::utf8::valid_utf8(vstd::utf8::encode_utf8(chars)),
        vstd::utf8::decode_utf8(vstd::utf8::encode_utf8(chars)) == chars,
{
    vstd::utf8::encode_utf8_valid_utf8(chars);
    vstd::utf8::encode_utf8_decode_utf8(chars);
}

/// Law: when the `content-type` header declares a charset, that charset
/// is exactly the label the body is decoded under.
pub proof fn lemma_declared_charset_used(headers: Seq<(Seq<char>, Seq<char>)>)
    ensures
        match spec_header_lookup(headers, "content-type"@) {
            Some(ct) => match charset_param(ct) {
                Some(cs) => spec_charset_label(headers) == cs,
                None => true,
            },
            None => true,
        },
{
}

} // verus!
