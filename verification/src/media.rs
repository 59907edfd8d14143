//! Media protocol request logic: turning a scheme URI into a filesystem
//! path (percent-decoding included) and shaping the HTTP-style response
//! for the bytes that were read, or a 404 when the read failed.
//!
//! URIs and paths are handled as their UTF-8 bytes.
use crate::decimal::dec_chars;
use crate::decimal::dec_string;
use crate::paths::SLASH;
use vstd::prelude::*;
use vstd::string::StringExecFns;
use vstd::utf8::valid_utf8;

verus! {

pub const PERCENT: u8 = 37;

pub const COLON: u8 = 58;

/// `p` is a prefix of `s`.
pub open spec fn is_prefix(p: Seq<u8>, s: Seq<u8>) -> bool {
    p.len() <= s.len() && p == s.subrange(0, p.len() as int)
}

/// `p` is a suffix of `s`.
pub open spec fn is_suffix(p: Seq<u8>, s: Seq<u8>) -> bool {
    p.len() <= s.len() && p == s.subrange(s.len() - p.len(), s.len() as int)
}

fn starts_with(s: &[u8], p: &[u8]) -> (r: bool)
    ensures
        r == is_prefix(p@, s@),
{
    if p.len() > s.len() {
        return false;
    }
    let mut i: usize = 0;
    while i < p.len()
        invariant
            i <= p@.len() <= s@.len(),
            forall|j: int| 0 <= j < i ==> p@[j] == s@[j],
        decreases p@.len() - i,
    {
        if s[i] != p[i] {
            proof {
                assert(s@.subrange(0, p@.len() as int)[i as int] != p@[i as int]);
            }
            return false;
        }
        i = i + 1;
    }
    proof {
        assert(p@ =~= s@.subrange(0, p@.len() as int));
    }
    true
}

fn ends_with(s: &[u8], p: &[u8]) -> (r: bool)
    ensures
        r == is_suffix(p@, s@),
{
    if p.len() > s.len() {
        return false;
    }
    let off: usize = s.len() - p.len();
    let mut i: usize = 0;
    while i < p.len()
        invariant
            i <= p@.len() <= s@.len(),
            off == s@.len() - p@.len(),
            forall|j: int| 0 <= j < i ==> p@[j] == s@[off + j],
        decreases p@.len() - i,
    {
        let n: usize = s.len();
        proof {
            assert(off + i < n);
        }
        if s[off + i] != p[i] {
            proof {
                let sub = s@.subrange(s@.len() - p@.len(), s@.len() as int);
                assert(sub[i as int] != p@[i as int]);
            }
            return false;
        }
        i = i + 1;
    }
    proof {
        assert(p@ =~= s@.subrange(s@.len() - p@.len(), s@.len() as int));
    }
    true
}

/// The bytes of `audio://localhost/`: the scheme, the localhost authority
/// and the separator before the percent-encoded absolute path.
pub open spec fn audio_localhost_prefix() -> Seq<u8> {
    seq![
        97u8,
        117u8,
        100u8,
        105u8,
        111u8,
        58u8,
        47u8,
        47u8,
        108u8,
        111u8,
        99u8,
        97u8,
        108u8,
        104u8,
        111u8,
        115u8,
        116u8,
        47u8,
    ]
}

/// The bytes of `localhost`.
pub open spec fn localhost_label() -> Seq<u8> {
    seq![108u8, 111u8, 99u8, 97u8, 108u8, 104u8, 111u8, 115u8, 116u8]
}

fn localhost_label_bytes() -> (r: Vec<u8>)
    ensures
        r@ == localhost_label(),
{
    let mut v: Vec<u8> = Vec::new();
    v.push(108);
    v.push(111);
    v.push(99);
    v.push(97);
    v.push(108);
    v.push(104);
    v.push(111);
    v.push(115);
    v.push(116);
    proof {
        assert(v@ =~= localhost_label());
    }
    v
}

fn audio_localhost_prefix_bytes() -> (r: Vec<u8>)
    ensures
        r@ == audio_localhost_prefix(),
{
    let mut v: Vec<u8> = Vec::new();
    v.push(97);
    v.push(117);
    v.push(100);
    v.push(105);
    v.push(111);
    v.push(58);
    let mut rest = localhost_label_bytes();
    v.push(47);
    v.push(47);
    v.append(&mut rest);
    v.push(47);
    proof {
        assert(v@ =~= audio_localhost_prefix());
    }
    v
}

/// Everything after the first `://` of `s`, or empty if there is none.
pub open spec fn after_scheme_sep(s: Seq<u8>) -> Seq<u8>
    decreases s.len(),
{
    if s.len() < 3 {
        Seq::<u8>::empty()
    } else if s[0] == COLON && s[1] == SLASH && s[2] == SLASH {
        s.skip(3)
    } else {
        after_scheme_sep(s.skip(1))
    }
}

/// The percent-encoded part of a request URI: the remainder after the
/// `audio://localhost/` prefix when the URI carries it, otherwise whatever
/// follows the first `://` with one leading `localhost` stripped.
pub open spec fn encoded_part(uri: Seq<u8>) -> Seq<u8> {
    if is_prefix(audio_localhost_prefix(), uri) {
        uri.skip(audio_localhost_prefix().len() as int)
    } else {
        let rest = after_scheme_sep(uri);
        if is_prefix(localhost_label(), rest) {
            rest.skip(localhost_label().len() as int)
        } else {
            rest
        }
    }
}

fn strip_localhost(rest: &[u8]) -> (r: Vec<u8>)
    ensures
        r@ == if is_prefix(localhost_label(), rest@) {
            rest@.skip(localhost_label().len() as int)
        } else {
            rest@
        },
{
    let label = localhost_label_bytes();
    if starts_with(rest, label.as_slice()) {
        let out = vstd::slice::slice_to_vec(&rest[9..rest.len()]);
        proof {
            assert(rest@.subrange(9, rest@.len() as int) =~= rest@.skip(9));
        }
        out
    } else {
        vstd::slice::slice_to_vec(rest)
    }
}

/// Extracts the percent-encoded part of a request URI.
pub fn media_encoded_part(uri: &[u8]) -> (r: Vec<u8>)
    ensures
        r@ == encoded_part(uri@),
{
    let prefix = audio_localhost_prefix_bytes();
    if starts_with(uri, prefix.as_slice()) {
        let out = vstd::slice::slice_to_vec(&uri[18..uri.len()]);
        proof {
            assert(uri@.subrange(18, uri@.len() as int) =~= uri@.skip(18));
        }
        return out;
    }
    let mut i: usize = 0;
    proof {
        assert(uri@.skip(0) =~= uri@);
    }
    loop
        invariant
            i <= uri@.len(),
            after_scheme_sep(uri@) == after_scheme_sep(uri@.skip(i as int)),
            !is_prefix(audio_localhost_prefix(), uri@),
        decreases uri@.len() - i,
    {
        let n: usize = uri.len();
        if n < 3 || i > n - 3 {
            proof {
                assert(after_scheme_sep(uri@.skip(i as int)) =~= Seq::<u8>::empty());
                assert(!is_prefix(localhost_label(), Seq::<u8>::empty()));
            }
            return Vec::new();
        }
        if uri[i] == COLON && uri[i + 1] == SLASH && uri[i + 2] == SLASH {
            proof {
                assert(uri@.skip(i as int)[0] == uri@[i as int]);
                assert(uri@.skip(i as int)[1] == uri@[i + 1]);
                assert(uri@.skip(i as int)[2] == uri@[i + 2]);
                assert(uri@.skip(i as int).skip(3) =~= uri@.subrange(i + 3, uri@.len() as int));
            }
            let rest: &[u8] = &uri[i + 3..uri.len()];
            return strip_localhost(rest);
        }
        proof {
            assert(uri@.skip(i as int).skip(1) =~= uri@.skip(i + 1));
        }
        i = i + 1;
    }
}

/// A hexadecimal digit byte.
pub open spec fn is_hex_digit(b: u8) -> bool {
    (48 <= b <= 57) || (65 <= b <= 70) || (97 <= b <= 102)
}

/// The value of a hexadecimal digit byte.
pub open spec fn hex_val(b: u8) -> u8 {
    if 48 <= b <= 57 {
        (b - 48) as u8
    } else if 65 <= b <= 70 {
        (b - 55) as u8
    } else {
        (b - 87) as u8
    }
}

/// Percent-decoding: each `%` followed by two hexadecimal digits becomes
/// the byte they encode; every other byte (a lone or ill-formed `%`
/// included) is copied unchanged.
pub open spec fn percent_decoded(s: Seq<u8>) -> Seq<u8>
    decreases s.len(),
{
    if s.len() == 0 {
        Seq::<u8>::empty()
    } else if s[0] == PERCENT && s.len() >= 3 && is_hex_digit(s[1]) && is_hex_digit(s[2]) {
        seq![(hex_val(s[1]) * 16 + hex_val(s[2])) as u8] + percent_decoded(s.skip(3))
    } else {
        seq![s[0]] + percent_decoded(s.skip(1))
    }
}

/// Relies on urlencoding::decode_binary: each `%` followed by two
/// hexadecimal digits is replaced by the encoded byte; every other byte,
/// a `%` with no well-formed digit pair included, is copied unchanged.
#[verifier::external_body]
fn percent_decode(data: &[u8]) -> (r: Vec<u8>)
    ensures
        r@ == percent_decoded(data@),
{
    urlencoding::decode_binary(data).into_owned()
}

/// Relies on core::str::from_utf8: it returns Ok exactly when the byte
/// sequence is valid UTF-8.
#[verifier::external_body]
fn utf8_ok(data: &[u8]) -> (r: bool)
    ensures
        r == valid_utf8(data@),
{
    core::str::from_utf8(data).is_ok()
}

/// The decoded bytes when they form valid UTF-8; the raw encoded bytes
/// otherwise (a decode failure never fails the request).
pub open spec fn decoded_or_raw(enc: Seq<u8>) -> Seq<u8> {
    if valid_utf8(percent_decoded(enc)) {
        percent_decoded(enc)
    } else {
        enc
    }
}

/// The filesystem path a request URI names. With `strip_leading_separator`
/// (for platforms whose absolute paths are drive-letter rooted) one leading
/// separator is removed.
pub open spec fn media_path(uri: Seq<u8>, strip_leading_separator: bool) -> Seq<u8> {
    let p = decoded_or_raw(encoded_part(uri));
    if strip_leading_separator && p.len() > 0 && p[0] == SLASH {
        p.skip(1)
    } else {
        p
    }
}

/// A content type of the fixed suffix table.
#[derive(Clone, Copy, Debug, PartialEq, Eq, Structural)]
pub enum Mime {
    Mpeg,
    Wav,
    Mp4,
    Flac,
    Ogg,
    Aac,
    OctetStream,
}

/// The bytes of `.mp3`.
pub open spec fn ext_mp3() -> Seq<u8> {
    seq![46u8, 109u8, 112u8, 51u8]
}

/// The bytes of `.wav`.
pub open spec fn ext_wav() -> Seq<u8> {
    seq![46u8, 119u8, 97u8, 118u8]
}

/// The bytes of `.m4a`.
pub open spec fn ext_m4a() -> Seq<u8> {
    seq![46u8, 109u8, 52u8, 97u8]
}

/// The bytes of `.flac`.
pub open spec fn ext_flac() -> Seq<u8> {
    seq![46u8, 102u8, 108u8, 97u8, 99u8]
}

/// The bytes of `.ogg`.
pub open spec fn ext_ogg() -> Seq<u8> {
    seq![46u8, 111u8, 103u8, 103u8]
}

/// The bytes of `.aac`.
pub open spec fn ext_aac() -> Seq<u8> {
    seq![46u8, 97u8, 97u8, 99u8]
}

/// The fixed suffix table: the content type a path's extension names,
/// `application/octet-stream` for everything else.
pub open spec fn mime_of(path: Seq<u8>) -> Mime {
    if is_suffix(ext_mp3(), path) {
        Mime::Mpeg
    } else if is_suffix(ext_wav(), path) {
        Mime::Wav
    } else if is_suffix(ext_m4a(), path) {
        Mime::Mp4
    } else if is_suffix(ext_flac(), path) {
        Mime::Flac
    } else if is_suffix(ext_ogg(), path) {
        Mime::Ogg
    } else if is_suffix(ext_aac(), path) {
        Mime::Aac
    } else {
        Mime::OctetStream
    }
}

/// The label a content type is written as.
pub open spec fn mime_label_chars(m: Mime) -> Seq<char> {
    match m {
        Mime::Mpeg => "audio/mpeg"@,
        Mime::Wav => "audio/wav"@,
        Mime::Mp4 => "audio/mp4"@,
        Mime::Flac => "audio/flac"@,
        Mime::Ogg => "audio/ogg"@,
        Mime::Aac => "audio/aac"@,
        Mime::OctetStream => "application/octet-stream"@,
    }
}

fn push_ext(v: &mut Vec<u8>, a: u8, b: u8, c: u8)
    ensures
        final(v)@ == old(v)@ + seq![a, b, c],
{
    v.push(a);
    v.push(b);
    v.push(c);
    proof {
        assert(v@ =~= old(v)@ + seq![a, b, c]);
    }
}

fn ext_bytes(a: u8, b: u8, c: u8) -> (r: Vec<u8>)
    ensures
        r@ == seq![46u8, a, b, c],
{
    let mut v: Vec<u8> = Vec::new();
    v.push(46);
    push_ext(&mut v, a, b, c);
    proof {
        assert(v@ =~= seq![46u8, a, b, c]);
    }
    v
}

/// Looks a path's extension up in the fixed suffix table.
pub fn content_type_of(path: &[u8]) -> (m: Mime)
    ensures
        m == mime_of(path@),
{
    let mp3 = ext_bytes(109, 112, 51);
    if ends_with(path, mp3.as_slice()) {
        return Mime::Mpeg;
    }
    let wav = ext_bytes(119, 97, 118);
    if ends_with(path, wav.as_slice()) {
        return Mime::Wav;
    }
    let m4a = ext_bytes(109, 52, 97);
    if ends_with(path, m4a.as_slice()) {
        return Mime::Mp4;
    }
    let mut flac = ext_bytes(102, 108, 97);
    flac.push(99);
    proof {
        assert(flac@ =~= ext_flac());
    }
    if ends_with(path, flac.as_slice()) {
        return Mime::Flac;
    }
    let ogg = ext_bytes(111, 103, 103);
    if ends_with(path, ogg.as_slice()) {
        return Mime::Ogg;
    }
    let aac = ext_bytes(97, 97, 99);
    if ends_with(path, aac.as_slice()) {
        return Mime::Aac;
    }
    Mime::OctetStream
}

/// The label of a content type.
pub fn mime_label(m: Mime) -> (r: &'static str)
    ensures
        r@ == mime_label_chars(m),
{
    match m {
        Mime::Mpeg => "audio/mpeg",
        Mime::Wav => "audio/wav",
        Mime::Mp4 => "audio/mp4",
        Mime::Flac => "audio/flac",
        Mime::Ogg => "audio/ogg",
        Mime::Aac => "audio/aac",
        Mime::OctetStream => "application/octet-stream",
    }
}

/// A request method the scheme supports. HEAD and OPTIONS (the CORS
/// preflight) are answered with the same status and header set as GET and
/// an empty body; the caller maps any other method to GET.
#[derive(Clone, Copy, Debug, PartialEq, Eq, Structural)]
pub enum RequestMethod {
    Get,
    Head,
    Options,
}

/// An HTTP-shaped response: a status, the headers in order, and the body.
pub struct MediaResponse {
    pub status: u16,
    pub headers: Vec<(String, String)>,
    pub body: Vec<u8>,
}

/// The 404 response to a failed read: an empty body and no headers at all,
/// a Content-Type header in particular; no failure detail crosses this
/// boundary.
pub fn not_found_response() -> (r: MediaResponse)
    ensures
        r.status == 404,
        r.headers@.len() == 0,
        r.body@.len() == 0,
{
    MediaResponse { status: 404, headers: Vec::new(), body: Vec::new() }
}

/// The exact header sequence of a 200 response for `path` serving `len`
/// bytes: permissive CORS headers, the content type of the path's
/// extension, the exact byte count, a byte-range declaration and a
/// one-year public cache directive.
pub open spec fn success_headers(hs: Seq<(String, String)>, path: Seq<u8>, len: nat) -> bool {
    &&& hs.len() == 8
    &&& hs[0].0@ == "Access-Control-Allow-Origin"@ && hs[0].1@ == "*"@
    &&& hs[1].0@ == "Access-Control-Allow-Methods"@ && hs[1].1@ == "GET, OPTIONS, HEAD"@
    &&& hs[2].0@ == "Access-Control-Allow-Headers"@ && hs[2].1@ == "*"@
    &&& hs[3].0@ == "Access-Control-Expose-Headers"@ && hs[3].1@
        == "Content-Length, Content-Type, Accept-Ranges"@
    &&& hs[4].0@ == "Content-Type"@ && hs[4].1@ == mime_label_chars(mime_of(path))
    &&& hs[5].0@ == "Content-Length"@ && hs[5].1@ == dec_chars(len)
    &&& hs[6].0@ == "Accept-Ranges"@ && hs[6].1@ == "bytes"@
    &&& hs[7].0@ == "Cache-Control"@ && hs[7].1@ == "public, max-age=31536000"@
}

/// The 200 response serving `body` from `path`.
pub fn success_response(path: &[u8], body: Vec<u8>) -> (r: MediaResponse)
    ensures
        r.status == 200,
        success_headers(r.headers@, path@, body@.len()),
        r.body@ == body@,
{
    let mime = content_type_of(path);
    let length = dec_string(body.len());
    let mut headers: Vec<(String, String)> = Vec::new();
    headers.push((String::from_str("Access-Control-Allow-Origin"), String::from_str("*")));
    headers.push(
        (String::from_str("Access-Control-Allow-Methods"), String::from_str("GET, OPTIONS, HEAD")),
    );
    headers.push((String::from_str("Access-Control-Allow-Headers"), String::from_str("*")));
    headers.push(
        (
            String::from_str("Access-Control-Expose-Headers"),
            String::from_str("Content-Length, Content-Type, Accept-Ranges"),
        ),
    );
    headers.push((String::from_str("Content-Type"), String::from_str(mime_label(mime))));
    headers.push((String::from_str("Content-Length"), length));
    headers.push((String::from_str("Accept-Ranges"), String::from_str("bytes")));
    headers.push(
        (String::from_str("Cache-Control"), String::from_str("public, max-age=31536000")),
    );
    MediaResponse { status: 200, headers, body }
}

/// The response to one media request for `path`: where the read succeeded,
/// a 200 whose headers describe the file and whose body is the file's bytes
/// (left empty for HEAD and OPTIONS); where it failed, a bare 404, whatever
/// the reason.
pub fn media_response(method: RequestMethod, path: &[u8], read_result: Option<Vec<u8>>) -> (r:
    MediaResponse)
    ensures
        read_result is None ==> r.status == 404 && r.headers@.len() == 0 && r.body@.len() == 0,
        read_result matches Some(data) ==> r.status == 200 && success_headers(
            r.headers@,
            path@,
            data@.len(),
        ) && r.body@ == (if method is Get {
            data@
        } else {
            Seq::<u8>::empty()
        }),
{
    match read_result {
        Some(data) => {
            let mut r = success_response(path, data);
            match method {
                RequestMethod::Get => r,
                RequestMethod::Head => {
                    r.body = Vec::new();
                    r
                },
                RequestMethod::Options => {
                    r.body = Vec::new();
                    r
                },
            }
        },
        None => not_found_response(),
    }
}

/// Turns a request URI into the filesystem path to read.
pub fn resolve_media_path(uri: &[u8], strip_leading_separator: bool) -> (r: Vec<u8>)
    ensures
        r@ == media_path(uri@, strip_leading_separator),
{
    let enc = media_encoded_part(uri);
    let dec = percent_decode(enc.as_slice());
    let p = if utf8_ok(dec.as_slice()) {
        dec
    } else {
        enc
    };
    if strip_leading_separator && p.len() > 0 && p[0] == SLASH {
        let out = vstd::slice::slice_to_vec(&p.as_slice()[1..p.len()]);
        proof {
            assert(p@.subrange(1, p@.len() as int) =~= p@.skip(1));
        }
        out
    } else {
        p
    }
}

} // verus!
