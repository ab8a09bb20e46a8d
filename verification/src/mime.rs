//! MIME types: mapping a URI's extension, or a payload's sniffed
//! content, to a media type string.

use crate::strutil::{lemma_ascii_bytes_valid_utf8, string_from_utf8};
use vstd::prelude::*;
use vstd::slice::{slice_index_get, slice_subrange};
use vstd::string::{StringExecFns, StringSliceAdditionalSpecFns};

verus! {

/// A media type the asset protocol serves.
pub enum MimeType {
    Css,
    Csv,
    Html,
    Ico,
    Js,
    Json,
    Jsonld,
    Mp4,
    OctetStream,
    Rtf,
    Svg,
    Txt,
    Jpeg,
    Gif,
    Png,
    Webp,
    Tiff,
    Bmp,
    AudioAac,
    AudioMpeg,
    AudioOgg,
    AudioWav,
    AudioWebm,
    AudioXMpegurl,
    Pdf,
    Zip,
    Gzip,
    Tar,
    SevenZip,
    MsWord,
    MsExcel,
    MsPowerPoint,
    Wasm,
    Xml,
    Markdown,
    FontWoff,
    FontWoff2,
    FontTtf,
    FontOtf,
    Php,
}

/// The media type's name on the wire.
pub open spec fn spec_mime_str(m: MimeType) -> Seq<char> {
    match m {
        MimeType::Css => "text/css"@,
        MimeType::Csv => "text/csv"@,
        MimeType::Html => "text/html"@,
        MimeType::Ico => "image/vnd.microsoft.icon"@,
        MimeType::Js => "text/javascript"@,
        MimeType::Json => "application/json"@,
        MimeType::Jsonld => "application/ld+json"@,
        MimeType::Mp4 => "video/mp4"@,
        MimeType::OctetStream => "application/octet-stream"@,
        MimeType::Rtf => "application/rtf"@,
        MimeType::Svg => "image/svg+xml"@,
        MimeType::Txt => "text/plain"@,
        MimeType::Jpeg => "image/jpeg"@,
        MimeType::Gif => "image/gif"@,
        MimeType::Png => "image/png"@,
        MimeType::Webp => "image/webp"@,
        MimeType::Tiff => "image/tiff"@,
        MimeType::Bmp => "image/bmp"@,
        MimeType::AudioAac => "audio/aac"@,
        MimeType::AudioMpeg => "audio/mpeg"@,
        MimeType::AudioOgg => "audio/ogg"@,
        MimeType::AudioWav => "audio/wav"@,
        MimeType::AudioWebm => "audio/webm"@,
        MimeType::AudioXMpegurl => "audio/x-mpegurl"@,
        MimeType::Pdf => "application/pdf"@,
        MimeType::Zip => "application/zip"@,
        MimeType::Gzip => "application/gzip"@,
        MimeType::Tar => "application/x-tar"@,
        MimeType::SevenZip => "application/x-7z-compressed"@,
        MimeType::MsWord => "application/msword"@,
        MimeType::MsExcel => "application/vnd.ms-excel"@,
        MimeType::MsPowerPoint => "application/vnd.ms-powerpoint"@,
        MimeType::Wasm => "application/wasm"@,
        MimeType::Xml => "text/xml"@,
        MimeType::Markdown => "text/markdown"@,
        MimeType::FontWoff => "font/woff"@,
        MimeType::FontWoff2 => "font/woff2"@,
        MimeType::FontTtf => "font/ttf"@,
        MimeType::FontOtf => "font/otf"@,
        MimeType::Php => "application/x-php"@,
    }
}

impl MimeType {
    /// The media type's name, exactly `spec_mime_str`.
    pub fn mime_str(&self) -> (r: String)
        ensures
            r@ == spec_mime_str(*self),
    {
        match *self {
        MimeType::Css => String::from_str("text/css"),
        MimeType::Csv => String::from_str("text/csv"),
        MimeType::Html => String::from_str("text/html"),
        MimeType::Ico => String::from_str("image/vnd.microsoft.icon"),
        MimeType::Js => String::from_str("text/javascript"),
        MimeType::Json => String::from_str("application/json"),
        MimeType::Jsonld => String::from_str("application/ld+json"),
        MimeType::Mp4 => String::from_str("video/mp4"),
        MimeType::OctetStream => String::from_str("application/octet-stream"),
        MimeType::Rtf => String::from_str("application/rtf"),
        MimeType::Svg => String::from_str("image/svg+xml"),
        MimeType::Txt => String::from_str("text/plain"),
        MimeType::Jpeg => String::from_str("image/jpeg"),
        MimeType::Gif => String::from_str("image/gif"),
        MimeType::Png => String::from_str("image/png"),
        MimeType::Webp => String::from_str("image/webp"),
        MimeType::Tiff => String::from_str("image/tiff"),
        MimeType::Bmp => String::from_str("image/bmp"),
        MimeType::AudioAac => String::from_str("audio/aac"),
        MimeType::AudioMpeg => String::from_str("audio/mpeg"),
        MimeType::AudioOgg => String::from_str("audio/ogg"),
        MimeType::AudioWav => String::from_str("audio/wav"),
        MimeType::AudioWebm => String::from_str("audio/webm"),
        MimeType::AudioXMpegurl => String::from_str("audio/x-mpegurl"),
        MimeType::Pdf => String::from_str("application/pdf"),
        MimeType::Zip => String::from_str("application/zip"),
        MimeType::Gzip => String::from_str("application/gzip"),
        MimeType::Tar => String::from_str("application/x-tar"),
        MimeType::SevenZip => String::from_str("application/x-7z-compressed"),
        MimeType::MsWord => String::from_str("application/msword"),
        MimeType::MsExcel => String::from_str("application/vnd.ms-excel"),
        MimeType::MsPowerPoint => String::from_str("application/vnd.ms-powerpoint"),
        MimeType::Wasm => String::from_str("application/wasm"),
        MimeType::Xml => String::from_str("text/xml"),
        MimeType::Markdown => String::from_str("text/markdown"),
        MimeType::FontWoff => String::from_str("font/woff"),
        MimeType::FontWoff2 => String::from_str("font/woff2"),
        MimeType::FontTtf => String::from_str("font/ttf"),
        MimeType::FontOtf => String::from_str("font/otf"),
        MimeType::Php => String::from_str("application/x-php"),
        }
    }
}

/// Index just past the last `.` in `b`, or 0 when there is none — so
/// the suffix of a dotless name is the whole name, as `str::split`
/// hands its last piece back.
pub open spec fn spec_suffix_start(b: Seq<u8>) -> int
    decreases b.len(),
{
    if b.len() == 0 {
        0
    } else if b.last() == 0x2e {
        b.len() as int
    } else {
        spec_suffix_start(b.drop_last())
    }
}

/// The media type an extension names.
pub open spec fn spec_mime_of_ext(s: Seq<u8>) -> Option<MimeType> {
    if s == "bin".spec_bytes() {
        Some(MimeType::OctetStream)
    } else     if s == "css".spec_bytes() {
        Some(MimeType::Css)
    } else     if s == "less".spec_bytes() {
        Some(MimeType::Css)
    } else     if s == "sass".spec_bytes() {
        Some(MimeType::Css)
    } else     if s == "styl".spec_bytes() {
        Some(MimeType::Css)
    } else     if s == "csv".spec_bytes() {
        Some(MimeType::Csv)
    } else     if s == "html".spec_bytes() {
        Some(MimeType::Html)
    } else     if s == "ico".spec_bytes() {
        Some(MimeType::Ico)
    } else     if s == "js".spec_bytes() {
        Some(MimeType::Js)
    } else     if s == "json".spec_bytes() {
        Some(MimeType::Json)
    } else     if s == "jsonld".spec_bytes() {
        Some(MimeType::Jsonld)
    } else     if s == "mjs".spec_bytes() {
        Some(MimeType::Js)
    } else     if s == "mp4".spec_bytes() {
        Some(MimeType::Mp4)
    } else     if s == "rtf".spec_bytes() {
        Some(MimeType::Rtf)
    } else     if s == "svg".spec_bytes() {
        Some(MimeType::Svg)
    } else     if s == "txt".spec_bytes() {
        Some(MimeType::Txt)
    } else     if s == "jpeg".spec_bytes() {
        Some(MimeType::Jpeg)
    } else     if s == "jpg".spec_bytes() {
        Some(MimeType::Jpeg)
    } else     if s == "gif".spec_bytes() {
        Some(MimeType::Gif)
    } else     if s == "png".spec_bytes() {
        Some(MimeType::Png)
    } else     if s == "webp".spec_bytes() {
        Some(MimeType::Webp)
    } else     if s == "tiff".spec_bytes() {
        Some(MimeType::Tiff)
    } else     if s == "bmp".spec_bytes() {
        Some(MimeType::Bmp)
    } else     if s == "aac".spec_bytes() {
        Some(MimeType::AudioAac)
    } else     if s == "mp3".spec_bytes() {
        Some(MimeType::AudioMpeg)
    } else     if s == "mpeg".spec_bytes() {
        Some(MimeType::AudioMpeg)
    } else     if s == "ogg".spec_bytes() {
        Some(MimeType::AudioOgg)
    } else     if s == "wav".spec_bytes() {
        Some(MimeType::AudioWav)
    } else     if s == "webm".spec_bytes() {
        Some(MimeType::AudioWebm)
    } else     if s == "m3u8".spec_bytes() {
        Some(MimeType::AudioXMpegurl)
    } else     if s == "pdf".spec_bytes() {
        Some(MimeType::Pdf)
    } else     if s == "zip".spec_bytes() {
        Some(MimeType::Zip)
    } else     if s == "gzip".spec_bytes() {
        Some(MimeType::Gzip)
    } else     if s == "tar".spec_bytes() {
        Some(MimeType::Tar)
    } else     if s == "7z".spec_bytes() {
        Some(MimeType::SevenZip)
    } else     if s == "doc".spec_bytes() {
        Some(MimeType::MsWord)
    } else     if s == "xls".spec_bytes() {
        Some(MimeType::MsExcel)
    } else     if s == "ppt".spec_bytes() {
        Some(MimeType::MsPowerPoint)
    } else     if s == "wasm".spec_bytes() {
        Some(MimeType::Wasm)
    } else     if s == "xml".spec_bytes() {
        Some(MimeType::Xml)
    } else     if s == "md".spec_bytes() {
        Some(MimeType::Markdown)
    } else     if s == "markdown".spec_bytes() {
        Some(MimeType::Markdown)
    } else     if s == "woff".spec_bytes() {
        Some(MimeType::FontWoff)
    } else     if s == "woff2".spec_bytes() {
        Some(MimeType::FontWoff2)
    } else     if s == "ttf".spec_bytes() {
        Some(MimeType::FontTtf)
    } else     if s == "otf".spec_bytes() {
        Some(MimeType::FontOtf)
    } else     if s == "php".spec_bytes() {
        Some(MimeType::Php)
    } else {
        None
    }
}

/// The media type a URI's extension names, with the given fallback.
pub open spec fn spec_mime_from_uri(b: Seq<u8>, fallback: MimeType) -> MimeType {
    match spec_mime_of_ext(b.skip(spec_suffix_start(b))) {
        Some(m) => m,
        None => fallback,
    }
}

fn ext_eq(suffix: &[u8], lit: &str) -> (r: bool)
    ensures
        r == (suffix@ == lit.spec_bytes()),
{
    let lb = lit.as_bytes();
    if suffix.len() != lb.len() {
        proof {
            assert(suffix@.len() != lb@.len());
        }
        return false;
    }
    let n = suffix.len();
    let mut i: usize = 0;
    while i < n
        invariant
            i <= n,
            n == suffix@.len() == lb@.len(),
            lb@ == lit.spec_bytes(),
            forall|k: int| 0 <= k < i ==> suffix@[k] == lb@[k],
        decreases n - i,
    {
        if *slice_index_get(suffix, i) != *slice_index_get(lb, i) {
            proof {
                assert(suffix@[i as int] != lit.spec_bytes()[i as int]);
            }
            return false;
        }
        i = i + 1;
    }
    proof {
        assert(suffix@ =~= lit.spec_bytes());
    }
    true
}

#[verifier::rlimit(100)]
fn mime_of_ext(suffix: &[u8]) -> (r: Option<MimeType>)
    ensures
        r == spec_mime_of_ext(suffix@),
{
    if ext_eq(suffix, "bin") {
        Some(MimeType::OctetStream)
    } else     if ext_eq(suffix, "css") {
        Some(MimeType::Css)
    } else     if ext_eq(suffix, "less") {
        Some(MimeType::Css)
    } else     if ext_eq(suffix, "sass") {
        Some(MimeType::Css)
    } else     if ext_eq(suffix, "styl") {
        Some(MimeType::Css)
    } else     if ext_eq(suffix, "csv") {
        Some(MimeType::Csv)
    } else     if ext_eq(suffix, "html") {
        Some(MimeType::Html)
    } else     if ext_eq(suffix, "ico") {
        Some(MimeType::Ico)
    } else     if ext_eq(suffix, "js") {
        Some(MimeType::Js)
    } else     if ext_eq(suffix, "json") {
        Some(MimeType::Json)
    } else     if ext_eq(suffix, "jsonld") {
        Some(MimeType::Jsonld)
    } else     if ext_eq(suffix, "mjs") {
        Some(MimeType::Js)
    } else     if ext_eq(suffix, "mp4") {
        Some(MimeType::Mp4)
    } else     if ext_eq(suffix, "rtf") {
        Some(MimeType::Rtf)
    } else     if ext_eq(suffix, "svg") {
        Some(MimeType::Svg)
    } else     if ext_eq(suffix, "txt") {
        Some(MimeType::Txt)
    } else     if ext_eq(suffix, "jpeg") {
        Some(MimeType::Jpeg)
    } else     if ext_eq(suffix, "jpg") {
        Some(MimeType::Jpeg)
    } else     if ext_eq(suffix, "gif") {
        Some(MimeType::Gif)
    } else     if ext_eq(suffix, "png") {
        Some(MimeType::Png)
    } else     if ext_eq(suffix, "webp") {
        Some(MimeType::Webp)
    } else     if ext_eq(suffix, "tiff") {
        Some(MimeType::Tiff)
    } else     if ext_eq(suffix, "bmp") {
        Some(MimeType::Bmp)
    } else     if ext_eq(suffix, "aac") {
        Some(MimeType::AudioAac)
    } else     if ext_eq(suffix, "mp3") {
        Some(MimeType::AudioMpeg)
    } else     if ext_eq(suffix, "mpeg") {
        Some(MimeType::AudioMpeg)
    } else     if ext_eq(suffix, "ogg") {
        Some(MimeType::AudioOgg)
    } else     if ext_eq(suffix, "wav") {
        Some(MimeType::AudioWav)
    } else     if ext_eq(suffix, "webm") {
        Some(MimeType::AudioWebm)
    } else     if ext_eq(suffix, "m3u8") {
        Some(MimeType::AudioXMpegurl)
    } else     if ext_eq(suffix, "pdf") {
        Some(MimeType::Pdf)
    } else     if ext_eq(suffix, "zip") {
        Some(MimeType::Zip)
    } else     if ext_eq(suffix, "gzip") {
        Some(MimeType::Gzip)
    } else     if ext_eq(suffix, "tar") {
        Some(MimeType::Tar)
    } else     if ext_eq(suffix, "7z") {
        Some(MimeType::SevenZip)
    } else     if ext_eq(suffix, "doc") {
        Some(MimeType::MsWord)
    } else     if ext_eq(suffix, "xls") {
        Some(MimeType::MsExcel)
    } else     if ext_eq(suffix, "ppt") {
        Some(MimeType::MsPowerPoint)
    } else     if ext_eq(suffix, "wasm") {
        Some(MimeType::Wasm)
    } else     if ext_eq(suffix, "xml") {
        Some(MimeType::Xml)
    } else     if ext_eq(suffix, "md") {
        Some(MimeType::Markdown)
    } else     if ext_eq(suffix, "markdown") {
        Some(MimeType::Markdown)
    } else     if ext_eq(suffix, "woff") {
        Some(MimeType::FontWoff)
    } else     if ext_eq(suffix, "woff2") {
        Some(MimeType::FontWoff2)
    } else     if ext_eq(suffix, "ttf") {
        Some(MimeType::FontTtf)
    } else     if ext_eq(suffix, "otf") {
        Some(MimeType::FontOtf)
    } else     if ext_eq(suffix, "php") {
        Some(MimeType::Php)
    } else {
        None
    }
}

impl MimeType {
    /// The media type a URI's extension names, falling back to HTML.
    pub fn parse_from_uri(uri: &str) -> (r: MimeType)
        ensures
            r == spec_mime_from_uri(uri.spec_bytes(), MimeType::Html),
    {
        Self::parse_from_uri_with_fallback(uri, MimeType::Html)
    }

    /// The media type a URI's extension names, exactly as
    /// `spec_mime_from_uri` says of its UTF-8 bytes.
    #[verifier::loop_isolation(false)]
    #[verifier::rlimit(100)]
    pub fn parse_from_uri_with_fallback(uri: &str, fallback: MimeType) -> (r: MimeType)
        ensures
            r == spec_mime_from_uri(uri.spec_bytes(), fallback),
    {
        let b = uri.as_bytes();
        let n = b.len();
        let mut s: usize = n;
        proof {
            assert(b@.take(n as int) =~= b@);
        }
        while s > 0 && *slice_index_get(b, s - 1) != 0x2e
            invariant
                s <= n,
                spec_suffix_start(b@) == spec_suffix_start(b@.take(s as int)),
            decreases s,
        {
            proof {
                assert(b@.take(s as int).drop_last() =~= b@.take(s - 1));
            }
            s = s - 1;
        }
        proof {
            if s > 0 {
                assert(b@.take(s as int).last() == 0x2e);
                assert(spec_suffix_start(b@) == s);
            } else {
                assert(b@.take(0) =~= Seq::<u8>::empty());
                assert(spec_suffix_start(b@) == 0);
            }
        }
        let suffix = slice_subrange(b, s, n);
        proof {
            assert(suffix@ =~= b@.skip(spec_suffix_start(b@)));
        }
        match mime_of_ext(suffix) {
            Some(m) => m,
            None => fallback,
        }
    }

    /// The media type of a payload: its sniffed content type, unless
    /// the sniff is absent or says plain text, in which case the URI's
    /// extension decides.
    pub fn parse(content: &[u8], uri: &str) -> (r: String)
        ensures
            ({
                let from_uri = spec_mime_str(spec_mime_from_uri(uri.spec_bytes(), MimeType::Html));
                match sniffed_mime(content@) {
                    Some(m) => if m == "text/plain"@ {
                        r@ == from_uri
                    } else {
                        r@ == m
                    },
                    None => r@ == from_uri,
                }
            }),
    {
        Self::parse_with_fallback(content, uri, MimeType::Html)
    }

    /// As `parse`, with the caller's fallback for the extension path.
    pub fn parse_with_fallback(content: &[u8], uri: &str, fallback: MimeType) -> (r: String)
        ensures
            ({
                let from_uri = spec_mime_str(spec_mime_from_uri(uri.spec_bytes(), fallback));
                match sniffed_mime(content@) {
                    Some(m) => if m == "text/plain"@ {
                        r@ == from_uri
                    } else {
                        r@ == m
                    },
                    None => r@ == from_uri,
                }
            }),
    {
        match sniff_mime(content) {
            Some(m) => {
                if m == String::from_str("text/plain") {
                    Self::parse_from_uri_with_fallback(uri, fallback).mime_str()
                } else {
                    m
                }
            },
            None => Self::parse_from_uri_with_fallback(uri, fallback).mime_str(),
        }
    }
}

/// The media type `infer` sniffs from a payload's bytes, when its
/// matcher table recognizes them.  The result depends on the bytes
/// alone.
pub uninterp spec fn sniffed_mime(bytes: Seq<u8>) -> Option<Seq<char>>;

/// Relies on infer::get: content sniffing over a fixed matcher table,
/// a function of the bytes alone; Type::mime_type names the matched
/// type's media type.
#[verifier::external_body]
fn sniff_mime(content: &[u8]) -> (r: Option<String>)
    ensures
        match r {
            Some(m) => sniffed_mime(content@) == Some(m@),
            None => sniffed_mime(content@) is None,
        },
{
    infer::get(content).map(|t| t.mime_type().to_owned())
}

} // verus!
