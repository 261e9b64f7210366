//! The attachment reader: which link a request names, which links may be
//! fetched, and what a fetched file is shown as.  The file is fetched
//! outside this crate.
use vstd::prelude::*;
use vstd::utf8::{decode_utf8, valid_utf8};
use crate::fmt::{decimal, decimal_chars};
use crate::models::{tool_error, ToolError};
use crate::tags::{extract_tag_chars, spec_extract_tag};
use crate::text::{
    append_chars, append_str, chars_of, contains, contains_exec, owned, starts_with, starts_with_exec,
    string_of, strip, strip_exec, words, words_of, CharClass,
};

verus! {

/// The first word that starts with `http`.
pub open spec fn first_http_word(ws: Seq<Seq<char>>) -> Option<Seq<char>>
    decreases ws.len(),
{
    if ws.len() == 0 {
        None
    } else if starts_with(ws[0], "http"@) {
        Some(ws[0])
    } else {
        first_http_word(ws.drop_first())
    }
}

/// The link a request names: its `url:` tag, else its first word starting
/// with `http` without the quotes and brackets around it, else nothing.
pub open spec fn spec_attachment_url(desc: Seq<char>) -> Seq<char> {
    match spec_extract_tag(desc, "url:"@) {
        Some(u) => u,
        None => match first_http_word(words(desc)) {
            Some(w) => strip(w, CharClass::LinkWrap),
            None => Seq::empty(),
        },
    }
}

fn first_http_word_exec(d: &[char]) -> (r: Option<Vec<char>>)
    ensures
        match first_http_word(words(d@)) {
            Some(w) => r matches Some(x) && x@ == w,
            None => r is None,
        },
{
    let ws = words_of(d);
    let ghost w = words(d@);
    let http = chars_of("http");
    assert(w.subrange(0, w.len() as int) =~= w);
    let mut i: usize = 0;
    while i < ws.len()
        invariant
            i <= ws@.len(),
            ws@.len() == w.len(),
            w == words(d@),
            http@ == "http"@,
            forall|k: int| 0 <= k < ws@.len() ==> #[trigger] ws@[k]@ == w[k],
            first_http_word(w) == first_http_word(w.subrange(i as int, w.len() as int)),
        decreases ws.len() - i,
    {
        let ghost rest = w.subrange(i as int, w.len() as int);
        assert(rest[0] == ws@[i as int]@);
        assert(rest.drop_first() =~= w.subrange(i + 1, w.len() as int));
        if starts_with_exec(ws[i].as_slice(), http.as_slice()) {
            let x = crate::text::slice_copy(ws[i].as_slice(), 0, ws[i].len());
            return Some(x);
        }
        i = i + 1;
    }
    None
}

/// The link a request names.
pub fn attachment_url(desc: &str) -> (r: String)
    ensures
        r@ == spec_attachment_url(desc@),
{
    let d = chars_of(desc);
    let g = chars_of("url:");
    match extract_tag_chars(d.as_slice(), g.as_slice()) {
        Some(u) => string_of(u.as_slice()),
        None => match first_http_word_exec(d.as_slice()) {
            Some(w) => string_of(strip_exec(w.as_slice(), CharClass::LinkWrap).as_slice()),
            None => String::new(),
        },
    }
}

/// Why a link is refused, if it is: it must be a web link, on Discord's
/// file servers.
pub open spec fn spec_link_refusal(url: Seq<char>) -> Option<(Seq<char>, Seq<char>)> {
    if url.len() == 0 || !starts_with(url, "http"@) {
        Some(("Error: No valid URL provided. Use url:[https://cdn.discordapp.com/...]"@, "Missing or invalid URL"@))
    } else if !(contains(url, "cdn.discordapp.com"@) || contains(url, "media.discordapp.net"@)) {
        Some(("Access Denied: read_attachment only accepts Discord CDN URLs."@, "Security: non-Discord URL"@))
    } else {
        None
    }
}

/// Whether a link may be fetched.
pub fn check_attachment_url(url: &str) -> (r: Result<(), ToolError>)
    ensures
        match spec_link_refusal(url@) {
            Some((o, m)) => r matches Err(e) && e.output@ == o && e.reason@ == m,
            None => r is Ok,
        },
{
    let u = chars_of(url);
    let http = chars_of("http");
    if u.len() == 0 || !starts_with_exec(u.as_slice(), http.as_slice()) {
        return Err(tool_error("Error: No valid URL provided. Use url:[https://cdn.discordapp.com/...]", "Missing or invalid URL"));
    }
    let a = chars_of("cdn.discordapp.com");
    let b = chars_of("media.discordapp.net");
    if !(contains_exec(u.as_slice(), a.as_slice()) || contains_exec(u.as_slice(), b.as_slice())) {
        return Err(tool_error("Access Denied: read_attachment only accepts Discord CDN URLs.", "Security: non-Discord URL"));
    }
    Ok(())
}

/// Reads `bytes` as text with `std::str::from_utf8`: the text when the bytes
/// are valid UTF-8, nothing otherwise.
#[verifier::external_body]
fn utf8_text(bytes: &[u8]) -> (r: Option<String>)
    ensures
        match r {
            Some(s) => valid_utf8(bytes@) && s@ == decode_utf8(bytes@),
            None => !valid_utf8(bytes@),
        },
{
    match std::str::from_utf8(bytes) {
        Ok(s) => Some(s.to_string()),
        Err(_) => None,
    }
}

/// The largest file shown: 10 MiB.
pub const MAX_ATTACHMENT_BYTES: usize = 10485760;

/// What a fetched file is shown as: refused above 10 MiB; its text when it
/// is UTF-8; else a note on its size.
pub open spec fn spec_attachment_text(bytes: Seq<u8>) -> Result<Seq<char>, (Seq<char>, Seq<char>)> {
    if bytes.len() > MAX_ATTACHMENT_BYTES {
        Err(
            (
                "Rejected: file is "@ + decimal(bytes.len()) + " bytes, exceeds 10MB safety limit."@,
                "File too large"@,
            ),
        )
    } else if valid_utf8(bytes) {
        Ok(decode_utf8(bytes))
    } else {
        Ok(
            "Binary file ("@ + decimal(bytes.len())
                + " bytes). Cannot display as text. The file was inspected in-memory but contains non-UTF8 binary data."@,
        )
    }
}

/// What a fetched file is shown as.
pub fn attachment_text(bytes: &[u8]) -> (r: Result<String, ToolError>)
    ensures
        match spec_attachment_text(bytes@) {
            Ok(t) => r matches Ok(x) && x@ == t,
            Err((o, m)) => r matches Err(e) && e.output@ == o && e.reason@ == m,
        },
{
    let n = decimal_chars(bytes.len() as u64);
    if bytes.len() > MAX_ATTACHMENT_BYTES {
        let mut o = chars_of("Rejected: file is ");
        append_chars(&mut o, n.as_slice());
        append_str(&mut o, " bytes, exceeds 10MB safety limit.");
        return Err(ToolError { output: string_of(o.as_slice()), reason: owned("File too large") });
    }
    match utf8_text(bytes) {
        Some(t) => Ok(t),
        None => {
            let mut o = chars_of("Binary file (");
            append_chars(&mut o, n.as_slice());
            append_str(
                &mut o,
                " bytes). Cannot display as text. The file was inspected in-memory but contains non-UTF8 binary data.",
            );
            Ok(string_of(o.as_slice()))
        },
    }
}

/// The refusal of a link that could not be fetched.
pub fn fetch_failure(error: &str) -> (r: ToolError)
    ensures
        r.output@ == "Failed to fetch attachment: "@ + error@ + ". The CDN URL may have expired."@,
        r.reason@ == error@,
{
    let mut o = chars_of("Failed to fetch attachment: ");
    append_str(&mut o, error);
    append_str(&mut o, ". The CDN URL may have expired.");
    ToolError { output: string_of(o.as_slice()), reason: owned(error) }
}

/// The refusal of a reply whose body could not be read.
pub fn read_failure(error: &str) -> (r: ToolError)
    ensures
        r.output@ == "Failed to read response bytes: "@ + error@,
        r.reason@ == error@,
{
    let mut o = chars_of("Failed to read response bytes: ");
    append_str(&mut o, error);
    ToolError { output: string_of(o.as_slice()), reason: owned(error) }
}

} // verus!
