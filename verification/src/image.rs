//! The image tools: what a request asks to draw, where the picture is
//! written, what the image server is asked, how its reply and the renderer's
//! report are read, and how the cache of pictures is listed.  Pictures are
//! drawn, fetched and stored outside this crate.
use vstd::prelude::*;
use crate::fmt::{decimal, decimal_chars};
use crate::models::ToolError;
use crate::params::or_default;
use crate::process::{lines_of, text_lines};
use crate::tags::{extract_tag_chars, spec_extract_tag};
use crate::text::{
    append_chars, append_str, chars_of, occurs_at, occurs_at_exec, owned, parse_u32, slice_copy,
    spec_parse_unsigned, string_of, strip_suffix_rep, strip_suffix_rep_exec, tail, trim, trim_exec,
};

verus! {

/// A request to draw a picture.
pub struct ImageRequest {
    pub prompt: String,
    pub width: String,
    pub height: String,
    pub style: Option<String>,
}

/// What `desc` asks to draw: the prompt (the whole description when no
/// `prompt:` tag is given), the width and height (1024 by default), and an
/// optional style.
pub open spec fn image_request_is(r: ImageRequest, desc: Seq<char>) -> bool {
    &&& r.prompt@ == or_default(spec_extract_tag(desc, "prompt:"@), desc)
    &&& r.width@ == or_default(spec_extract_tag(desc, "width:"@), "1024"@)
    &&& r.height@ == or_default(spec_extract_tag(desc, "height:"@), "1024"@)
    &&& match spec_extract_tag(desc, "style:"@) {
        Some(s) => r.style matches Some(x) && x@ == s,
        None => r.style is None,
    }
}

fn tag_or(d: &[char], tag: &str, dflt: &[char]) -> (r: String)
    ensures
        r@ == or_default(spec_extract_tag(d@, tag@), dflt@),
{
    let g = chars_of(tag);
    match extract_tag_chars(d, g.as_slice()) {
        Some(v) => string_of(v.as_slice()),
        None => string_of(dflt),
    }
}

/// The picture that `desc` asks for.
pub fn parse_image_request(desc: &str) -> (r: ImageRequest)
    ensures
        image_request_is(r, desc@),
{
    let dv = chars_of(desc);
    let d = dv.as_slice();
    let size = chars_of("1024");
    let prompt = tag_or(d, "prompt:", d);
    let width = tag_or(d, "width:", size.as_slice());
    let height = tag_or(d, "height:", size.as_slice());
    let g = chars_of("style:");
    let style = match extract_tag_chars(d, g.as_slice()) {
        Some(v) => Some(string_of(v.as_slice())),
        None => None,
    };
    ImageRequest { prompt, width, height, style }
}

/// The file a picture drawn at `timestamp` (milliseconds) is written to.
pub open spec fn spec_image_file_name(timestamp: nat, width: Seq<char>, height: Seq<char>) -> Seq<char> {
    "flux-"@ + decimal(timestamp) + "_w"@ + width + "_h"@ + height + ".png"@
}

/// The name of the file a picture is written to.
pub fn image_file_name(timestamp: u64, width: &str, height: &str) -> (r: String)
    ensures
        r@ == spec_image_file_name(timestamp as nat, width@, height@),
{
    let mut o = chars_of("flux-");
    let t = decimal_chars(timestamp);
    append_chars(&mut o, t.as_slice());
    append_str(&mut o, "_w");
    append_str(&mut o, width);
    append_str(&mut o, "_h");
    append_str(&mut o, height);
    append_str(&mut o, ".png");
    string_of(o.as_slice())
}

/// The size in pixels sent to the image server: the number written, or 1024
/// when it is not a 32-bit unsigned number.
pub open spec fn spec_flux_dimension(s: Seq<char>) -> u32 {
    match spec_parse_unsigned(s, u32::MAX as nat) {
        Some(v) => v as u32,
        None => 1024,
    }
}

/// The size in pixels sent to the image server.
pub fn flux_dimension(s: &str) -> (r: u32)
    ensures
        r == spec_flux_dimension(s@),
{
    let v = chars_of(s);
    match parse_u32(v.as_slice()) {
        Some(n) => n,
        None => 1024,
    }
}

/// The address a drawing is requested at: the server's address without its
/// trailing slashes, then `/generate`.
pub open spec fn spec_flux_generate_url(base: Seq<char>) -> Seq<char> {
    strip_suffix_rep(base, "/"@) + "/generate"@
}

/// The address a drawing is requested at.
pub fn flux_generate_url(base: &str) -> (r: String)
    ensures
        r@ == spec_flux_generate_url(base@),
{
    let b = chars_of(base);
    let slash = chars_of("/");
    let mut o = strip_suffix_rep_exec(b.as_slice(), slash.as_slice());
    append_str(&mut o, "/generate");
    string_of(o.as_slice())
}

/// What the standard base64 decoding of `text` gives: the bytes, or the
/// decoder's description of what is wrong with the text.
pub uninterp spec fn base64_standard_decode(text: Seq<char>) -> Result<Seq<u8>, Seq<char>>;

/// The view of a decoding result.
pub open spec fn decoded_view(r: Result<Vec<u8>, String>) -> Result<Seq<u8>, Seq<char>> {
    match r {
        Ok(v) => Ok(v@),
        Err(e) => Err(e@),
    }
}

/// Decodes `text` with `base64::engine::general_purpose::STANDARD` (padded,
/// standard alphabet); a refusal comes back as the decoder error's message.
/// The result is a function of the text alone; nothing more is claimed of it.
#[verifier::external_body]
fn base64_decode(text: &str) -> (r: Result<Vec<u8>, String>)
    ensures
        decoded_view(r) == base64_standard_decode(text@),
{
    match base64::Engine::decode(&base64::engine::general_purpose::STANDARD, text.as_bytes()) {
        Ok(bytes) => Ok(bytes),
        Err(e) => Err(format!("{}", e)),
    }
}

/// What the image server's reply gives once its picture field has been
/// decoded: the picture, or why it could not be read.
pub open spec fn spec_image_from_decoded(decoded: Result<Seq<u8>, Seq<char>>) -> Result<Seq<u8>, Seq<char>> {
    match decoded {
        Ok(bytes) => Ok(bytes),
        Err(e) => Err("Failed to decode base64: "@ + e),
    }
}

/// The picture the server sent, from the decoding of its picture field.
pub fn image_from_decoded(decoded: Result<Vec<u8>, String>) -> (r: Result<Vec<u8>, String>)
    ensures
        decoded_view(r) == spec_image_from_decoded(decoded_view(decoded)),
{
    match decoded {
        Ok(bytes) => Ok(bytes),
        Err(e) => {
            let mut o = chars_of("Failed to decode base64: ");
            append_str(&mut o, e.as_str());
            Err(string_of(o.as_slice()))
        },
    }
}

/// The picture in the server's reply, whose `image_base64` field (if any) is
/// `field`: refused when the field is missing, decoded otherwise.
pub fn image_from_reply(field: Option<&str>) -> (r: Result<Vec<u8>, String>)
    ensures
        match field {
            None => r matches Err(e) && e@ == "Server response missing image_base64 field"@,
            Some(f) => decoded_view(r) == spec_image_from_decoded(base64_standard_decode(f@)),
        },
{
    match field {
        None => Err(owned("Server response missing image_base64 field")),
        Some(f) => image_from_decoded(base64_decode(f)),
    }
}

/// The line the renderer prints when it has saved a picture.
pub const SAVED_MARKER: &'static str = "Successfully saved image to:";

/// The last position at or before `i` at which `m` occurs in `s`.
pub open spec fn last_occurrence_from(s: Seq<char>, m: Seq<char>, i: int) -> Option<int>
    decreases i + 1,
{
    if i < 0 {
        None
    } else if occurs_at(s, m, i) {
        Some(i)
    } else {
        last_occurrence_from(s, m, i - 1)
    }
}

/// The last position at which `m` occurs in `s`.
pub open spec fn last_occurrence(s: Seq<char>, m: Seq<char>) -> Option<int> {
    last_occurrence_from(s, m, s.len() - m.len())
}

/// The path named by the renderer's last report among `lines`, trimmed; or
/// `default` when no line reports one.
pub open spec fn saved_path_in(lines: Seq<Seq<char>>, default: Seq<char>) -> Seq<char>
    decreases lines.len(),
{
    if lines.len() == 0 {
        default
    } else {
        let l = lines.last();
        match last_occurrence(l, SAVED_MARKER@) {
            Some(i) => trim(tail(l, i + SAVED_MARKER@.len())),
            None => saved_path_in(lines.drop_last(), default),
        }
    }
}

/// Where the renderer saved the picture: the last report among the lines of
/// its error stream and then its output, else the path it was given.
pub open spec fn spec_saved_image_path(default: Seq<char>, stderr: Seq<char>, stdout: Seq<char>) -> Seq<char> {
    saved_path_in(text_lines(stderr) + text_lines(stdout), default)
}

fn last_occurrence_exec(s: &[char], m: &[char]) -> (r: Option<usize>)
    ensures
        match last_occurrence(s@, m@) {
            Some(i) => r matches Some(p) && p as int == i,
            None => r is None,
        },
{
    if m.len() > s.len() {
        assert(last_occurrence(s@, m@) is None);
        return None;
    }
    let mut i: usize = s.len() - m.len();
    loop
        invariant
            m.len() <= s.len(),
            i <= s.len() - m.len(),
            last_occurrence(s@, m@) == last_occurrence_from(s@, m@, i as int),
        decreases i,
    {
        if occurs_at_exec(s, m, i) {
            return Some(i);
        }
        if i == 0 {
            assert(last_occurrence_from(s@, m@, -1) is None);
            assert(last_occurrence_from(s@, m@, 0) == last_occurrence_from(s@, m@, -1));
            return None;
        }
        assert(last_occurrence_from(s@, m@, i as int) == last_occurrence_from(s@, m@, i - 1));
        i = i - 1;
    }
}

/// A last occurrence is an occurrence.
pub proof fn lemma_last_occurrence(s: Seq<char>, m: Seq<char>, i: int)
    ensures
        last_occurrence_from(s, m, i) matches Some(k) ==> occurs_at(s, m, k) && k <= i,
    decreases i + 1,
{
    if i >= 0 && !occurs_at(s, m, i) {
        lemma_last_occurrence(s, m, i - 1);
    }
}

/// Where the renderer saved the picture.
pub fn saved_image_path(default: &str, stderr: &str, stdout: &str) -> (r: String)
    ensures
        r@ == spec_saved_image_path(default@, stderr@, stdout@),
{
    let ev = chars_of(stderr);
    let ov = chars_of(stdout);
    let mut lines = lines_of(ev.as_slice());
    let mut more = lines_of(ov.as_slice());
    let ghost ls = text_lines(stderr@) + text_lines(stdout@);
    let ghost n1 = lines@.len();
    let ghost a = lines@;
    let ghost b = more@;
    lines.append(&mut more);
    assert(lines@.len() == ls.len());
    assert forall|k: int| 0 <= k < lines@.len() implies #[trigger] lines@[k]@ == ls[k] by {
        if k < n1 {
            assert(lines@[k] == a[k]);
        } else {
            assert(lines@[k] == b[k - n1]);
        }
    }
    let marker = chars_of(SAVED_MARKER);
    let mut path = chars_of(default);
    let mut k: usize = 0;
    while k < lines.len()
        invariant
            k <= lines@.len(),
            lines@.len() == ls.len(),
            marker@ == SAVED_MARKER@,
            forall|j: int| 0 <= j < lines@.len() ==> #[trigger] lines@[j]@ == ls[j],
            path@ == saved_path_in(ls.subrange(0, k as int), default@),
        decreases lines.len() - k,
    {
        assert(ls.subrange(0, k + 1).drop_last() =~= ls.subrange(0, k as int));
        assert(ls.subrange(0, k + 1).last() == lines@[k as int]@);
        let line = &lines[k];
        match last_occurrence_exec(line.as_slice(), marker.as_slice()) {
            Some(i) => {
                proof {
                    lemma_last_occurrence(line@, marker@, line@.len() - marker@.len());
                    assert(last_occurrence(line@, marker@) == Some(i as int));
                    assert(occurs_at(line@, marker@, i as int));
                }
                let ml = marker.len();
                let ll = line.len();
                assert(i + ml <= ll);
                let rest = slice_copy(line.as_slice(), i + ml, ll);
                path = trim_exec(rest.as_slice());
            },
            None => {},
        }
        k = k + 1;
    }
    assert(ls.subrange(0, ls.len() as int) =~= ls);
    string_of(path.as_slice())
}

/// The answer to a drawn picture at `path`, with the note of the trading card
/// minted from it (empty when none was).
pub open spec fn spec_image_done(mint_note: Seq<char>, path: Seq<char>) -> Seq<char> {
    "Image generated successfully."@ + mint_note
        + " DO NOT reply in the same turn as this tool — wait for the next turn so you can see and describe the result. Include this EXACT tag in your reply to display it:\n\n[ATTACH_IMAGE]("@
        + path + ")\n\nDescribe what the image looks like in 1-2 sentences so the user knows what was generated."@
}

/// The answer to a drawn picture.
pub fn image_done_text(mint_note: &str, path: &str) -> (r: String)
    ensures
        r@ == spec_image_done(mint_note@, path@),
{
    let mut o = chars_of("Image generated successfully.");
    append_str(&mut o, mint_note);
    append_str(
        &mut o,
        " DO NOT reply in the same turn as this tool — wait for the next turn so you can see and describe the result. Include this EXACT tag in your reply to display it:\n\n[ATTACH_IMAGE](",
    );
    append_str(&mut o, path);
    append_str(
        &mut o,
        ")\n\nDescribe what the image looks like in 1-2 sentences so the user knows what was generated.",
    );
    string_of(o.as_slice())
}

/// The refusal of a picture the renderer could not draw, with its report.
pub fn image_failure(detail: &str) -> (r: ToolError)
    ensures
        r.reason@ == "Flux generation failed:\n"@ + detail@,
        r.output@ == "Flux generation failed:\n"@ + detail@
            + "\n\n[CRITICAL FATAL SYSTEM ERROR: The image generator hardware is offline or misconfigured. Do NOT retry this tool. Pass the failure message to the user immediately.]"@,
{
    let mut reason = chars_of("Flux generation failed:\n");
    append_str(&mut reason, detail);
    let mut output = slice_copy(reason.as_slice(), 0, reason.len());
    append_str(
        &mut output,
        "\n\n[CRITICAL FATAL SYSTEM ERROR: The image generator hardware is offline or misconfigured. Do NOT retry this tool. Pass the failure message to the user immediately.]",
    );
    ToolError { output: string_of(output.as_slice()), reason: string_of(reason.as_slice()) }
}

/// How long a cached picture is kept: 24 hours, in milliseconds.
pub const CACHE_LIFETIME_MS: u64 = 86400000;

/// Whether a cached picture of this age (in milliseconds) has expired.
pub fn cache_expired(age_ms: u64) -> (r: bool)
    ensures
        r == (age_ms > CACHE_LIFETIME_MS),
{
    age_ms > CACHE_LIFETIME_MS
}

/// A cached picture still kept: its path, and its age in hours as the
/// runtime writes it (a float, with one decimal).
pub struct CachedImage {
    pub path: String,
    pub hours_old: String,
}

/// The listing line of a kept picture.
pub open spec fn cache_line(path: Seq<char>, hours_old: Seq<char>) -> Seq<char> {
    "- "@ + path + " ("@ + hours_old + " hours old)"@
}

pub open spec fn cache_lines(s: Seq<CachedImage>) -> Seq<char>
    decreases s.len(),
{
    if s.len() == 0 {
        Seq::empty()
    } else if s.len() == 1 {
        cache_line(s[0].path@, s[0].hours_old@)
    } else {
        cache_lines(s.drop_last()) + "\n"@ + cache_line(s.last().path@, s.last().hours_old@)
    }
}

/// The listing of the kept pictures.
pub open spec fn spec_cache_listing(s: Seq<CachedImage>) -> Seq<char> {
    if s.len() == 0 {
        "Image cache is currently empty."@
    } else {
        "Available cached images (valid for 24h):\n"@ + cache_lines(s)
    }
}

/// The listing of the kept pictures.
pub fn cache_listing(images: &Vec<CachedImage>) -> (r: String)
    ensures
        r@ == spec_cache_listing(images@),
{
    if images.len() == 0 {
        return owned("Image cache is currently empty.");
    }
    let mut body: Vec<char> = Vec::new();
    let mut k: usize = 0;
    while k < images.len()
        invariant
            k <= images@.len(),
            k == 0 ==> body@ == Seq::<char>::empty(),
            k > 0 ==> body@ == cache_lines(images@.subrange(0, k as int)),
        decreases images.len() - k,
    {
        let ghost prev = body@;
        assert(images@.subrange(0, k + 1).drop_last() =~= images@.subrange(0, k as int));
        if k > 0 {
            append_str(&mut body, "\n");
        }
        append_str(&mut body, "- ");
        append_str(&mut body, images[k].path.as_str());
        append_str(&mut body, " (");
        append_str(&mut body, images[k].hours_old.as_str());
        append_str(&mut body, " hours old)");
        proof {
            let s1 = images@.subrange(0, k + 1);
            if k == 0 {
                assert(s1.len() == 1);
                assert(s1[0] == images@[0]);
            } else {
                assert(s1.last() == images@[k as int]);
            }
        }
        k = k + 1;
    }
    assert(images@.subrange(0, images@.len() as int) =~= images@);
    let mut o = chars_of("Available cached images (valid for 24h):\n");
    append_chars(&mut o, body.as_slice());
    string_of(o.as_slice())
}

} // verus!
