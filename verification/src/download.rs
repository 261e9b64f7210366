//! The download tool: what a request asks for, whether a file is fetched in
//! the background, and the links to a fetched file.  Files are fetched and
//! served outside this crate.
use vstd::prelude::*;
use crate::models::{tool_error, ToolError};
use crate::params::or_default;
use crate::tags::{extract_tag_chars, spec_extract_tag};
use crate::text::{append_str, chars_of, owned, str_eq, string_of, trim, trim_exec};

verus! {

/// A request to the download tool.
pub enum DownloadCommand {
    /// Report how much of the named file has arrived.
    Status { file: String },
    /// Fetch the file at `url`.
    Fetch { url: String },
}

/// The request `desc` makes: the action (`download` by default, trimmed) is
/// `status`, which needs a file name, or anything else, which needs a URL.
pub open spec fn download_request_is(r: Result<DownloadCommand, ToolError>, desc: Seq<char>) -> bool {
    let action = trim(or_default(spec_extract_tag(desc, "action:"@), "download"@));
    if action == "status"@ {
        let f = trim(or_default(spec_extract_tag(desc, "file:"@), Seq::empty()));
        if f.len() == 0 {
            r matches Err(e) && e.output@ == "Error: Missing file:[filename] for status check."@
                && e.reason@ == "Missing filename"@
        } else {
            r matches Ok(DownloadCommand::Status { file }) && file@ == f
        }
    } else {
        let u = trim(or_default(spec_extract_tag(desc, "url:"@), Seq::empty()));
        if u.len() == 0 {
            r matches Err(e) && e.output@ == "Error: Missing url:[...] in description."@ && e.reason@
                == "Missing URL"@
        } else {
            r matches Ok(DownloadCommand::Fetch { url }) && url@ == u
        }
    }
}

fn trimmed_tag(d: &[char], tag: &str, dflt: &str) -> (r: Vec<char>)
    ensures
        r@ == trim(or_default(spec_extract_tag(d@, tag@), dflt@)),
{
    let g = chars_of(tag);
    let v = match extract_tag_chars(d, g.as_slice()) {
        Some(v) => v,
        None => chars_of(dflt),
    };
    trim_exec(v.as_slice())
}

/// The download request that `desc` makes.
pub fn parse_download_request(desc: &str) -> (r: Result<DownloadCommand, ToolError>)
    ensures
        download_request_is(r, desc@),
{
    let dv = chars_of(desc);
    let d = dv.as_slice();
    assert(""@ =~= Seq::<char>::empty()) by {
        reveal_strlit("");
    }
    let action = string_of(trimmed_tag(d, "action:", "download").as_slice());
    if str_eq(action.as_str(), "status") {
        let f = trimmed_tag(d, "file:", "");
        if f.len() == 0 {
            return Err(tool_error("Error: Missing file:[filename] for status check.", "Missing filename"));
        }
        return Ok(DownloadCommand::Status { file: string_of(f.as_slice()) });
    }
    let u = trimmed_tag(d, "url:", "");
    if u.len() == 0 {
        return Err(tool_error("Error: Missing url:[...] in description.", "Missing URL"));
    }
    Ok(DownloadCommand::Fetch { url: string_of(u.as_slice()) })
}

/// Files larger than this many bytes (25 MiB) are fetched in the background.
pub const LARGE_FILE_BYTES: u64 = 26214400;

/// Whether a file of the reported size (if any) is fetched in the background:
/// only a reported size above 25 MiB is.
pub fn fetch_in_background(size: Option<u64>) -> (r: bool)
    ensures
        r == (size matches Some(n) && n > LARGE_FILE_BYTES),
{
    match size {
        Some(n) => n > LARGE_FILE_BYTES,
        None => false,
    }
}

/// The link to a fetched file and to the file browser on the file server at
/// `base`, with the access token when there is one.
pub open spec fn spec_file_links(base: Seq<char>, file: Seq<char>, token: Seq<char>) -> (Seq<char>, Seq<char>) {
    if token.len() == 0 {
        (base + "/files/"@ + file, base + "/files/"@)
    } else {
        (base + "/files/"@ + file + "?token="@ + token, base + "/files/"@ + "?token="@ + token)
    }
}

/// The links to a fetched file and to the file browser.
pub fn file_links(base: &str, file: &str, token: &str) -> (r: (String, String))
    ensures
        r.0@ == spec_file_links(base@, file@, token@).0,
        r.1@ == spec_file_links(base@, file@, token@).1,
{
    let mut direct = chars_of(base);
    append_str(&mut direct, "/files/");
    append_str(&mut direct, file);
    let mut browser = chars_of(base);
    append_str(&mut browser, "/files/");
    if token.unicode_len() > 0 {
        append_str(&mut direct, "?token=");
        append_str(&mut direct, token);
        append_str(&mut browser, "?token=");
        append_str(&mut browser, token);
    }
    (string_of(direct.as_slice()), string_of(browser.as_slice()))
}

/// The answer to a finished download to `path`, with its two links.
pub open spec fn spec_download_done(path: Seq<char>, direct: Seq<char>, browser: Seq<char>) -> Seq<char> {
    "Download complete.\nLocal path: "@ + path + "\n📎 Direct download link: "@ + direct
        + "\n🌐 File browser (all files): "@ + browser
        + "\n\nYOU MUST include ALL of the following in your reply:\n1. The direct download link so the user can download this file\n2. The file browser link so the user can see all available files\n3. This exact attachment tag: [ATTACH_FILE]("@
        + path + ")\n\nIf you do not include the links, the user cannot access files remotely."@
}

/// The answer to a finished download.
pub fn download_done_text(path: &str, direct: &str, browser: &str) -> (r: String)
    ensures
        r@ == spec_download_done(path@, direct@, browser@),
{
    let mut o = chars_of("Download complete.\nLocal path: ");
    append_str(&mut o, path);
    append_str(&mut o, "\n📎 Direct download link: ");
    append_str(&mut o, direct);
    append_str(&mut o, "\n🌐 File browser (all files): ");
    append_str(&mut o, browser);
    append_str(
        &mut o,
        "\n\nYOU MUST include ALL of the following in your reply:\n1. The direct download link so the user can download this file\n2. The file browser link so the user can see all available files\n3. This exact attachment tag: [ATTACH_FILE](",
    );
    append_str(&mut o, path);
    append_str(&mut o, ")\n\nIf you do not include the links, the user cannot access files remotely.");
    string_of(o.as_slice())
}

} // verus!
