//! The document writer tool: reading the planner's description into a
//! document command.  Drafts are kept and rendered by the document composer;
//! this module decides what is asked of it.
use vstd::prelude::*;
use crate::containment::{lowercase, to_lowercase};
use crate::models::{tool_error, ToolError};
use crate::params::{
    after_marker, or_default, spec_after_marker, spec_tag_word, tag_chars, tag_or, tag_word,
};
use crate::tags::{matching_bracket_chars, spec_extract_tag, spec_matching_bracket};
use crate::text::{
    chars_of, find, find_exec, parse_usize, rfind_char, rfind_char_exec, slice_copy,
    spec_parse_unsigned, str_eq, strip, strip_exec, strip_prefix_rep, strip_prefix_rep_exec,
    strip_suffix_rep, strip_suffix_rep_exec, string_of, tail, trim, trim_exec, CharClass,
};

verus! {

/// A request to the document composer.
pub enum DocCommand {
    /// Open a new draft.
    Start { title: String, author: String, theme: String },
    /// Append a section.
    AddSection { heading: String, content: String },
    /// Render the draft in the given (lower-cased) format.
    Render { format: String },
    /// Open, fill and render a draft in one step, with optional custom CSS.
    Compose { title: String, theme: String, format: String, content: String, css: Option<String> },
    /// List the stored drafts.
    ListDrafts,
    /// Describe the draft.
    Inspect,
    /// Replace the section at `index`.
    EditSection { index: usize, heading: String, content: String },
    /// Remove the section at `index`.
    RemoveSection { index: usize },
    /// Switch the draft's theme.
    UpdateTheme { theme: String },
    /// Set the draft's custom CSS.
    SetCustomCss { css: String },
    /// An action the composer does not know.
    Unknown { action: String },
}

/// A document command together with the draft it is about.
pub struct DocRequest {
    pub doc_id: String,
    pub command: DocCommand,
}

/// The abstract value of a [`DocCommand`].
pub enum DocSpec {
    Start(Seq<char>, Seq<char>, Seq<char>),
    AddSection(Seq<char>, Seq<char>),
    Render(Seq<char>),
    Compose(Seq<char>, Seq<char>, Seq<char>, Seq<char>, Option<Seq<char>>),
    ListDrafts,
    Inspect,
    EditSection(nat, Seq<char>, Seq<char>),
    RemoveSection(nat),
    UpdateTheme(Seq<char>),
    SetCustomCss(Seq<char>),
    Unknown(Seq<char>),
}

impl View for DocCommand {
    type V = DocSpec;

    open spec fn view(&self) -> DocSpec {
        match self {
            DocCommand::Start { title, author, theme } => DocSpec::Start(title@, author@, theme@),
            DocCommand::AddSection { heading, content } => DocSpec::AddSection(heading@, content@),
            DocCommand::Render { format } => DocSpec::Render(format@),
            DocCommand::Compose { title, theme, format, content, css } => DocSpec::Compose(
                title@,
                theme@,
                format@,
                content@,
                match css {
                    Some(c) => Some(c@),
                    None => None,
                },
            ),
            DocCommand::ListDrafts => DocSpec::ListDrafts,
            DocCommand::Inspect => DocSpec::Inspect,
            DocCommand::EditSection { index, heading, content } => DocSpec::EditSection(
                *index as nat,
                heading@,
                content@,
            ),
            DocCommand::RemoveSection { index } => DocSpec::RemoveSection(*index as nat),
            DocCommand::UpdateTheme { theme } => DocSpec::UpdateTheme(theme@),
            DocCommand::SetCustomCss { css } => DocSpec::SetCustomCss(css@),
            DocCommand::Unknown { action } => DocSpec::Unknown(action@),
        }
    }
}

// ───────────────────────── payloads ─────────────────────────

/// The text after the first `prefix` (which ends with `[`) up to the `]` that
/// closes that bracket, or to the end of `desc` when it is never closed;
/// trimmed.  `None` when `prefix` does not occur.
pub open spec fn spec_bracketed_or_rest(desc: Seq<char>, prefix: Seq<char>) -> Option<Seq<char>> {
    match find(desc, prefix) {
        Some(i) => {
            let s = tail(desc, i + prefix.len());
            Some(
                trim(
                    match spec_matching_bracket(s) {
                        Some(e) => s.subrange(0, e),
                        None => s,
                    },
                ),
            )
        },
        None => None,
    }
}

/// The text after the first `prefix` up to the last `]` of `desc`, or to the
/// end when there is none; trimmed.  `None` when `prefix` does not occur.
pub open spec fn spec_last_close_or_rest(desc: Seq<char>, prefix: Seq<char>) -> Option<Seq<char>> {
    match find(desc, prefix) {
        Some(i) => {
            let s = tail(desc, i + prefix.len());
            Some(
                trim(
                    match rfind_char(s, ']') {
                        Some(e) => s.subrange(0, e),
                        None => s,
                    },
                ),
            )
        },
        None => None,
    }
}

/// CSS with a markdown code fence around it removed: leading "```css" lines,
/// trailing fence lines, then stray backticks at either end.
pub open spec fn clean_css(s: Seq<char>) -> Seq<char> {
    strip(strip_suffix_rep(strip_prefix_rep(s, "```css\n"@), "\n```"@), CharClass::Backtick)
}

fn bracketed_or_rest(desc: &[char], prefix: &str) -> (r: Option<Vec<char>>)
    ensures
        match spec_bracketed_or_rest(desc@, prefix@) {
            Some(v) => r matches Some(x) && x@ == v,
            None => r is None,
        },
{
    let p = chars_of(prefix);
    match find_exec(desc, p.as_slice()) {
        Some(i) => {
            let pl = p.len();
            assert(i + pl <= desc@.len() && desc@.len() == desc.len() && pl == prefix@.len());
            let s = slice_copy(desc, i + pl, desc.len());
            assert(s@ =~= tail(desc@, i + prefix@.len()));
            match matching_bracket_chars(s.as_slice()) {
                Some(e) => {
                    let body = slice_copy(s.as_slice(), 0, e);
                    Some(trim_exec(body.as_slice()))
                },
                None => Some(trim_exec(s.as_slice())),
            }
        },
        None => None,
    }
}

fn last_close_or_rest(desc: &[char], prefix: &str) -> (r: Option<Vec<char>>)
    ensures
        match spec_last_close_or_rest(desc@, prefix@) {
            Some(v) => r matches Some(x) && x@ == v,
            None => r is None,
        },
{
    let p = chars_of(prefix);
    match find_exec(desc, p.as_slice()) {
        Some(i) => {
            let pl = p.len();
            assert(i + pl <= desc@.len() && desc@.len() == desc.len() && pl == prefix@.len());
            let s = slice_copy(desc, i + pl, desc.len());
            assert(s@ =~= tail(desc@, i + prefix@.len()));
            match rfind_char_exec(s.as_slice(), ']') {
                Some(e) => {
                    let body = slice_copy(s.as_slice(), 0, e);
                    Some(trim_exec(body.as_slice()))
                },
                None => Some(trim_exec(s.as_slice())),
            }
        },
        None => None,
    }
}

fn clean_css_exec(s: &[char]) -> (r: Vec<char>)
    ensures
        r@ == clean_css(s@),
{
    let fence = chars_of("```css\n");
    let close = chars_of("\n```");
    let a = strip_prefix_rep_exec(s, fence.as_slice());
    let b = strip_suffix_rep_exec(a.as_slice(), close.as_slice());
    strip_exec(b.as_slice(), CharClass::Backtick)
}

// ───────────────────────── commands ─────────────────────────

/// The section index of a description: the first word of its `index:` tag
/// read as a `usize`, 0 when absent or unreadable.
pub open spec fn spec_section_index(desc: Seq<char>) -> nat {
    match spec_parse_unsigned(spec_tag_word(desc, "index:"@, "0"@), usize::MAX as nat) {
        Some(v) => v,
        None => 0,
    }
}

/// The (lower-cased) render format of a description, `pdf` by default.
pub open spec fn spec_render_format(desc: Seq<char>) -> Seq<char> {
    lowercase(spec_tag_word(desc, "format:"@, "pdf"@))
}

/// The content of an `edit_section` request: a bracketed `content:[..]`
/// payload, else everything after `content:`.
pub open spec fn spec_edit_content(desc: Seq<char>) -> Option<Seq<char>> {
    match spec_bracketed_or_rest(desc, "content:["@) {
        Some(c) => Some(c),
        None => spec_after_marker(desc, "content:"@),
    }
}

/// The command that `desc` asks for, given its action word.
pub open spec fn spec_doc_command(desc: Seq<char>, action: Seq<char>) -> Result<
    DocSpec,
    (Seq<char>, Seq<char>),
> {
    if action == "start"@ {
        Ok(
            DocSpec::Start(
                or_default(spec_extract_tag(desc, "title:"@), "Untitled"@),
                or_default(spec_extract_tag(desc, "author:"@), "Apis"@),
                spec_tag_word(desc, "theme:"@, "professional"@),
            ),
        )
    } else if action == "add_section"@ {
        match spec_after_marker(desc, "content:"@) {
            Some(c) => Ok(DocSpec::AddSection(or_default(spec_extract_tag(desc, "heading:"@), ""@), c)),
            None => Err(
                ("Error: Missing content: payloads are required for sections."@, "Missing Content"@),
            ),
        }
    } else if action == "render"@ {
        Ok(DocSpec::Render(spec_render_format(desc)))
    } else if action == "compose"@ {
        match spec_bracketed_or_rest(desc, "content:["@) {
            Some(c) => Ok(
                DocSpec::Compose(
                    or_default(spec_extract_tag(desc, "title:"@), "Untitled"@),
                    or_default(spec_extract_tag(desc, "theme:"@), "professional"@),
                    spec_render_format(desc),
                    c,
                    match spec_bracketed_or_rest(desc, "css:["@) {
                        Some(x) => Some(clean_css(x)),
                        None => None,
                    },
                ),
            ),
            None => Err(("Error: Missing content:[...] payload."@, "Missing Content"@)),
        }
    } else if action == "list_drafts"@ {
        Ok(DocSpec::ListDrafts)
    } else if action == "inspect"@ {
        Ok(DocSpec::Inspect)
    } else if action == "edit_section"@ {
        match spec_edit_content(desc) {
            Some(c) => Ok(
                DocSpec::EditSection(
                    spec_section_index(desc),
                    or_default(spec_extract_tag(desc, "heading:"@), ""@),
                    c,
                ),
            ),
            None => Err(("Error: Missing content: payload for edit_section."@, "Missing Content"@)),
        }
    } else if action == "remove_section"@ {
        Ok(DocSpec::RemoveSection(spec_section_index(desc)))
    } else if action == "update_theme"@ {
        Ok(DocSpec::UpdateTheme(spec_tag_word(desc, "theme:"@, "professional"@)))
    } else if action == "set_custom_css"@ {
        match spec_last_close_or_rest(desc, "css:["@) {
            Some(c) => Ok(DocSpec::SetCustomCss(clean_css(c))),
            None => Err((MISSING_CSS_TEXT@, "Missing CSS"@)),
        }
    } else {
        Ok(DocSpec::Unknown(action))
    }
}

/// The refusal text for a `set_custom_css` request without CSS.
pub const MISSING_CSS_TEXT: &'static str = "Error: Missing css:[...] payload. Use CSS variables like css:[:root { --bg-color: #1a1a2e; --text-color: #e0e0e0; --heading-color: #ff1493; }]";

/// The refusal text for a request without an action or a draft id.
pub const MISSING_USAGE_TEXT: &'static str = "Error: Missing action:[start/add_section/render] or id:[doc_id]";

/// The request that `desc` asks for: the draft id and action are the first
/// words of its `id:` and `action:` tags, and both must be present.
pub open spec fn spec_doc_request(desc: Seq<char>) -> Result<
    (Seq<char>, DocSpec),
    (Seq<char>, Seq<char>),
> {
    let action = spec_tag_word(desc, "action:"@, ""@);
    let id = spec_tag_word(desc, "id:"@, ""@);
    if action.len() == 0 || id.len() == 0 {
        Err((MISSING_USAGE_TEXT@, "Invalid Usage"@))
    } else {
        match spec_doc_command(desc, action) {
            Ok(c) => Ok((id, c)),
            Err(e) => Err(e),
        }
    }
}

/// Relates a parse result to its specified value.
pub open spec fn doc_result_is(
    r: Result<DocRequest, ToolError>,
    s: Result<(Seq<char>, DocSpec), (Seq<char>, Seq<char>)>,
) -> bool {
    match s {
        Ok((id, c)) => r matches Ok(x) && x.doc_id@ == id && x.command@ == c,
        Err((o, m)) => r matches Err(e) && e.output@ == o && e.reason@ == m,
    }
}

fn section_index(d: &[char]) -> (r: usize)
    ensures
        r as nat == spec_section_index(d@),
{
    let w = tag_word(d, "index:", "0");
    match parse_usize(w.as_slice()) {
        Some(v) => v,
        None => 0,
    }
}

fn render_format(d: &[char]) -> (r: String)
    ensures
        r@ == spec_render_format(d@),
{
    let w = tag_word(d, "format:", "pdf");
    let s = string_of(w.as_slice());
    to_lowercase(s.as_str())
}

fn doc_command(d: &[char], action: &str) -> (r: Result<DocCommand, ToolError>)
    ensures
        match spec_doc_command(d@, action@) {
            Ok(c) => r matches Ok(x) && x@ == c,
            Err((o, m)) => r matches Err(e) && e.output@ == o && e.reason@ == m,
        },
{
    if str_eq(action, "start") {
        let title = tag_or(d, "title:", "Untitled");
        let author = tag_or(d, "author:", "Apis");
        let theme = tag_word(d, "theme:", "professional");
        Ok(
            DocCommand::Start {
                title: string_of(title.as_slice()),
                author: string_of(author.as_slice()),
                theme: string_of(theme.as_slice()),
            },
        )
    } else if str_eq(action, "add_section") {
        match after_marker(d, "content:") {
            Some(c) => {
                let heading = tag_or(d, "heading:", "");
                Ok(
                    DocCommand::AddSection {
                        heading: string_of(heading.as_slice()),
                        content: string_of(c.as_slice()),
                    },
                )
            },
            None => Err(
                tool_error(
                    "Error: Missing content: payloads are required for sections.",
                    "Missing Content",
                ),
            ),
        }
    } else if str_eq(action, "render") {
        Ok(DocCommand::Render { format: render_format(d) })
    } else if str_eq(action, "compose") {
        match bracketed_or_rest(d, "content:[") {
            Some(c) => {
                let title = tag_or(d, "title:", "Untitled");
                let theme = tag_or(d, "theme:", "professional");
                let css = match bracketed_or_rest(d, "css:[") {
                    Some(x) => {
                        let cleaned = clean_css_exec(x.as_slice());
                        Some(string_of(cleaned.as_slice()))
                    },
                    None => None,
                };
                Ok(
                    DocCommand::Compose {
                        title: string_of(title.as_slice()),
                        theme: string_of(theme.as_slice()),
                        format: render_format(d),
                        content: string_of(c.as_slice()),
                        css,
                    },
                )
            },
            None => Err(tool_error("Error: Missing content:[...] payload.", "Missing Content")),
        }
    } else if str_eq(action, "list_drafts") {
        Ok(DocCommand::ListDrafts)
    } else if str_eq(action, "inspect") {
        Ok(DocCommand::Inspect)
    } else if str_eq(action, "edit_section") {
        let content = match bracketed_or_rest(d, "content:[") {
            Some(c) => Some(c),
            None => after_marker(d, "content:"),
        };
        match content {
            Some(c) => {
                let heading = tag_or(d, "heading:", "");
                Ok(
                    DocCommand::EditSection {
                        index: section_index(d),
                        heading: string_of(heading.as_slice()),
                        content: string_of(c.as_slice()),
                    },
                )
            },
            None => Err(
                tool_error("Error: Missing content: payload for edit_section.", "Missing Content"),
            ),
        }
    } else if str_eq(action, "remove_section") {
        Ok(DocCommand::RemoveSection { index: section_index(d) })
    } else if str_eq(action, "update_theme") {
        let theme = tag_word(d, "theme:", "professional");
        Ok(DocCommand::UpdateTheme { theme: string_of(theme.as_slice()) })
    } else if str_eq(action, "set_custom_css") {
        match last_close_or_rest(d, "css:[") {
            Some(c) => {
                let cleaned = clean_css_exec(c.as_slice());
                Ok(DocCommand::SetCustomCss { css: string_of(cleaned.as_slice()) })
            },
            None => Err(tool_error(MISSING_CSS_TEXT, "Missing CSS")),
        }
    } else {
        Ok(DocCommand::Unknown { action: crate::text::owned(action) })
    }
}

/// The document request that `desc` asks for.
pub fn parse_doc_request(desc: &str) -> (r: Result<DocRequest, ToolError>)
    ensures
        doc_result_is(r, spec_doc_request(desc@)),
{
    let d = chars_of(desc);
    let action = tag_word(d.as_slice(), "action:", "");
    let id = tag_word(d.as_slice(), "id:", "");
    if action.len() == 0 || id.len() == 0 {
        return Err(tool_error(MISSING_USAGE_TEXT, "Invalid Usage"));
    }
    let a = string_of(action.as_slice());
    match doc_command(d.as_slice(), a.as_str()) {
        Ok(command) => Ok(DocRequest { doc_id: string_of(id.as_slice()), command }),
        Err(e) => Err(e),
    }
}

/// How a draft is rendered.
#[derive(Clone, Copy, Debug, PartialEq, Eq, Structural)]
pub enum RenderTarget {
    Pdf,
    Text,
    Markdown,
    Html,
    Csv,
    Json,
}

/// The renderer for a lower-cased format name: PDF for `pdf` or no name, and
/// plain text for any name the composer does not know.
pub open spec fn spec_render_target(f: Seq<char>) -> RenderTarget {
    if f == "pdf"@ || f.len() == 0 {
        RenderTarget::Pdf
    } else if f == "md"@ || f == "markdown"@ {
        RenderTarget::Markdown
    } else if f == "html"@ {
        RenderTarget::Html
    } else if f == "csv"@ {
        RenderTarget::Csv
    } else if f == "json"@ {
        RenderTarget::Json
    } else {
        RenderTarget::Text
    }
}

/// The renderer for a lower-cased format name.
pub fn render_target(format: &str) -> (r: RenderTarget)
    ensures
        r == spec_render_target(format@),
{
    if str_eq(format, "pdf") || format.unicode_len() == 0 {
        RenderTarget::Pdf
    } else if str_eq(format, "md") || str_eq(format, "markdown") {
        RenderTarget::Markdown
    } else if str_eq(format, "html") {
        RenderTarget::Html
    } else if str_eq(format, "csv") {
        RenderTarget::Csv
    } else if str_eq(format, "json") {
        RenderTarget::Json
    } else {
        RenderTarget::Text
    }
}

} // verus!
