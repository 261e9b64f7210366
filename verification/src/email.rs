//! The e-mail tool: the message a request asks to send, and the mail server
//! settings it is sent with.  The message is sent outside this crate.
use vstd::prelude::*;
use crate::models::{tool_error, ToolError};
use crate::params::or_default;
use crate::tags::{extract_tag_chars, spec_extract_tag};
use crate::text::{append_str, chars_of, owned, parse_u32, spec_parse_unsigned, str_eq, string_of};

verus! {

/// An e-mail to send.
pub struct EmailRequest {
    pub to: String,
    pub subject: String,
    pub body: String,
}

/// The e-mail `desc` asks to send: its action (`send_email` by default) must
/// be `send_email` or `send`, and it needs a recipient and a body; the subject
/// defaults to `HIVE Transmission`.
pub open spec fn email_request_is(r: Result<EmailRequest, ToolError>, desc: Seq<char>) -> bool {
    let action = or_default(spec_extract_tag(desc, "action:"@), "send_email"@);
    let to = or_default(spec_extract_tag(desc, "to:"@), Seq::empty());
    let body = or_default(spec_extract_tag(desc, "body:"@), Seq::empty());
    if !(action == "send_email"@ || action == "send"@) {
        r matches Err(e) && e.output@ == "Error: Unrecognized action in email tool."@ && e.reason@ == "Bad Action"@
    } else if to.len() == 0 || body.len() == 0 {
        r matches Err(e) && e.output@ == "Error: Missing 'to:' or 'body:' fields."@ && e.reason@ == "Missing params"@
    } else {
        r matches Ok(m) && m.to@ == to && m.body@ == body && m.subject@ == or_default(
            spec_extract_tag(desc, "subject:"@),
            "HIVE Transmission"@,
        )
    }
}

fn tag_or(d: &[char], tag: &str, dflt: &str) -> (r: String)
    ensures
        r@ == or_default(spec_extract_tag(d@, tag@), dflt@),
{
    let g = chars_of(tag);
    match extract_tag_chars(d, g.as_slice()) {
        Some(v) => string_of(v.as_slice()),
        None => owned(dflt),
    }
}

/// The e-mail that `desc` asks to send.
pub fn parse_email_request(desc: &str) -> (r: Result<EmailRequest, ToolError>)
    ensures
        email_request_is(r, desc@),
{
    let dv = chars_of(desc);
    let d = dv.as_slice();
    let action = tag_or(d, "action:", "send_email");
    if !(str_eq(action.as_str(), "send_email") || str_eq(action.as_str(), "send")) {
        return Err(tool_error("Error: Unrecognized action in email tool.", "Bad Action"));
    }
    let to = tag_or(d, "to:", "");
    let body = tag_or(d, "body:", "");
    assert(""@ =~= Seq::<char>::empty()) by {
        reveal_strlit("");
    }
    if to.as_str().unicode_len() == 0 || body.as_str().unicode_len() == 0 {
        return Err(tool_error("Error: Missing 'to:' or 'body:' fields.", "Missing params"));
    }
    Ok(EmailRequest { to, subject: tag_or(d, "subject:", "HIVE Transmission"), body })
}

/// How the mail server is reached.
pub struct SmtpSettings {
    pub user: String,
    pub password: String,
    pub host: String,
    pub port: u16,
    /// Whether the connection is encrypted from the start (port 465), rather
    /// than upgraded on the given port.
    pub implicit_tls: bool,
}

/// The mail server settings from the configured values (absent ones as
/// `None`): user and password are required; the host defaults to Gmail's and
/// the port to 587, also when it is not a port number.
pub open spec fn smtp_settings_are(
    r: Result<SmtpSettings, ToolError>,
    user: Seq<char>,
    password: Seq<char>,
    host: Option<Seq<char>>,
    port: Option<Seq<char>>,
) -> bool {
    if user.len() == 0 || password.len() == 0 {
        r matches Err(e) && e.output@ == "Error: Active SMTP credentials missing from native Environment Variables."@
            && e.reason@ == "No Credentials"@
    } else {
        let p: nat = match spec_parse_unsigned(or_default(port, "587"@), u16::MAX as nat) {
            Some(n) => n,
            None => 587,
        };
        r matches Ok(s) && s.user@ == user && s.password@ == password && s.host@ == or_default(
            host,
            "smtp.gmail.com"@,
        ) && s.port as nat == p && s.implicit_tls == (p == 465)
    }
}

/// The mail server settings from the configured values.
pub fn smtp_settings(user: String, password: String, host: Option<String>, port: Option<String>) -> (r: Result<SmtpSettings, ToolError>)
    ensures
        smtp_settings_are(
            r,
            user@,
            password@,
            match host {
                Some(h) => Some(h@),
                None => None,
            },
            match port {
                Some(p) => Some(p@),
                None => None,
            },
        ),
{
    if user.as_str().unicode_len() == 0 || password.as_str().unicode_len() == 0 {
        return Err(
            tool_error(
                "Error: Active SMTP credentials missing from native Environment Variables.",
                "No Credentials",
            ),
        );
    }
    let host = match host {
        Some(h) => h,
        None => owned("smtp.gmail.com"),
    };
    let port_text = match port {
        Some(p) => chars_of(p.as_str()),
        None => chars_of("587"),
    };
    let port: u16 = match parse_u32(port_text.as_slice()) {
        Some(n) => if n <= 65535 { n as u16 } else { 587 },
        None => 587,
    };
    Ok(SmtpSettings { user, password, host, port, implicit_tls: port == 465 })
}

/// The sender of the agent's mail: `Apis <user>`.
pub fn sender_mailbox(user: &str) -> (r: String)
    ensures
        r@ == "Apis <"@ + user@ + ">"@,
{
    let mut o = chars_of("Apis <");
    append_str(&mut o, user);
    append_str(&mut o, ">");
    string_of(o.as_slice())
}

} // verus!
