//! The voice synthesizer tool: the text a request asks to speak and the
//! answer to the synthesis.  The speech engine runs outside this crate.
use vstd::prelude::*;
use crate::models::ToolError;
use crate::params::or_default;
use crate::tags::{extract_tag_chars, spec_extract_tag};
use crate::text::{append_str, chars_of, owned, string_of};

verus! {

/// The text a request asks to speak: its `text:` tag, else the whole request.
pub fn voice_text(desc: &str) -> (r: String)
    ensures
        r@ == or_default(spec_extract_tag(desc@, "text:"@), desc@),
{
    let d = chars_of(desc);
    let g = chars_of("text:");
    match extract_tag_chars(d.as_slice(), g.as_slice()) {
        Some(v) => string_of(v.as_slice()),
        None => owned(desc),
    }
}

/// The engine's failure as the tool reports it.
pub fn voice_failure(stage: VoiceStage, error: &str) -> (r: String)
    ensures
        r@ == match stage {
            VoiceStage::Start => "Voice initialization failed: "@,
            VoiceStage::Generate => "Voice generation failed: "@,
        } + error@,
{
    let mut o = match stage {
        VoiceStage::Start => chars_of("Voice initialization failed: "),
        VoiceStage::Generate => chars_of("Voice generation failed: "),
    };
    append_str(&mut o, error);
    string_of(o.as_slice())
}

/// Where the engine failed.
#[derive(Clone, Copy, Debug, PartialEq, Eq, Structural)]
pub enum VoiceStage {
    /// Starting the engine.
    Start,
    /// Producing the audio.
    Generate,
}

/// The answer to a synthesis: the audio file to attach, or the failure
/// (whose text is also the reason).
pub fn voice_reply(outcome: Result<String, String>) -> (r: Result<String, ToolError>)
    ensures
        match outcome {
            Ok(path) => r matches Ok(m) && m@
                == "Audio generated successfully. YOU MUST include this EXACT tag in your human conversational response to proactively play the audio for the user:\n\n[ATTACH_AUDIO]("@
                + path@ + ")\n\n"@,
            Err(e) => r matches Err(x) && x.output@ == e@ && x.reason@ == e@,
        },
{
    match outcome {
        Ok(path) => {
            let mut o = chars_of(
                "Audio generated successfully. YOU MUST include this EXACT tag in your human conversational response to proactively play the audio for the user:\n\n[ATTACH_AUDIO](",
            );
            append_str(&mut o, path.as_str());
            append_str(&mut o, ")\n\n");
            Ok(string_of(o.as_slice()))
        },
        Err(e) => Err(ToolError { output: e.clone(), reason: e }),
    }
}

} // verus!
