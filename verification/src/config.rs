use vstd::prelude::*;

use crate::error::ApiError;

verus! {

#[verifier::external_type_specification]
#[verifier::external_body]
pub struct ExSerdeValue(serde_json::Value);

/// Whether the structured-text decoder accepts `s` as one well-formed
/// document. Decoding is a function of the text alone, so this predicate is
/// left without a definition and pinned down only by [`parse_config_text`].
pub uninterp spec fn json_ok(s: Seq<char>) -> bool;

/// Relies on `serde_json::from_str::<serde_json::Value>`: whether a string
/// parses depends on the string alone; on failure the parser's diagnostic is
/// handed back as text.
#[verifier::external_body]
fn parse_config_text(s: &str) -> (r: Result<serde_json::Value, String>)
    ensures
        r is Ok <==> json_ok(s@),
{
    serde_json::from_str::<serde_json::Value>(s).map_err(|e| format!("{e}"))
}

/// A configuration argument as the front end carries it: the decoded,
/// controller-facing value together with the text it was decoded from (kept
/// in ghost form only). Its view is that source text.
pub struct ConfigPayload {
    value: serde_json::Value,
    text: Ghost<Seq<char>>,
}

impl View for ConfigPayload {
    type V = Seq<char>;

    closed spec fn view(&self) -> Seq<char> {
        self.text@
    }
}

impl ConfigPayload {
    /// A payload is well formed when its source text is a document the
    /// decoder accepts; decoding establishes this and nothing disturbs it.
    pub open spec fn wf(&self) -> bool {
        json_ok(self@)
    }

    /// Decode a caller's structured-text argument. Succeeds exactly on
    /// well-formed text, and the payload then carries that very text;
    /// malformed text yields a classified decode failure.
    pub fn decode(s: &str) -> (r: Result<ConfigPayload, ApiError>)
        ensures
            r is Ok <==> json_ok(s@),
            r matches Ok(p) ==> p@ == s@ && p.wf(),
            r matches Err(e) ==> e is Decode,
    {
        match parse_config_text(s) {
            Ok(value) => Ok(ConfigPayload { value, text: Ghost(s@) }),
            Err(m) => Err(ApiError::Decode(m)),
        }
    }

    /// The decoded value, for the consumer that executes the command.
    pub fn value(&self) -> &serde_json::Value {
        &self.value
    }
}

} // verus!
