//! The transcription back-end selected by `transcription.provider`.
use crate::text::{has_prefix, strip_prefix, str_eq, trim, trim_str};
use vstd::prelude::*;

verus! {

/// The transcription back-end: the local whisper.cpp command line tool, one of the hosted
/// services, the Parakeet model, or a custom OpenAI-compatible endpoint named in the
/// configuration.
#[derive(Debug, Clone, PartialEq, Eq)]
pub enum TranscriptionProvider {
    WhisperCpp,
    Groq,
    Gemini,
    Parakeet,
    Custom(String),
}

/// Mathematical model of a provider: the custom name as a character sequence.
pub enum ProviderModel {
    WhisperCpp,
    Groq,
    Gemini,
    Parakeet,
    Custom(Seq<char>),
}

impl View for TranscriptionProvider {
    type V = ProviderModel;

    open spec fn view(&self) -> ProviderModel {
        match self {
            TranscriptionProvider::WhisperCpp => ProviderModel::WhisperCpp,
            TranscriptionProvider::Groq => ProviderModel::Groq,
            TranscriptionProvider::Gemini => ProviderModel::Gemini,
            TranscriptionProvider::Parakeet => ProviderModel::Parakeet,
            TranscriptionProvider::Custom(name) => ProviderModel::Custom(name@),
        }
    }
}

/// The human-readable label shown for a provider.
pub open spec fn provider_label(p: ProviderModel) -> Seq<char> {
    match p {
        ProviderModel::WhisperCpp => "Local"@,
        ProviderModel::Groq => "Groq"@,
        ProviderModel::Gemini => "Gemini"@,
        ProviderModel::Parakeet => "Parakeet TDT"@,
        ProviderModel::Custom(name) => "Custom ("@ + name + ")"@,
    }
}

/// The text that stands for a provider in the configuration file.
pub open spec fn provider_text(p: ProviderModel) -> Seq<char> {
    match p {
        ProviderModel::WhisperCpp => "whisper_cpp"@,
        ProviderModel::Groq => "groq"@,
        ProviderModel::Gemini => "gemini"@,
        ProviderModel::Parakeet => "parakeet"@,
        ProviderModel::Custom(name) => "custom."@ + name,
    }
}

/// The prefix that introduces a custom provider's name.
pub open spec fn custom_prefix() -> Seq<char> {
    "custom."@
}

/// The configuration texts of the built-in providers.
pub open spec fn is_builtin_text(v: Seq<char>) -> bool {
    v == "whisper_cpp"@ || v == "groq"@ || v == "gemini"@ || v == "parakeet"@
}

/// The configuration texts that name a provider: a built-in name, or `custom.`
/// followed by a name that is not blank.
pub open spec fn is_provider_text(v: Seq<char>) -> bool {
    is_builtin_text(v) || (has_prefix(v, custom_prefix()) && trim(
        v.subrange(custom_prefix().len() as int, v.len() as int),
    ).len() > 0)
}

/// A provider that can be written to and read back from the configuration:
/// a custom provider's name must not be blank.
pub open spec fn is_valid_provider(p: ProviderModel) -> bool {
    p matches ProviderModel::Custom(name) ==> trim(name).len() > 0
}

/// A provider text that names no provider.
#[derive(Debug, Clone, PartialEq, Eq)]
pub struct UnknownProvider {
    pub value: String,
}

impl UnknownProvider {
    /// The error message: `unknown transcription provider '<value>'`.
    pub fn message(&self) -> (r: String)
        ensures
            r@ == "unknown transcription provider '"@ + self.value@ + "'"@,
    {
        let r = String::from_str("unknown transcription provider '");
        r.concat(self.value.as_str()).concat("'")
    }
}

impl Default for TranscriptionProvider {
    fn default() -> (r: Self)
        ensures
            r == TranscriptionProvider::WhisperCpp,
    {
        TranscriptionProvider::WhisperCpp
    }
}

impl TranscriptionProvider {
    /// The human-readable label of this provider.
    pub fn label(&self) -> (r: String)
        ensures
            r@ == provider_label(self@),
    {
        match self {
            TranscriptionProvider::WhisperCpp => String::from_str("Local"),
            TranscriptionProvider::Groq => String::from_str("Groq"),
            TranscriptionProvider::Gemini => String::from_str("Gemini"),
            TranscriptionProvider::Parakeet => String::from_str("Parakeet TDT"),
            TranscriptionProvider::Custom(name) => {
                let r = String::from_str("Custom (");
                r.concat(name.as_str()).concat(")")
            },
        }
    }

    /// The text that stands for this provider in the configuration file.
    pub fn to_config_string(&self) -> (r: String)
        ensures
            r@ == provider_text(self@),
    {
        match self {
            TranscriptionProvider::WhisperCpp => String::from_str("whisper_cpp"),
            TranscriptionProvider::Groq => String::from_str("groq"),
            TranscriptionProvider::Gemini => String::from_str("gemini"),
            TranscriptionProvider::Parakeet => String::from_str("parakeet"),
            TranscriptionProvider::Custom(name) => {
                let r = String::from_str("custom.");
                r.concat(name.as_str())
            },
        }
    }

    /// Reads a provider from its configuration text: one of the built-in names, or
    /// `custom.<name>` with a name that is not blank (kept as written).
    pub fn from_config_str(value: &str) -> (r: Result<Self, UnknownProvider>)
        ensures
            r is Ok <==> is_provider_text(value@),
            r matches Ok(p) ==> provider_text(p@) == value@,
            r matches Err(e) ==> e.value@ == value@,
    {
        proof {
            reveal_strlit("whisper_cpp");
            reveal_strlit("groq");
            reveal_strlit("gemini");
            reveal_strlit("parakeet");
            reveal_strlit("custom.");
        }
        if str_eq(value, "whisper_cpp") {
            return Ok(TranscriptionProvider::WhisperCpp);
        }
        if str_eq(value, "groq") {
            return Ok(TranscriptionProvider::Groq);
        }
        if str_eq(value, "gemini") {
            return Ok(TranscriptionProvider::Gemini);
        }
        if str_eq(value, "parakeet") {
            return Ok(TranscriptionProvider::Parakeet);
        }
        match strip_prefix(value, "custom.") {
            Some(name) => {
                let trimmed = trim_str(name);
                if trimmed.unicode_len() > 0 {
                    let p = TranscriptionProvider::Custom(String::from_str(name));
                    assert(provider_text(p@) =~= value@);
                    Ok(p)
                } else {
                    Err(UnknownProvider { value: String::from_str(value) })
                }
            },
            None => Err(UnknownProvider { value: String::from_str(value) }),
        }
    }
}

/// A provider with a non-blank name is written to a text that reads back: the text is
/// accepted, and no other provider is written to the same text, so reading gives the
/// provider back.
pub proof fn lemma_provider_text_round_trip(p: ProviderModel, q: ProviderModel)
    requires
        is_valid_provider(p),
    ensures
        is_provider_text(provider_text(p)),
        provider_text(q) == provider_text(p) ==> q == p,
{
    reveal_strlit("whisper_cpp");
    reveal_strlit("groq");
    reveal_strlit("gemini");
    reveal_strlit("parakeet");
    reveal_strlit("custom.");
    if let ProviderModel::Custom(name) = p {
        let t = provider_text(p);
        assert(t.subrange(0, 7) =~= custom_prefix());
        assert(t.subrange(7, t.len() as int) =~= name);
    }
    if provider_text(q) == provider_text(p) {
        let t = provider_text(p);
        assert("whisper_cpp"@.len() == 11 && "groq"@.len() == 4);
        assert("gemini"@.len() == 6 && "parakeet"@.len() == 8);
        match (q, p) {
            (ProviderModel::Custom(a), ProviderModel::Custom(b)) => {
                assert(a =~= t.subrange(7, t.len() as int));
                assert(b =~= t.subrange(7, t.len() as int));
            },
            (ProviderModel::Custom(a), _) => {
                assert(provider_text(q)[0] == 'c');
                assert(t[0] != 'c');
            },
            (_, ProviderModel::Custom(b)) => {
                assert(provider_text(p)[0] == 'c');
                assert(provider_text(q)[0] != 'c');
            },
            _ => {},
        }
    }
}

/// Every accepted text is written back unchanged by the provider read from it: the
/// configuration text of a provider is exactly what names it.
pub proof fn lemma_provider_text_is_valid(p: ProviderModel)
    requires
        is_provider_text(provider_text(p)),
    ensures
        is_valid_provider(p),
{
    reveal_strlit("whisper_cpp");
    reveal_strlit("groq");
    reveal_strlit("gemini");
    reveal_strlit("parakeet");
    reveal_strlit("custom.");
    if let ProviderModel::Custom(name) = p {
        let t = provider_text(p);
        assert(t.subrange(7, t.len() as int) =~= name);
        assert(t[0] == 'c');
    }
}

} // verus!
