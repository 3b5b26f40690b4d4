//! When two configurations are equal. Numbers compare as single-precision floats do
//! (a NaN equals nothing, the two zeros are equal), and lists of name/value pairs
//! compare as the maps they stand for: order does not matter, and when a name occurs
//! twice its last value counts.
use crate::config::{
    opt_view, texts_view, Config, CustomProviderConfig, FastVadConfig, FloatBits, GeminiConfig,
    GroqConfig, ParakeetConfig, PasteHintsConfig, SecretSource, ShortcutsConfig,
    TranscriptionConfig, ValueSource, VadConfig, WhisperCppConfig,
};
use crate::custom_openai::pairs_view;
use crate::provider::TranscriptionProvider;
use crate::text::str_eq;
use vstd::prelude::*;

verus! {

/// The value that a list of name/value pairs gives the name `k`, read as a map filled
/// pair by pair: the last pair named `k` wins; `None` when no pair is named `k`.
pub open spec fn lookup<V>(s: Seq<(Seq<char>, V)>, k: Seq<char>) -> Option<V>
    decreases s.len(),
{
    if s.len() == 0 {
        None
    } else if s.last().0 == k {
        Some(s.last().1)
    } else {
        lookup(s.drop_last(), k)
    }
}

/// A name that has a value occurs in the list.
pub proof fn lemma_lookup_has_key<V>(s: Seq<(Seq<char>, V)>, k: Seq<char>)
    requires
        lookup(s, k) is Some,
    ensures
        exists|j: int| 0 <= j < s.len() && s[j].0 == k,
    decreases s.len(),
{
    if s.last().0 == k {
        assert(s[s.len() - 1].0 == k);
    } else {
        lemma_lookup_has_key(s.drop_last(), k);
        let j = choose|j: int| 0 <= j < s.drop_last().len() && s.drop_last()[j].0 == k;
        assert(s[j] == s.drop_last()[j]);
    }
}

/// The entries of a list keyed by texts, with the keys as character sequences.
pub open spec fn keyed<V>(s: Seq<(String, V)>) -> Seq<(Seq<char>, V)> {
    s.map_values(|p: (String, V)| (p.0@, p.1))
}

/// No name occurs twice in a list of pairs.
pub open spec fn distinct_keys<V>(s: Seq<(Seq<char>, V)>) -> bool {
    forall|i: int, j: int| 0 <= i < j < s.len() ==> s[i].0 != s[j].0
}

/// Without repeated names, each pair of a list is the value of its name.
pub proof fn lemma_distinct_lookup<V>(s: Seq<(Seq<char>, V)>, i: int)
    requires
        distinct_keys(s),
        0 <= i < s.len(),
    ensures
        lookup(s, s[i].0) == Some(s[i].1),
    decreases s.len(),
{
    if i < s.len() - 1 {
        assert(s.last() == s[s.len() - 1]);
        assert(s.drop_last()[i] == s[i]);
        lemma_distinct_lookup(s.drop_last(), i);
    }
}

/// Two lists of text pairs stand for the same map.
pub open spec fn same_text_map(a: Seq<(Seq<char>, Seq<char>)>, b: Seq<(Seq<char>, Seq<char>)>) -> bool {
    forall|k: Seq<char>| #[trigger] lookup(a, k) == lookup(b, k)
}

/// A NaN encoding: all exponent bits set and a non-zero fraction.
pub open spec fn is_nan_bits(x: FloatBits) -> bool {
    x.0 % 0x8000_0000 > 0x7F80_0000
}

/// An encoding of zero, of either sign.
pub open spec fn is_zero_bits(x: FloatBits) -> bool {
    x.0 % 0x8000_0000 == 0
}

/// Float equality: neither is a NaN, and the encodings are equal or both are zeros.
pub open spec fn float_eq(a: FloatBits, b: FloatBits) -> bool {
    !is_nan_bits(a) && !is_nan_bits(b) && (a.0 == b.0 || (is_zero_bits(a) && is_zero_bits(b)))
}

/// Float equality of optional numbers.
pub open spec fn opt_float_eq(a: Option<FloatBits>, b: Option<FloatBits>) -> bool {
    match (a, b) {
        (None, None) => true,
        (Some(x), Some(y)) => float_eq(x, y),
        _ => false,
    }
}

fn float_equal(a: FloatBits, b: FloatBits) -> (r: bool)
    ensures
        r == float_eq(a, b),
{
    let x = a.0 % 0x8000_0000;
    let y = b.0 % 0x8000_0000;
    x <= 0x7F80_0000 && y <= 0x7F80_0000 && (a.0 == b.0 || (x == 0 && y == 0))
}

impl PartialEq for FloatBits {
    fn eq(&self, other: &Self) -> (r: bool) {
        float_equal(*self, *other)
    }
}

impl vstd::std_specs::cmp::PartialEqSpecImpl for FloatBits {
    open spec fn obeys_eq_spec() -> bool {
        true
    }

    open spec fn eq_spec(&self, other: &Self) -> bool {
        float_eq(*self, *other)
    }
}

fn opt_float_equal(a: Option<FloatBits>, b: Option<FloatBits>) -> (r: bool)
    ensures
        r == opt_float_eq(a, b),
{
    match (a, b) {
        (None, None) => true,
        (Some(x), Some(y)) => float_equal(x, y),
        _ => false,
    }
}

fn opt_text_equal(a: &Option<String>, b: &Option<String>) -> (r: bool)
    ensures
        r == (opt_view(*a) == opt_view(*b)),
{
    match (a, b) {
        (None, None) => true,
        (Some(x), Some(y)) => str_eq(x.as_str(), y.as_str()),
        _ => false,
    }
}

fn texts_equal(a: &Vec<String>, b: &Vec<String>) -> (r: bool)
    ensures
        r == (texts_view(a@) == texts_view(b@)),
{
    if a.len() != b.len() {
        assert(texts_view(a@).len() != texts_view(b@).len());
        return false;
    }
    let mut i: usize = 0;
    while i < a.len()
        invariant
            a@.len() == b@.len(),
            i <= a@.len(),
            forall|j: int| 0 <= j < i ==> a@[j]@ == b@[j]@,
        decreases a@.len() - i,
    {
        if !str_eq(a[i].as_str(), b[i].as_str()) {
            assert(texts_view(a@)[i as int] != texts_view(b@)[i as int]);
            return false;
        }
        i += 1;
    }
    assert(texts_view(a@) =~= texts_view(b@));
    true
}

/// The view of an optional borrowed text.
pub open spec fn opt_ref_view(o: Option<&String>) -> Option<Seq<char>> {
    match o {
        Some(s) => Some(s@),
        None => None,
    }
}

/// The value the pairs give `k` (see `lookup`).
pub fn find_text<'a>(v: &'a Vec<(String, String)>, k: &str) -> (r: Option<&'a String>)
    ensures
        opt_ref_view(r) == lookup(pairs_view(v@), k@),
{
    let mut found: Option<&String> = None;
    let mut i: usize = 0;
    while i < v.len()
        invariant
            i <= v@.len(),
            opt_ref_view(found) == lookup(pairs_view(v@).take(i as int), k@),
        decreases v@.len() - i,
    {
        let ghost t = pairs_view(v@).take(i + 1);
        assert(t.drop_last() =~= pairs_view(v@).take(i as int));
        assert(t.last() == (v@[i as int].0@, v@[i as int].1@));
        if str_eq(v[i].0.as_str(), k) {
            found = Some(&v[i].1);
        }
        i += 1;
    }
    assert(pairs_view(v@).take(v@.len() as int) =~= pairs_view(v@));
    found
}

fn opt_ref_text_equal(a: Option<&String>, b: Option<&String>) -> (r: bool)
    ensures
        r == (opt_ref_view(a) == opt_ref_view(b)),
{
    match (a, b) {
        (None, None) => true,
        (Some(x), Some(y)) => str_eq(x.as_str(), y.as_str()),
        _ => false,
    }
}

/// Whether every name of `a` has the same value in both lists.
fn text_map_agrees_on(a: &Vec<(String, String)>, b: &Vec<(String, String)>) -> (r: bool)
    ensures
        r == forall|j: int|
            0 <= j < a@.len() ==> lookup(pairs_view(a@), #[trigger] pairs_view(a@)[j].0)
                == lookup(pairs_view(b@), pairs_view(a@)[j].0),
{
    let ghost pa = pairs_view(a@);
    let ghost pb = pairs_view(b@);
    let mut i: usize = 0;
    while i < a.len()
        invariant
            i <= a@.len(),
            pa == pairs_view(a@),
            pb == pairs_view(b@),
            forall|j: int| 0 <= j < i ==> lookup(pa, #[trigger] pa[j].0) == lookup(pb, pa[j].0),
        decreases a@.len() - i,
    {
        let k = a[i].0.as_str();
        assert(pa[i as int].0 == k@);
        if !opt_ref_text_equal(find_text(a, k), find_text(b, k)) {
            return false;
        }
        i += 1;
    }
    true
}

/// Whether two lists of text pairs stand for the same map.
pub fn text_maps_equal(a: &Vec<(String, String)>, b: &Vec<(String, String)>) -> (r: bool)
    ensures
        r == same_text_map(pairs_view(a@), pairs_view(b@)),
{
    let ghost pa = pairs_view(a@);
    let ghost pb = pairs_view(b@);
    if !text_map_agrees_on(a, b) {
        return false;
    }
    if !text_map_agrees_on(b, a) {
        return false;
    }
    assert forall|k: Seq<char>| #[trigger] lookup(pa, k) == lookup(pb, k) by {
        if lookup(pa, k) is Some {
            lemma_lookup_has_key(pa, k);
            let j = choose|j: int| 0 <= j < pa.len() && pa[j].0 == k;
            assert(lookup(pa, pa[j].0) == lookup(pb, pa[j].0));
        } else if lookup(pb, k) is Some {
            lemma_lookup_has_key(pb, k);
            let j = choose|j: int| 0 <= j < pb.len() && pb[j].0 == k;
            assert(lookup(pb, pb[j].0) == lookup(pa, pb[j].0));
        }
    }
    true
}

// ---- the configuration sections ----

/// Equal shortcut settings.
pub open spec fn shortcuts_same(a: ShortcutsConfig, b: ShortcutsConfig) -> bool {
    opt_view(a.hold) == opt_view(b.hold) && opt_view(a.press) == opt_view(b.press)
}

/// Equal paste hints.
pub open spec fn paste_hints_same(a: PasteHintsConfig, b: PasteHintsConfig) -> bool {
    texts_view(a.shift@) == texts_view(b.shift@) && texts_view(a.shift_insert@) == texts_view(
        b.shift_insert@,
    )
}

/// Equal voice activity settings.
pub open spec fn vad_same(a: VadConfig, b: VadConfig) -> bool {
    &&& a.enabled == b.enabled
    &&& a.model@ == b.model@
    &&& float_eq(a.threshold, b.threshold)
    &&& a.min_speech_ms == b.min_speech_ms
    &&& a.min_silence_ms == b.min_silence_ms
    &&& float_eq(a.max_speech_s, b.max_speech_s)
    &&& a.speech_pad_ms == b.speech_pad_ms
    &&& float_eq(a.samples_overlap, b.samples_overlap)
}

/// Equal silence trimmer settings.
pub open spec fn fast_vad_same(a: FastVadConfig, b: FastVadConfig) -> bool {
    &&& a.enabled == b.enabled
    &&& a.profile == b.profile
    &&& a.min_speech_ms == b.min_speech_ms
    &&& a.silence_timeout_ms == b.silence_timeout_ms
    &&& a.pre_roll_ms == b.pre_roll_ms
    &&& a.post_roll_ms == b.post_roll_ms
    &&& a.volatility_window == b.volatility_window
    &&& float_eq(a.volatility_increase_threshold, b.volatility_increase_threshold)
    &&& float_eq(a.volatility_decrease_threshold, b.volatility_decrease_threshold)
}

/// Equal whisper.cpp settings.
pub open spec fn whisper_cpp_same(a: WhisperCppConfig, b: WhisperCppConfig) -> bool {
    &&& a.prompt@ == b.prompt@
    &&& a.model@ == b.model@
    &&& a.threads == b.threads
    &&& a.gpu_layers == b.gpu_layers
    &&& a.fallback_cli == b.fallback_cli
    &&& float_eq(a.no_speech_threshold, b.no_speech_threshold)
    &&& texts_view(a.models_dirs@) == texts_view(b.models_dirs@)
    &&& vad_same(a.vad, b.vad)
}

/// Equal Groq settings.
pub open spec fn groq_same(a: GroqConfig, b: GroqConfig) -> bool {
    a.model@ == b.model@ && a.endpoint@ == b.endpoint@ && a.prompt@ == b.prompt@
}

/// Equal Gemini settings.
pub open spec fn gemini_same(a: GeminiConfig, b: GeminiConfig) -> bool {
    &&& a.model@ == b.model@
    &&& a.endpoint@ == b.endpoint@
    &&& float_eq(a.temperature, b.temperature)
    &&& a.max_output_tokens == b.max_output_tokens
    &&& a.prompt@ == b.prompt@
}

/// Equal Parakeet settings.
pub open spec fn parakeet_same(a: ParakeetConfig, b: ParakeetConfig) -> bool {
    a.model_dir@ == b.model_dir@ && a.prompt@ == b.prompt@
}

/// Equal value sources.
pub open spec fn value_source_same(a: ValueSource, b: ValueSource) -> bool {
    opt_view(a.env) == opt_view(b.env) && opt_view(a.value) == opt_view(b.value)
}

/// Equal secret sources.
pub open spec fn secret_source_same(a: SecretSource, b: SecretSource) -> bool {
    &&& opt_view(a.env) == opt_view(b.env)
    &&& opt_view(a.file) == opt_view(b.file)
    &&& opt_view(a.file_env) == opt_view(b.file_env)
}

/// Equal custom providers: their headers and body fields compare as maps.
pub open spec fn custom_same(a: CustomProviderConfig, b: CustomProviderConfig) -> bool {
    &&& a.kind == b.kind
    &&& opt_view(a.label) == opt_view(b.label)
    &&& value_source_same(a.base_url, b.base_url)
    &&& a.endpoint@ == b.endpoint@
    &&& a.model@ == b.model@
    &&& a.audio_format@ == b.audio_format@
    &&& secret_source_same(a.api_key, b.api_key)
    &&& same_text_map(pairs_view(a.headers@), pairs_view(b.headers@))
    &&& same_text_map(pairs_view(a.body@), pairs_view(b.body@))
    &&& a.prompt@ == b.prompt@
}

/// Equal optional custom providers.
pub open spec fn opt_custom_same(a: Option<CustomProviderConfig>, b: Option<CustomProviderConfig>) -> bool {
    match (a, b) {
        (None, None) => true,
        (Some(x), Some(y)) => custom_same(x, y),
        _ => false,
    }
}

/// Two lists of custom providers stand for the same map of names to equal providers.
pub open spec fn same_custom_map(
    a: Seq<(Seq<char>, CustomProviderConfig)>,
    b: Seq<(Seq<char>, CustomProviderConfig)>,
) -> bool {
    forall|k: Seq<char>| #[trigger] opt_custom_same(lookup(a, k), lookup(b, k))
}

/// Equal transcription settings: the custom providers compare as a map.
pub open spec fn transcription_same(a: TranscriptionConfig, b: TranscriptionConfig) -> bool {
    &&& a.provider@ == b.provider@
    &&& a.request_timeout_secs == b.request_timeout_secs
    &&& a.max_retries == b.max_retries
    &&& whisper_cpp_same(a.whisper_cpp, b.whisper_cpp)
    &&& groq_same(a.groq, b.groq)
    &&& gemini_same(a.gemini, b.gemini)
    &&& parakeet_same(a.parakeet, b.parakeet)
    &&& same_custom_map(keyed(a.custom@), keyed(b.custom@))
}

/// Equal optional lists of texts.
pub open spec fn opt_texts_same(a: Option<Vec<String>>, b: Option<Vec<String>>) -> bool {
    match (a, b) {
        (None, None) => true,
        (Some(x), Some(y)) => texts_view(x@) == texts_view(y@),
        _ => false,
    }
}

/// Equal optional voice activity settings.
pub open spec fn opt_vad_same(a: Option<VadConfig>, b: Option<VadConfig>) -> bool {
    match (a, b) {
        (None, None) => true,
        (Some(x), Some(y)) => vad_same(x, y),
        _ => false,
    }
}

/// Equal configurations: every setting is equal, numbers as floats, and the word
/// overrides compare as a map.
pub open spec fn config_same(a: Config, b: Config) -> bool {
    &&& a.primary_shortcut@ == b.primary_shortcut@
    &&& shortcuts_same(a.shortcuts, b.shortcuts)
    &&& same_text_map(pairs_view(a.word_overrides@), pairs_view(b.word_overrides@))
    &&& a.audio_feedback == b.audio_feedback
    &&& float_eq(a.start_sound_volume, b.start_sound_volume)
    &&& float_eq(a.stop_sound_volume, b.stop_sound_volume)
    &&& opt_view(a.start_sound_path) == opt_view(b.start_sound_path)
    &&& opt_view(a.stop_sound_path) == opt_view(b.stop_sound_path)
    &&& a.auto_copy_clipboard == b.auto_copy_clipboard
    &&& a.shift_paste == b.shift_paste
    &&& a.global_paste_shortcut == b.global_paste_shortcut
    &&& paste_hints_same(a.paste_hints, b.paste_hints)
    &&& a.audio_device == b.audio_device
    &&& fast_vad_same(a.fast_vad, b.fast_vad)
    &&& transcription_same(a.transcription, b.transcription)
    &&& opt_view(a.legacy_model) == opt_view(b.legacy_model)
    &&& a.legacy_threads == b.legacy_threads
    &&& a.legacy_gpu_layers == b.legacy_gpu_layers
    &&& opt_view(a.legacy_whisper_prompt) == opt_view(b.legacy_whisper_prompt)
    &&& opt_texts_same(a.legacy_models_dirs, b.legacy_models_dirs)
    &&& opt_float_eq(a.legacy_no_speech_threshold, b.legacy_no_speech_threshold)
    &&& a.legacy_fallback_cli == b.legacy_fallback_cli
    &&& opt_vad_same(a.legacy_vad, b.legacy_vad)
}

fn vad_equal(a: &VadConfig, b: &VadConfig) -> (r: bool)
    ensures
        r == vad_same(*a, *b),
{
    a.enabled == b.enabled && str_eq(a.model.as_str(), b.model.as_str()) && float_equal(
        a.threshold,
        b.threshold,
    ) && a.min_speech_ms == b.min_speech_ms && a.min_silence_ms == b.min_silence_ms
        && float_equal(a.max_speech_s, b.max_speech_s) && a.speech_pad_ms == b.speech_pad_ms
        && float_equal(a.samples_overlap, b.samples_overlap)
}

fn fast_vad_equal(a: &FastVadConfig, b: &FastVadConfig) -> (r: bool)
    ensures
        r == fast_vad_same(*a, *b),
{
    a.enabled == b.enabled && a.profile == b.profile && a.min_speech_ms == b.min_speech_ms
        && a.silence_timeout_ms == b.silence_timeout_ms && a.pre_roll_ms == b.pre_roll_ms
        && a.post_roll_ms == b.post_roll_ms && a.volatility_window == b.volatility_window
        && float_equal(a.volatility_increase_threshold, b.volatility_increase_threshold)
        && float_equal(a.volatility_decrease_threshold, b.volatility_decrease_threshold)
}

fn whisper_cpp_equal(a: &WhisperCppConfig, b: &WhisperCppConfig) -> (r: bool)
    ensures
        r == whisper_cpp_same(*a, *b),
{
    str_eq(a.prompt.as_str(), b.prompt.as_str()) && str_eq(a.model.as_str(), b.model.as_str())
        && a.threads == b.threads && a.gpu_layers == b.gpu_layers && a.fallback_cli
        == b.fallback_cli && float_equal(a.no_speech_threshold, b.no_speech_threshold)
        && texts_equal(&a.models_dirs, &b.models_dirs) && vad_equal(&a.vad, &b.vad)
}

fn value_source_equal(a: &ValueSource, b: &ValueSource) -> (r: bool)
    ensures
        r == value_source_same(*a, *b),
{
    opt_text_equal(&a.env, &b.env) && opt_text_equal(&a.value, &b.value)
}

fn secret_source_equal(a: &SecretSource, b: &SecretSource) -> (r: bool)
    ensures
        r == secret_source_same(*a, *b),
{
    opt_text_equal(&a.env, &b.env) && opt_text_equal(&a.file, &b.file) && opt_text_equal(
        &a.file_env,
        &b.file_env,
    )
}

fn custom_equal(a: &CustomProviderConfig, b: &CustomProviderConfig) -> (r: bool)
    ensures
        r == custom_same(*a, *b),
{
    a.kind == b.kind && opt_text_equal(&a.label, &b.label) && value_source_equal(
        &a.base_url,
        &b.base_url,
    ) && str_eq(a.endpoint.as_str(), b.endpoint.as_str()) && str_eq(
        a.model.as_str(),
        b.model.as_str(),
    ) && str_eq(a.audio_format.as_str(), b.audio_format.as_str()) && secret_source_equal(
        &a.api_key,
        &b.api_key,
    ) && text_maps_equal(&a.headers, &b.headers) && text_maps_equal(&a.body, &b.body) && str_eq(
        a.prompt.as_str(),
        b.prompt.as_str(),
    )
}

/// The custom provider the list gives the name `k` (see `lookup`).
pub fn find_custom<'a>(v: &'a Vec<(String, CustomProviderConfig)>, k: &str) -> (r: Option<
    &'a CustomProviderConfig,
>)
    ensures
        match r {
            Some(c) => lookup(keyed(v@), k@) == Some(*c),
            None => lookup(keyed(v@), k@) is None,
        },
{
    let mut found: Option<&CustomProviderConfig> = None;
    let mut i: usize = 0;
    while i < v.len()
        invariant
            i <= v@.len(),
            match found {
                Some(c) => lookup(keyed(v@).take(i as int), k@) == Some(*c),
                None => lookup(keyed(v@).take(i as int), k@) is None,
            },
        decreases v@.len() - i,
    {
        let ghost t = keyed(v@).take(i + 1);
        assert(t.drop_last() =~= keyed(v@).take(i as int));
        assert(t.last() == (v@[i as int].0@, v@[i as int].1));
        if str_eq(v[i].0.as_str(), k) {
            found = Some(&v[i].1);
        }
        i += 1;
    }
    assert(keyed(v@).take(v@.len() as int) =~= keyed(v@));
    found
}

fn opt_custom_equal(a: Option<&CustomProviderConfig>, b: Option<&CustomProviderConfig>) -> (r:
    bool)
    ensures
        r == match (a, b) {
            (None, None) => true,
            (Some(x), Some(y)) => custom_same(*x, *y),
            _ => false,
        },
{
    match (a, b) {
        (None, None) => true,
        (Some(x), Some(y)) => custom_equal(x, y),
        _ => false,
    }
}

/// Whether every name of `a` gives equal providers in both lists.
fn custom_map_agrees_on(
    a: &Vec<(String, CustomProviderConfig)>,
    b: &Vec<(String, CustomProviderConfig)>,
) -> (r: bool)
    ensures
        r == forall|j: int|
            0 <= j < a@.len() ==> opt_custom_same(
                lookup(keyed(a@), #[trigger] keyed(a@)[j].0),
                lookup(keyed(b@), keyed(a@)[j].0),
            ),
{
    let ghost ka = keyed(a@);
    let ghost kb = keyed(b@);
    let mut i: usize = 0;
    while i < a.len()
        invariant
            i <= a@.len(),
            ka == keyed(a@),
            kb == keyed(b@),
            forall|j: int|
                0 <= j < i ==> opt_custom_same(lookup(ka, #[trigger] ka[j].0), lookup(kb, ka[j].0)),
        decreases a@.len() - i,
    {
        let k = a[i].0.as_str();
        assert(ka[i as int].0 == k@);
        let x = find_custom(a, k);
        let y = find_custom(b, k);
        if !opt_custom_equal(x, y) {
            return false;
        }
        i += 1;
    }
    true
}

/// Equal providers are equal in both orders.
proof fn lemma_custom_same_symmetric(a: CustomProviderConfig, b: CustomProviderConfig)
    ensures
        custom_same(a, b) == custom_same(b, a),
{
    if custom_same(a, b) {
        assert forall|k: Seq<char>| #[trigger]
            lookup(pairs_view(b.headers@), k) == lookup(pairs_view(a.headers@), k) by {
            assert(lookup(pairs_view(a.headers@), k) == lookup(pairs_view(b.headers@), k));
        }
        assert forall|k: Seq<char>| #[trigger]
            lookup(pairs_view(b.body@), k) == lookup(pairs_view(a.body@), k) by {
            assert(lookup(pairs_view(a.body@), k) == lookup(pairs_view(b.body@), k));
        }
    }
    if custom_same(b, a) {
        assert forall|k: Seq<char>| #[trigger]
            lookup(pairs_view(a.headers@), k) == lookup(pairs_view(b.headers@), k) by {
            assert(lookup(pairs_view(b.headers@), k) == lookup(pairs_view(a.headers@), k));
        }
        assert forall|k: Seq<char>| #[trigger]
            lookup(pairs_view(a.body@), k) == lookup(pairs_view(b.body@), k) by {
            assert(lookup(pairs_view(b.body@), k) == lookup(pairs_view(a.body@), k));
        }
    }
}

/// Whether two lists of custom providers stand for the same map.
fn custom_maps_equal(
    a: &Vec<(String, CustomProviderConfig)>,
    b: &Vec<(String, CustomProviderConfig)>,
) -> (r: bool)
    ensures
        r == same_custom_map(keyed(a@), keyed(b@)),
{
    let ghost ka = keyed(a@);
    let ghost kb = keyed(b@);
    if !custom_map_agrees_on(a, b) {
        return false;
    }
    if !custom_map_agrees_on(b, a) {
        proof {
            let j = choose|j: int|
                0 <= j < b@.len() && !opt_custom_same(lookup(kb, #[trigger] kb[j].0), lookup(ka, kb[j].0));
            let k = kb[j].0;
            if let (Some(x), Some(y)) = (lookup(ka, k), lookup(kb, k)) {
                lemma_custom_same_symmetric(x, y);
            }
            assert(!opt_custom_same(lookup(ka, k), lookup(kb, k)));
        }
        return false;
    }
    assert forall|k: Seq<char>| #[trigger] opt_custom_same(lookup(ka, k), lookup(kb, k)) by {
        if lookup(ka, k) is Some {
            lemma_lookup_has_key(ka, k);
            let j = choose|j: int| 0 <= j < ka.len() && ka[j].0 == k;
            assert(opt_custom_same(lookup(ka, ka[j].0), lookup(kb, ka[j].0)));
        } else if lookup(kb, k) is Some {
            lemma_lookup_has_key(kb, k);
            let j = choose|j: int| 0 <= j < kb.len() && kb[j].0 == k;
            assert(opt_custom_same(lookup(kb, kb[j].0), lookup(ka, kb[j].0)));
        }
    }
    true
}

fn provider_equal(a: &TranscriptionProvider, b: &TranscriptionProvider) -> (r: bool)
    ensures
        r == (a@ == b@),
{
    match (a, b) {
        (TranscriptionProvider::WhisperCpp, TranscriptionProvider::WhisperCpp) => true,
        (TranscriptionProvider::Groq, TranscriptionProvider::Groq) => true,
        (TranscriptionProvider::Gemini, TranscriptionProvider::Gemini) => true,
        (TranscriptionProvider::Parakeet, TranscriptionProvider::Parakeet) => true,
        (TranscriptionProvider::Custom(x), TranscriptionProvider::Custom(y)) => str_eq(
            x.as_str(),
            y.as_str(),
        ),
        _ => false,
    }
}

fn transcription_equal(a: &TranscriptionConfig, b: &TranscriptionConfig) -> (r: bool)
    ensures
        r == transcription_same(*a, *b),
{
    provider_equal(&a.provider, &b.provider) && a.request_timeout_secs == b.request_timeout_secs
        && a.max_retries == b.max_retries && whisper_cpp_equal(&a.whisper_cpp, &b.whisper_cpp)
        && str_eq(a.groq.model.as_str(), b.groq.model.as_str()) && str_eq(
        a.groq.endpoint.as_str(),
        b.groq.endpoint.as_str(),
    ) && str_eq(a.groq.prompt.as_str(), b.groq.prompt.as_str()) && str_eq(
        a.gemini.model.as_str(),
        b.gemini.model.as_str(),
    ) && str_eq(a.gemini.endpoint.as_str(), b.gemini.endpoint.as_str()) && float_equal(
        a.gemini.temperature,
        b.gemini.temperature,
    ) && a.gemini.max_output_tokens == b.gemini.max_output_tokens && str_eq(
        a.gemini.prompt.as_str(),
        b.gemini.prompt.as_str(),
    ) && str_eq(a.parakeet.model_dir.as_str(), b.parakeet.model_dir.as_str()) && str_eq(
        a.parakeet.prompt.as_str(),
        b.parakeet.prompt.as_str(),
    ) && custom_maps_equal(&a.custom, &b.custom)
}

fn opt_texts_equal(a: &Option<Vec<String>>, b: &Option<Vec<String>>) -> (r: bool)
    ensures
        r == opt_texts_same(*a, *b),
{
    match (a, b) {
        (None, None) => true,
        (Some(x), Some(y)) => texts_equal(x, y),
        _ => false,
    }
}

fn opt_vad_equal(a: &Option<VadConfig>, b: &Option<VadConfig>) -> (r: bool)
    ensures
        r == opt_vad_same(*a, *b),
{
    match (a, b) {
        (None, None) => true,
        (Some(x), Some(y)) => vad_equal(x, y),
        _ => false,
    }
}

fn config_equal(a: &Config, b: &Config) -> (r: bool)
    ensures
        r == config_same(*a, *b),
{
    str_eq(a.primary_shortcut.as_str(), b.primary_shortcut.as_str()) && opt_text_equal(
        &a.shortcuts.hold,
        &b.shortcuts.hold,
    ) && opt_text_equal(&a.shortcuts.press, &b.shortcuts.press) && text_maps_equal(
        &a.word_overrides,
        &b.word_overrides,
    ) && a.audio_feedback == b.audio_feedback && float_equal(
        a.start_sound_volume,
        b.start_sound_volume,
    ) && float_equal(a.stop_sound_volume, b.stop_sound_volume) && opt_text_equal(
        &a.start_sound_path,
        &b.start_sound_path,
    ) && opt_text_equal(&a.stop_sound_path, &b.stop_sound_path) && a.auto_copy_clipboard
        == b.auto_copy_clipboard && a.shift_paste == b.shift_paste && a.global_paste_shortcut
        == b.global_paste_shortcut && texts_equal(&a.paste_hints.shift, &b.paste_hints.shift)
        && texts_equal(&a.paste_hints.shift_insert, &b.paste_hints.shift_insert)
        && a.audio_device == b.audio_device && fast_vad_equal(&a.fast_vad, &b.fast_vad)
        && transcription_equal(&a.transcription, &b.transcription) && opt_text_equal(
        &a.legacy_model,
        &b.legacy_model,
    ) && a.legacy_threads == b.legacy_threads && a.legacy_gpu_layers == b.legacy_gpu_layers
        && opt_text_equal(&a.legacy_whisper_prompt, &b.legacy_whisper_prompt) && opt_texts_equal(
        &a.legacy_models_dirs,
        &b.legacy_models_dirs,
    ) && opt_float_equal(a.legacy_no_speech_threshold, b.legacy_no_speech_threshold)
        && a.legacy_fallback_cli == b.legacy_fallback_cli && opt_vad_equal(
        &a.legacy_vad,
        &b.legacy_vad,
    )
}

impl PartialEq for CustomProviderConfig {
    fn eq(&self, other: &Self) -> (r: bool) {
        custom_equal(self, other)
    }
}

impl vstd::std_specs::cmp::PartialEqSpecImpl for CustomProviderConfig {
    open spec fn obeys_eq_spec() -> bool {
        true
    }

    open spec fn eq_spec(&self, other: &Self) -> bool {
        custom_same(*self, *other)
    }
}

impl PartialEq for TranscriptionConfig {
    fn eq(&self, other: &Self) -> (r: bool) {
        transcription_equal(self, other)
    }
}

impl vstd::std_specs::cmp::PartialEqSpecImpl for TranscriptionConfig {
    open spec fn obeys_eq_spec() -> bool {
        true
    }

    open spec fn eq_spec(&self, other: &Self) -> bool {
        transcription_same(*self, *other)
    }
}

impl PartialEq for Config {
    fn eq(&self, other: &Self) -> (r: bool) {
        config_equal(self, other)
    }
}

impl vstd::std_specs::cmp::PartialEqSpecImpl for Config {
    open spec fn obeys_eq_spec() -> bool {
        true
    }

    open spec fn eq_spec(&self, other: &Self) -> bool {
        config_same(*self, *other)
    }
}


// ---- laws of configuration equality ----

/// Two numbers with equal encodings, or two zeros of either sign.
pub open spec fn same_number(x: FloatBits, y: FloatBits) -> bool {
    x.0 == y.0 || (x.0 % 0x8000_0000 == 0 && y.0 % 0x8000_0000 == 0)
}

/// A number that is not a NaN.
pub open spec fn is_number(x: FloatBits) -> bool {
    x.0 % 0x8000_0000 <= 0x7F80_0000
}

/// Float equality: numbers that are not NaN are equal exactly when their encodings are
/// equal or both are zeros; a NaN equals nothing, itself included.
pub proof fn lemma_float_equality(x: FloatBits, y: FloatBits)
    ensures
        float_eq(x, y) <==> (is_number(x) && is_number(y) && same_number(x, y)),
        is_number(x) ==> float_eq(x, x),
        !is_number(x) ==> !float_eq(x, y) && !float_eq(y, x),
{
}

/// Equal voice activity settings agree on every setting.
pub proof fn lemma_vad_same_fields(a: VadConfig, b: VadConfig)
    requires
        vad_same(a, b),
    ensures
        a.enabled == b.enabled,
        a.model@ == b.model@,
        same_number(a.threshold, b.threshold),
        a.min_speech_ms == b.min_speech_ms,
        a.min_silence_ms == b.min_silence_ms,
        same_number(a.max_speech_s, b.max_speech_s),
        a.speech_pad_ms == b.speech_pad_ms,
        same_number(a.samples_overlap, b.samples_overlap),
{
}

/// Equal custom providers agree on every setting; their headers and body fields give
/// every name the same value.
pub proof fn lemma_custom_same_fields(a: CustomProviderConfig, b: CustomProviderConfig)
    requires
        custom_same(a, b),
    ensures
        a.kind == b.kind,
        opt_view(a.label) == opt_view(b.label),
        opt_view(a.base_url.env) == opt_view(b.base_url.env),
        opt_view(a.base_url.value) == opt_view(b.base_url.value),
        a.endpoint@ == b.endpoint@,
        a.model@ == b.model@,
        a.audio_format@ == b.audio_format@,
        opt_view(a.api_key.env) == opt_view(b.api_key.env),
        opt_view(a.api_key.file) == opt_view(b.api_key.file),
        opt_view(a.api_key.file_env) == opt_view(b.api_key.file_env),
        forall|k: Seq<char>|
            #[trigger] lookup(pairs_view(a.headers@), k) == lookup(pairs_view(b.headers@), k),
        forall|k: Seq<char>| #[trigger] lookup(pairs_view(a.body@), k) == lookup(pairs_view(b.body@), k),
        a.prompt@ == b.prompt@,
{
}

/// Equal configurations agree on every setting: texts, flags and counts are equal,
/// numbers have equal encodings or are both zeros, name/value lists give every name the
/// same value, and the custom providers are named alike and each pair is equal.
pub proof fn lemma_config_same_fields(a: Config, b: Config)
    requires
        config_same(a, b),
    ensures
        a.primary_shortcut@ == b.primary_shortcut@,
        opt_view(a.shortcuts.hold) == opt_view(b.shortcuts.hold),
        opt_view(a.shortcuts.press) == opt_view(b.shortcuts.press),
        forall|k: Seq<char>|
            #[trigger] lookup(pairs_view(a.word_overrides@), k) == lookup(
                pairs_view(b.word_overrides@),
                k,
            ),
        a.audio_feedback == b.audio_feedback,
        same_number(a.start_sound_volume, b.start_sound_volume),
        same_number(a.stop_sound_volume, b.stop_sound_volume),
        opt_view(a.start_sound_path) == opt_view(b.start_sound_path),
        opt_view(a.stop_sound_path) == opt_view(b.stop_sound_path),
        a.auto_copy_clipboard == b.auto_copy_clipboard,
        a.shift_paste == b.shift_paste,
        a.global_paste_shortcut == b.global_paste_shortcut,
        texts_view(a.paste_hints.shift@) == texts_view(b.paste_hints.shift@),
        texts_view(a.paste_hints.shift_insert@) == texts_view(b.paste_hints.shift_insert@),
        a.audio_device == b.audio_device,
        a.fast_vad.enabled == b.fast_vad.enabled,
        a.fast_vad.profile == b.fast_vad.profile,
        a.fast_vad.min_speech_ms == b.fast_vad.min_speech_ms,
        a.fast_vad.silence_timeout_ms == b.fast_vad.silence_timeout_ms,
        a.fast_vad.pre_roll_ms == b.fast_vad.pre_roll_ms,
        a.fast_vad.post_roll_ms == b.fast_vad.post_roll_ms,
        a.fast_vad.volatility_window == b.fast_vad.volatility_window,
        same_number(
            a.fast_vad.volatility_increase_threshold,
            b.fast_vad.volatility_increase_threshold,
        ),
        same_number(
            a.fast_vad.volatility_decrease_threshold,
            b.fast_vad.volatility_decrease_threshold,
        ),
        a.transcription.provider@ == b.transcription.provider@,
        a.transcription.request_timeout_secs == b.transcription.request_timeout_secs,
        a.transcription.max_retries == b.transcription.max_retries,
        a.transcription.whisper_cpp.prompt@ == b.transcription.whisper_cpp.prompt@,
        a.transcription.whisper_cpp.model@ == b.transcription.whisper_cpp.model@,
        a.transcription.whisper_cpp.threads == b.transcription.whisper_cpp.threads,
        a.transcription.whisper_cpp.gpu_layers == b.transcription.whisper_cpp.gpu_layers,
        a.transcription.whisper_cpp.fallback_cli == b.transcription.whisper_cpp.fallback_cli,
        same_number(
            a.transcription.whisper_cpp.no_speech_threshold,
            b.transcription.whisper_cpp.no_speech_threshold,
        ),
        texts_view(a.transcription.whisper_cpp.models_dirs@) == texts_view(
            b.transcription.whisper_cpp.models_dirs@,
        ),
        vad_same(a.transcription.whisper_cpp.vad, b.transcription.whisper_cpp.vad),
        a.transcription.groq.model@ == b.transcription.groq.model@,
        a.transcription.groq.endpoint@ == b.transcription.groq.endpoint@,
        a.transcription.groq.prompt@ == b.transcription.groq.prompt@,
        a.transcription.gemini.model@ == b.transcription.gemini.model@,
        a.transcription.gemini.endpoint@ == b.transcription.gemini.endpoint@,
        same_number(a.transcription.gemini.temperature, b.transcription.gemini.temperature),
        a.transcription.gemini.max_output_tokens == b.transcription.gemini.max_output_tokens,
        a.transcription.gemini.prompt@ == b.transcription.gemini.prompt@,
        a.transcription.parakeet.model_dir@ == b.transcription.parakeet.model_dir@,
        a.transcription.parakeet.prompt@ == b.transcription.parakeet.prompt@,
        forall|k: Seq<char>|
            (#[trigger] lookup(keyed(a.transcription.custom@), k) is Some) == (lookup(
                keyed(b.transcription.custom@),
                k,
            ) is Some),
        forall|k: Seq<char>|
            #[trigger] lookup(keyed(a.transcription.custom@), k) is Some ==> custom_same(
                lookup(keyed(a.transcription.custom@), k)->0,
                lookup(keyed(b.transcription.custom@), k)->0,
            ),
        opt_view(a.legacy_model) == opt_view(b.legacy_model),
        a.legacy_threads == b.legacy_threads,
        a.legacy_gpu_layers == b.legacy_gpu_layers,
        opt_view(a.legacy_whisper_prompt) == opt_view(b.legacy_whisper_prompt),
        opt_texts_same(a.legacy_models_dirs, b.legacy_models_dirs),
        a.legacy_no_speech_threshold is Some == b.legacy_no_speech_threshold is Some,
        a.legacy_no_speech_threshold is Some ==> same_number(
            a.legacy_no_speech_threshold->0,
            b.legacy_no_speech_threshold->0,
        ),
        a.legacy_fallback_cli == b.legacy_fallback_cli,
        a.legacy_vad is Some == b.legacy_vad is Some,
        a.legacy_vad is Some ==> vad_same(a.legacy_vad->0, b.legacy_vad->0),
{
    let ka = keyed(a.transcription.custom@);
    let kb = keyed(b.transcription.custom@);
    assert forall|k: Seq<char>| (#[trigger] lookup(ka, k) is Some) == (lookup(kb, k) is Some) by {
        assert(opt_custom_same(lookup(ka, k), lookup(kb, k)));
    }
    assert forall|k: Seq<char>| #[trigger] lookup(ka, k) is Some implies custom_same(
        lookup(ka, k)->0,
        lookup(kb, k)->0,
    ) by {
        assert(opt_custom_same(lookup(ka, k), lookup(kb, k)));
    }
}

/// Every number of a configuration, the legacy ones included, is not a NaN.
pub open spec fn config_numbers_are_numbers(c: Config) -> bool {
    let w = c.transcription.whisper_cpp;
    &&& is_number(c.start_sound_volume)
    &&& is_number(c.stop_sound_volume)
    &&& is_number(c.fast_vad.volatility_increase_threshold)
    &&& is_number(c.fast_vad.volatility_decrease_threshold)
    &&& is_number(w.no_speech_threshold)
    &&& is_number(w.vad.threshold)
    &&& is_number(w.vad.max_speech_s)
    &&& is_number(w.vad.samples_overlap)
    &&& is_number(c.transcription.gemini.temperature)
    &&& (c.legacy_no_speech_threshold matches Some(x) ==> is_number(x))
    &&& (c.legacy_vad matches Some(v) ==> is_number(v.threshold) && is_number(v.max_speech_s)
        && is_number(v.samples_overlap))
}

/// A configuration without NaNs equals itself, so reading an unchanged file again
/// publishes nothing.
pub proof fn lemma_config_same_reflexive(c: Config)
    requires
        config_numbers_are_numbers(c),
    ensures
        config_same(c, c),
{
    let k = keyed(c.transcription.custom@);
    assert forall|n: Seq<char>| #[trigger] opt_custom_same(lookup(k, n), lookup(k, n)) by {
        if let Some(p) = lookup(k, n) {
            assert(same_text_map(pairs_view(p.headers@), pairs_view(p.headers@)));
            assert(same_text_map(pairs_view(p.body@), pairs_view(p.body@)));
        }
    }
}

/// Configurations that differ in a setting are not equal: in particular, changing only
/// the transcription provider makes a different configuration.
pub proof fn lemma_config_provider_change_is_a_change(a: Config, b: Config)
    requires
        a.transcription.provider@ != b.transcription.provider@,
    ensures
        !config_same(a, b),
{
    if config_same(a, b) {
        lemma_config_same_fields(a, b);
    }
}

} // verus!
