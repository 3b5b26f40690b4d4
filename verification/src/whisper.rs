//! The local whisper.cpp back-end: its settings, the WAV file it reads, the command line
//! it is run with, and how its output and failures are interpreted. Processes and files
//! are handled by the caller.
use crate::config::FloatBits;
use crate::defaults::is_non_finite;
use crate::discovery::{flag, joined, views, join_texts};
use crate::text::{concat2, concat3, decimal, decimal_string, join_path, path_join, trim, trim_str};
use vstd::prelude::*;

verus! {

/// Options of whisper.cpp's voice activity detection as the back-end runs it.
#[derive(Debug, Clone, PartialEq)]
pub struct WhisperVadOptions {
    pub enabled: bool,
    pub model_path: Option<String>,
    pub threshold: FloatBits,
    pub min_speech_ms: u32,
    pub min_silence_ms: u32,
    pub max_speech_s: FloatBits,
    pub speech_pad_ms: u32,
    pub samples_overlap: FloatBits,
}

impl WhisperVadOptions {
    /// Detection switched off, with the default thresholds (0.5, 250 ms, 100 ms,
    /// unlimited, 30 ms, 0.1).
    pub fn disabled() -> (r: Self)
        ensures
            !r.enabled,
            r.model_path is None,
            r.threshold == FloatBits(0x3F000000),
            r.min_speech_ms == 250,
            r.min_silence_ms == 100,
            r.max_speech_s == FloatBits(0x7F800000),
            r.speech_pad_ms == 30,
            r.samples_overlap == FloatBits(0x3DCCCCCD),
    {
        WhisperVadOptions {
            enabled: false,
            model_path: None,
            threshold: FloatBits(0x3F000000),
            min_speech_ms: 250,
            min_silence_ms: 100,
            max_speech_s: FloatBits(0x7F800000),
            speech_pad_ms: 30,
            samples_overlap: FloatBits(0x3DCCCCCD),
        }
    }

    /// Detection runs only when enabled and a model file was found.
    pub fn is_active(&self) -> (r: bool)
        ensures
            r == (self.enabled && self.model_path is Some),
    {
        self.enabled && self.model_path.is_some()
    }
}

/// The local whisper.cpp back-end.
#[derive(Debug, Clone)]
pub struct WhisperManager {
    pub model_path: String,
    pub binary_paths: Vec<String>,
    pub threads: usize,
    pub whisper_prompt: String,
    pub temp_dir: String,
    pub gpu_layers: i32,
    pub vad: WhisperVadOptions,
    pub no_speech_threshold: FloatBits,
}

/// Why the whisper.cpp back-end cannot run or failed.
#[derive(Debug, Clone, PartialEq, Eq)]
pub enum WhisperError {
    /// No binary was given.
    NoBinaries,
    /// The model file does not exist; `shown_path` is the model path as displayed.
    ModelNotFound { shown_path: String },
    /// None of the binaries exists; `tried` lists them, comma separated, or `<none>`.
    NoBinaryFound { tried: String },
    /// A binary exited unsuccessfully.
    Failed { exit: String, shown_binary: String, stderr: String },
    /// No binary could be run at all.
    AllFailed { tried: String },
}

/// The page models are downloaded from.
pub open spec fn models_url() -> Seq<char> {
    "https://huggingface.co/ggerganov/whisper.cpp/tree/main"@
}

/// The message that describes a `WhisperError`.
pub open spec fn whisper_error_message(e: WhisperError) -> Seq<char> {
    match e {
        WhisperError::NoBinaries =>
            "No whisper binaries found. Install whisper.cpp or provide a valid binary path."@,
        WhisperError::ModelNotFound { shown_path } => "Whisper model not found at: "@
            + shown_path@ + "\nDownload models from: "@ + models_url(),
        WhisperError::NoBinaryFound { tried } =>
            "None of the configured whisper binaries were found. Tried: "@ + tried@,
        WhisperError::Failed { exit, shown_binary, stderr } => "Whisper failed ("@ + exit@
            + ") using "@ + shown_binary@ + ": "@ + stderr@,
        WhisperError::AllFailed { tried } => "All whisper binaries failed. Tried: "@ + tried@,
    }
}

impl WhisperError {
    /// The message that describes this error.
    pub fn message(&self) -> (r: String)
        ensures
            r@ == whisper_error_message(*self),
    {
        match self {
            WhisperError::NoBinaries => String::from_str(
                "No whisper binaries found. Install whisper.cpp or provide a valid binary path.",
            ),
            WhisperError::ModelNotFound { shown_path } => {
                let r = concat3(
                    "Whisper model not found at: ",
                    shown_path.as_str(),
                    "\nDownload models from: ",
                );
                r.concat("https://huggingface.co/ggerganov/whisper.cpp/tree/main")
            },
            WhisperError::NoBinaryFound { tried } => concat2(
                "None of the configured whisper binaries were found. Tried: ",
                tried.as_str(),
            ),
            WhisperError::Failed { exit, shown_binary, stderr } => {
                let r = concat3("Whisper failed (", exit.as_str(), ") using ");
                r.concat(shown_binary.as_str()).concat(": ").concat(stderr.as_str())
            },
            WhisperError::AllFailed { tried } => concat2(
                "All whisper binaries failed. Tried: ",
                tried.as_str(),
            ),
        }
    }
}

/// A list of paths for a message: comma separated, or `<none>` when empty.
pub open spec fn tried_list(paths: Seq<Seq<char>>) -> Seq<char> {
    if paths.len() == 0 {
        "<none>"@
    } else {
        joined(paths, ", "@)
    }
}

/// A list of paths for a message: comma separated, or `<none>` when empty.
pub fn tried_text(paths: &Vec<String>) -> (r: String)
    ensures
        r@ == tried_list(views(paths@)),
{
    if paths.len() == 0 {
        String::from_str("<none>")
    } else {
        join_texts(paths, ", ")
    }
}

impl WhisperManager {
    /// Sets up the back-end; at least one binary path is needed.
    pub fn new(
        model_path: String,
        binary_paths: Vec<String>,
        threads: usize,
        whisper_prompt: String,
        temp_dir: String,
        gpu_layers: i32,
        vad: WhisperVadOptions,
        no_speech_threshold: FloatBits,
    ) -> (r: Result<Self, WhisperError>)
        ensures
            binary_paths@.len() == 0 ==> r == Err::<Self, WhisperError>(WhisperError::NoBinaries),
            binary_paths@.len() > 0 ==> (r matches Ok(m) && m.model_path == model_path
                && m.binary_paths == binary_paths && m.threads == threads && m.whisper_prompt
                == whisper_prompt && m.temp_dir == temp_dir && m.gpu_layers == gpu_layers && m.vad
                == vad && m.no_speech_threshold == no_speech_threshold),
    {
        if binary_paths.len() == 0 {
            return Err(WhisperError::NoBinaries);
        }
        Ok(
            WhisperManager {
                model_path,
                binary_paths,
                threads,
                whisper_prompt,
                temp_dir,
                gpu_layers,
                vad,
                no_speech_threshold,
            },
        )
    }

    /// Checks that the back-end can run: the model file must exist (`model_exists`;
    /// `shown_model_path` is how the path is displayed) and some binary must exist
    /// (`binary_exists[i]` tells whether `binary_paths[i]` does). Returns the index of the
    /// first binary that exists.
    pub fn initialize(&self, model_exists: bool, shown_model_path: &str, binary_exists: &[bool]) -> (r:
        Result<usize, WhisperError>)
        ensures
            !model_exists ==> (r matches Err(WhisperError::ModelNotFound { shown_path })
                && shown_path@ == shown_model_path@),
            model_exists ==> match r {
                Ok(i) => crate::discovery::is_first_existing(
                    binary_exists@,
                    self.binary_paths@.len() as int,
                    i as int,
                ),
                Err(e) => crate::discovery::none_exists(
                    binary_exists@,
                    self.binary_paths@.len() as int,
                ) && (e matches WhisperError::NoBinaryFound { tried } && tried@ == tried_list(
                    views(self.binary_paths@),
                )),
            },
    {
        if !model_exists {
            return Err(WhisperError::ModelNotFound { shown_path: String::from_str(shown_model_path) });
        }
        match crate::discovery::first_existing(self.binary_paths.len(), binary_exists) {
            Some(i) => Ok(i),
            None => Err(WhisperError::NoBinaryFound { tried: tried_text(&self.binary_paths) }),
        }
    }
}


/// The texts whisper-cli is given for the back-end's fractional settings, in their usual
/// decimal notation.
#[derive(Debug, Clone, PartialEq, Eq)]
pub struct NumberTexts {
    pub no_speech_threshold: String,
    pub vad_threshold: String,
    pub vad_max_speech_s: String,
    pub vad_samples_overlap: String,
}

/// The voice activity arguments: the model, the thresholds and durations, and the maximum
/// speech duration only when it is finite.
pub open spec fn vad_arg_list(vad: WhisperVadOptions, model: Seq<char>, t: NumberTexts) -> Seq<
    Seq<char>,
> {
    seq![
        "--vad"@,
        "--vad-model"@,
        model,
        "--vad-threshold"@,
        t.vad_threshold@,
        "--vad-min-speech-duration-ms"@,
        decimal(vad.min_speech_ms as nat),
        "--vad-min-silence-duration-ms"@,
        decimal(vad.min_silence_ms as nat),
    ] + (if !is_non_finite(vad.max_speech_s) {
        seq!["--vad-max-speech-duration-s"@, t.vad_max_speech_s@]
    } else {
        Seq::empty()
    }) + seq![
        "--vad-speech-pad-ms"@,
        decimal(vad.speech_pad_ms as nat),
        "--vad-samples-overlap"@,
        t.vad_samples_overlap@,
    ]
}

/// The whisper-cli arguments for transcribing `audio`: model, input, plain-text output
/// with language detection, threads, prompt, no timestamps, the no-speech gate, voice
/// activity options when detection is active, and `--no-gpu` when no layer goes to the
/// GPU.
pub open spec fn whisper_arg_list(m: WhisperManager, audio: Seq<char>, t: NumberTexts) -> Seq<
    Seq<char>,
> {
    seq![
        "-m"@,
        m.model_path@,
        "-f"@,
        audio,
        "--output-txt"@,
        "--language"@,
        "auto"@,
        "--threads"@,
        decimal(m.threads as nat),
        "--prompt"@,
        m.whisper_prompt@,
        "--no-timestamps"@,
        "--no-speech-thold"@,
        t.no_speech_threshold@,
    ] + (match m.vad.model_path {
        Some(p) => if m.vad.enabled {
            vad_arg_list(m.vad, p@, t)
        } else {
            Seq::empty()
        },
        None => Seq::empty(),
    }) + (if m.gpu_layers == 0 {
        seq!["--no-gpu"@]
    } else {
        Seq::empty()
    })
}

fn push_arg(out: &mut Vec<String>, a: &str)
    ensures
        views(final(out)@) == views(old(out)@).push(a@),
{
    let ghost before = out@;
    out.push(String::from_str(a));
    assert(views(out@) =~= views(before).push(a@));
}

fn push_number(out: &mut Vec<String>, n: u64)
    ensures
        views(final(out)@) == views(old(out)@).push(decimal(n as nat)),
{
    let ghost before = out@;
    let d = decimal_string(n);
    out.push(d);
    assert(views(out@) =~= views(before).push(decimal(n as nat)));
}

impl WhisperManager {
    /// The whisper-cli arguments for transcribing the file `audio_file` (see
    /// `whisper_arg_list`).
    pub fn whisper_args(&self, audio_file: &str, texts: &NumberTexts) -> (r: Vec<String>)
        ensures
            views(r@) == whisper_arg_list(*self, audio_file@, *texts),
    {
        let mut r: Vec<String> = Vec::new();
        push_arg(&mut r, "-m");
        push_arg(&mut r, self.model_path.as_str());
        push_arg(&mut r, "-f");
        push_arg(&mut r, audio_file);
        push_arg(&mut r, "--output-txt");
        push_arg(&mut r, "--language");
        push_arg(&mut r, "auto");
        push_arg(&mut r, "--threads");
        push_number(&mut r, self.threads as u64);
        push_arg(&mut r, "--prompt");
        push_arg(&mut r, self.whisper_prompt.as_str());
        push_arg(&mut r, "--no-timestamps");
        push_arg(&mut r, "--no-speech-thold");
        push_arg(&mut r, texts.no_speech_threshold.as_str());
        let ghost base = views(r@);
        if self.vad.is_active() {
            if let Some(model_path) = &self.vad.model_path {
                push_arg(&mut r, "--vad");
                push_arg(&mut r, "--vad-model");
                push_arg(&mut r, model_path.as_str());
                push_arg(&mut r, "--vad-threshold");
                push_arg(&mut r, texts.vad_threshold.as_str());
                push_arg(&mut r, "--vad-min-speech-duration-ms");
                push_number(&mut r, self.vad.min_speech_ms as u64);
                push_arg(&mut r, "--vad-min-silence-duration-ms");
                push_number(&mut r, self.vad.min_silence_ms as u64);
                if !crate::defaults::is_float_non_finite(&self.vad.max_speech_s) {
                    push_arg(&mut r, "--vad-max-speech-duration-s");
                    push_arg(&mut r, texts.vad_max_speech_s.as_str());
                }
                push_arg(&mut r, "--vad-speech-pad-ms");
                push_number(&mut r, self.vad.speech_pad_ms as u64);
                push_arg(&mut r, "--vad-samples-overlap");
                push_arg(&mut r, texts.vad_samples_overlap.as_str());
                assert(views(r@) =~= base + vad_arg_list(self.vad, model_path@, *texts));
            }
        }
        let ghost with_vad = views(r@);
        if self.gpu_layers == 0 {
            push_arg(&mut r, "--no-gpu");
        }
        assert(views(r@) =~= whisper_arg_list(*self, audio_file@, *texts));
        r
    }
}

/// How a process ended, for a message: `exit code <code>`, or `terminated by signal`.
pub open spec fn exit_description(code: Option<i32>) -> Seq<char> {
    match code {
        Some(c) => "exit code "@ + crate::text::signed_decimal(c as int),
        None => "terminated by signal"@,
    }
}

/// The transcript of one whisper-cli run. On failure, the error names how the process
/// ended, the binary (`shown_binary`, as displayed) and the trimmed error output. On
/// success, the trimmed transcript file (`transcript_file`, when whisper wrote one), or
/// else the trimmed standard output.
pub fn interpret_whisper_output(
    shown_binary: &str,
    success: bool,
    exit_code: Option<i32>,
    stderr: &str,
    transcript_file: Option<&str>,
    stdout: &str,
) -> (r: Result<String, WhisperError>)
    ensures
        !success ==> (r matches Err(WhisperError::Failed { exit, shown_binary: b, stderr: e })
            && exit@ == exit_description(exit_code) && b@ == shown_binary@ && e@ == trim(stderr@)),
        success ==> (r matches Ok(t) && t@ == trim(
            match transcript_file {
                Some(f) => f@,
                None => stdout@,
            },
        )),
{
    if !success {
        let exit = match exit_code {
            Some(c) => {
                let d = crate::text::signed_decimal_string(c as i64);
                concat2("exit code ", d.as_str())
            },
            None => String::from_str("terminated by signal"),
        };
        return Err(
            WhisperError::Failed {
                exit,
                shown_binary: String::from_str(shown_binary),
                stderr: String::from_str(trim_str(stderr)),
            },
        );
    }
    match transcript_file {
        Some(f) => Ok(String::from_str(trim_str(f))),
        None => Ok(String::from_str(trim_str(stdout))),
    }
}

/// The next binary to try: the first one at or after `from` that exists.
pub fn next_binary(n: usize, binary_exists: &[bool], from: usize) -> (r: Option<usize>)
    ensures
        match r {
            Some(i) => from <= i < n && flag(binary_exists@, i as int) && forall|j: int|
                from <= j < i ==> !flag(binary_exists@, j),
            None => forall|j: int| from <= j < n ==> !flag(binary_exists@, j),
        },
{
    let mut i = from;
    while i < n
        invariant
            from <= i || i == from,
            forall|j: int| from <= j < i ==> !flag(binary_exists@, j),
        decreases n - i,
    {
        if i < binary_exists.len() && binary_exists[i] {
            return Some(i);
        }
        i += 1;
    }
    None
}

/// What the loop over the whisper binaries does next.
#[derive(Debug, Clone, Copy, PartialEq, Eq, Structural)]
pub enum BinaryStep {
    /// The last run succeeded: its transcript is the result.
    UseTranscript,
    /// Run the binary with this index.
    Run(usize),
    /// No binary is left to try: report the last run's failure.
    ReportLastFailure,
    /// No binary exists, so none ran: report that all failed.
    ReportAllFailed,
}

/// The next step of the loop over the `n` binaries (`binary_exists[i]` tells whether
/// binary `i` exists), given the index of the last binary run, if any, and whether that
/// run succeeded. The loop stops at the first success; otherwise it runs the next
/// existing binary after the last one run; when none is left it reports the last
/// failure, or, when nothing ran, that all binaries failed.
pub fn binary_step(n: usize, binary_exists: &[bool], last_run: Option<usize>, last_succeeded: bool)
    -> (r: BinaryStep)
    ensures
        (last_run is Some && last_succeeded) ==> r == BinaryStep::UseTranscript,
        !(last_run is Some && last_succeeded) ==> ({
            let from: int = match last_run {
                Some(i) => i + 1,
                None => 0,
            };
            match r {
                BinaryStep::Run(i) => from <= i < n && flag(binary_exists@, i as int) && forall|j: int|
                    from <= j < i ==> !flag(binary_exists@, j),
                BinaryStep::ReportLastFailure => last_run is Some && forall|j: int|
                    from <= j < n ==> !flag(binary_exists@, j),
                BinaryStep::ReportAllFailed => last_run is None && forall|j: int|
                    0 <= j < n ==> !flag(binary_exists@, j),
                BinaryStep::UseTranscript => false,
            }
        }),
{
    if last_run.is_some() && last_succeeded {
        return BinaryStep::UseTranscript;
    }
    let from: usize = match last_run {
        Some(i) => if i < n {
            i + 1
        } else {
            n
        },
        None => 0,
    };
    match next_binary(n, binary_exists, from) {
        Some(i) => BinaryStep::Run(i),
        None => if last_run.is_some() {
            BinaryStep::ReportLastFailure
        } else {
            BinaryStep::ReportAllFailed
        },
    }
}

/// The error reported when no binary could be run: `attempted` lists those tried.
pub fn all_binaries_failed(attempted: &Vec<String>) -> (r: WhisperError)
    ensures
        r matches WhisperError::AllFailed { tried } && tried@ == tried_list(views(attempted@)),
{
    WhisperError::AllFailed { tried: tried_text(attempted) }
}

/// The file the recording is written to for whisper-cli: `audio_<pid>.wav` in the
/// temporary directory.
pub open spec fn temp_wav_path_of(temp_dir: Seq<char>, pid: u32) -> Seq<char> {
    join_path(temp_dir, "audio_"@ + decimal(pid as nat) + ".wav"@)
}

/// The transcript whisper-cli writes beside the recording: `audio_<pid>.txt`.
pub open spec fn transcript_path_of(temp_dir: Seq<char>, pid: u32) -> Seq<char> {
    join_path(temp_dir, "audio_"@ + decimal(pid as nat) + ".txt"@)
}

impl WhisperManager {
    /// The file the recording is written to, for process `pid`.
    pub fn temp_wav_path(&self, pid: u32) -> (r: String)
        ensures
            r@ == temp_wav_path_of(self.temp_dir@, pid),
    {
        let d = decimal_string(pid as u64);
        let name = concat3("audio_", d.as_str(), ".wav");
        path_join(self.temp_dir.as_str(), name.as_str())
    }

    /// The transcript whisper-cli writes for process `pid`.
    pub fn transcript_path(&self, pid: u32) -> (r: String)
        ensures
            r@ == transcript_path_of(self.temp_dir@, pid),
    {
        let d = decimal_string(pid as u64);
        let name = concat3("audio_", d.as_str(), ".txt");
        path_join(self.temp_dir.as_str(), name.as_str())
    }
}


/// Only a GPU layer count of zero turns the GPU off: the arguments for zero layers are
/// the arguments for any other count (negative ones included) followed by `--no-gpu`.
pub proof fn lemma_no_gpu_only_for_zero_layers(
    m: WhisperManager,
    layers: i32,
    audio: Seq<char>,
    t: NumberTexts,
)
    requires
        m.gpu_layers == 0,
        layers != 0,
    ensures
        whisper_arg_list(m, audio, t) == whisper_arg_list(
            WhisperManager { gpu_layers: layers, ..m },
            audio,
            t,
        ).push("--no-gpu"@),
        whisper_arg_list(m, audio, t).last() == "--no-gpu"@,
{
    let other = WhisperManager { gpu_layers: layers, ..m };
    assert(whisper_arg_list(m, audio, t) =~= whisper_arg_list(other, audio, t).push("--no-gpu"@));
}

} // verus!
