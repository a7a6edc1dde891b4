//! The closed command table and the argument schema of each command.
//!
//! The set of commands is fixed at build time: a name is either one of the
//! five commands below or unknown. Arguments arrive as a bag of optional
//! plain fields; each command reads the fields its schema names and
//! requires the others to be absent.

use vstd::prelude::*;
use vstd::string::StrSliceExecFns;

verus! {

/// One of the bridge's commands.
#[derive(Clone, Copy, Debug, PartialEq, Eq, Structural)]
pub enum Command {
    StartRecording,
    StopRecording,
    GetAudioDevices,
    TranscribeAudio,
    SummarizeTranscription,
}

/// The raw arguments of a dispatch, before validation: every field a
/// caller could supply, each optional.
#[derive(Debug, Clone, PartialEq, Eq)]
pub struct RawArguments {
    /// Index of the audio device to record from.
    pub device_index: Option<i64>,
    /// Text to summarize.
    pub text: Option<String>,
    /// Path or identifier of a recorded audio file to transcribe.
    pub audio_path: Option<String>,
}

impl RawArguments {
    /// Arguments with every field absent.
    pub fn empty() -> (r: RawArguments)
        ensures
            r.device_index is None,
            r.text is None,
            r.audio_path is None,
    {
        RawArguments { device_index: None, text: None, audio_path: None }
    }
}

/// Whether two string slices hold the same characters.
pub fn str_eq(a: &str, b: &str) -> (r: bool)
    ensures
        r == (a@ == b@),
{
    let a_len = a.unicode_len();
    let b_len = b.unicode_len();
    if a_len != b_len {
        return false;
    }
    let mut i: usize = 0;
    while i < a_len
        invariant
            a_len == a@.len(),
            b_len == b@.len(),
            a_len == b_len,
            i <= a_len,
            forall|j: int| 0 <= j < i ==> a@[j] == b@[j],
        decreases a_len - i,
    {
        if a.get_char(i) != b.get_char(i) {
            return false;
        }
        i = i + 1;
    }
    proof {
        assert(a@ =~= b@);
    }
    true
}

/// The command a name denotes, if any: the closed command table.
pub open spec fn spec_command_of_name(name: Seq<char>) -> Option<Command> {
    if name == "start_recording"@ {
        Some(Command::StartRecording)
    } else if name == "stop_recording"@ {
        Some(Command::StopRecording)
    } else if name == "get_audio_devices"@ {
        Some(Command::GetAudioDevices)
    } else if name == "transcribe_audio"@ {
        Some(Command::TranscribeAudio)
    } else if name == "summarize_transcription"@ {
        Some(Command::SummarizeTranscription)
    } else {
        None
    }
}

/// Looks a command name up in the closed command table.
pub fn command_of_name(name: &str) -> (r: Option<Command>)
    ensures
        r == spec_command_of_name(name@),
{
    if str_eq(name, "start_recording") {
        Some(Command::StartRecording)
    } else if str_eq(name, "stop_recording") {
        Some(Command::StopRecording)
    } else if str_eq(name, "get_audio_devices") {
        Some(Command::GetAudioDevices)
    } else if str_eq(name, "transcribe_audio") {
        Some(Command::TranscribeAudio)
    } else if str_eq(name, "summarize_transcription") {
        Some(Command::SummarizeTranscription)
    } else {
        None
    }
}

/// The argument schema of each command: which fields must be present,
/// what they must hold, and that all other fields are absent.
pub open spec fn spec_args_valid(c: Command, a: RawArguments) -> bool {
    match c {
        Command::StartRecording => (match a.device_index {
            None => true,
            Some(i) => i >= 0,
        }) && a.text is None && a.audio_path is None,
        Command::StopRecording => a.device_index is None && a.text is None
            && a.audio_path is None,
        Command::GetAudioDevices => a.device_index is None && a.text is None
            && a.audio_path is None,
        Command::TranscribeAudio => a.device_index is None && a.text is None
            && (a.audio_path matches Some(p) && p@.len() > 0),
        Command::SummarizeTranscription => a.device_index is None && a.audio_path is None
            && (a.text matches Some(t) && t@.len() > 0),
    }
}

/// Checks the raw arguments against the command's argument schema.
pub fn args_valid(c: Command, a: &RawArguments) -> (r: bool)
    ensures
        r == spec_args_valid(c, *a),
{
    match c {
        Command::StartRecording => {
            let index_ok = match &a.device_index {
                None => true,
                Some(i) => *i >= 0,
            };
            index_ok && a.text.is_none() && a.audio_path.is_none()
        },
        Command::StopRecording => {
            a.device_index.is_none() && a.text.is_none() && a.audio_path.is_none()
        },
        Command::GetAudioDevices => {
            a.device_index.is_none() && a.text.is_none() && a.audio_path.is_none()
        },
        Command::TranscribeAudio => {
            let path_ok = match &a.audio_path {
                None => false,
                Some(p) => !p.as_str().is_empty(),
            };
            a.device_index.is_none() && a.text.is_none() && path_ok
        },
        Command::SummarizeTranscription => {
            let text_ok = match &a.text {
                None => false,
                Some(t) => !t.as_str().is_empty(),
            };
            a.device_index.is_none() && a.audio_path.is_none() && text_ok
        },
    }
}

} // verus!
