//! What is asked of the worker: a command verb and its arguments.

use vstd::prelude::*;
use vstd::string::to_string_from_display_ensures;

verus! {

/// The two things the worker can do.
#[derive(Clone, Copy, Debug, PartialEq, Eq, Structural)]
pub enum Command {
    /// List the audio tracks of a video.
    GetTracks,
    /// Write a copy of a video with another audio track selected.
    SwitchTrack,
}

/// The verb that names a command on the worker's command line.
pub open spec fn verb_text(command: Command) -> Seq<char> {
    match command {
        Command::GetTracks => "get-tracks"@,
        Command::SwitchTrack => "switch-track"@,
    }
}

/// The file name of the worker executable, which lies beside the running
/// application.
pub open spec fn worker_file_text(windows: bool) -> Seq<char> {
    if windows {
        "audio-track-backend.exe"@
    } else {
        "audio-track-backend"@
    }
}

impl Command {
    /// The verb of this command.
    pub fn verb(&self) -> (r: &'static str)
        ensures
            r@ == verb_text(*self),
    {
        match self {
            Command::GetTracks => "get-tracks",
            Command::SwitchTrack => "switch-track",
        }
    }
}

/// The worker's file name on this kind of platform.
pub fn worker_file_name(windows: bool) -> (r: &'static str)
    ensures
        r@ == worker_file_text(windows),
{
    if windows {
        "audio-track-backend.exe"
    } else {
        "audio-track-backend"
    }
}

/// One request to the worker. The arguments follow the verb in this order.
#[derive(Debug, PartialEq, Eq)]
pub struct WorkerRequest {
    pub command: Command,
    pub args: Vec<String>,
}

/// Mathematical value of a list of arguments.
pub open spec fn args_view(args: Vec<String>) -> Seq<Seq<char>> {
    Seq::new(args@.len(), |i: int| args@[i]@)
}

impl WorkerRequest {
    /// The request for the audio tracks of the video at `video_path`.
    pub fn get_tracks(video_path: String) -> (r: WorkerRequest)
        ensures
            r.command == Command::GetTracks,
            args_view(r.args) == seq![video_path@],
    {
        let mut args: Vec<String> = Vec::new();
        args.push(video_path);
        proof {
            assert(args_view(args) =~= seq![video_path@]);
        }
        WorkerRequest { command: Command::GetTracks, args }
    }

    /// The request to copy the video at `input_path` to `output_path` with the
    /// audio track `track_index` selected. The index goes as the decimal text
    /// that std displays for it.
    pub fn switch_track(input_path: String, track_index: i32, output_path: String) -> (r:
        WorkerRequest)
        ensures
            r.command == Command::SwitchTrack,
            r.args@.len() == 3,
            r.args@[0]@ == input_path@,
            to_string_from_display_ensures::<i32>(&track_index, r.args@[1]),
            r.args@[2]@ == output_path@,
    {
        let mut args: Vec<String> = Vec::new();
        args.push(input_path);
        args.push(track_index.to_string());
        args.push(output_path);
        WorkerRequest { command: Command::SwitchTrack, args }
    }

    /// The words of the worker's command line after the executable: the verb,
    /// then the arguments in order.
    pub fn command_line(&self) -> (r: Vec<String>)
        ensures
            r@.len() == self.args@.len() + 1,
            r@[0]@ == verb_text(self.command),
            forall|i: int| 0 <= i < self.args@.len() ==> (#[trigger] r@[i + 1])@ == self.args@[i]@,
    {
        let mut words: Vec<String> = Vec::new();
        words.push(self.command.verb().to_owned());
        let mut i: usize = 0;
        while i < self.args.len()
            invariant
                i <= self.args.len(),
                words@.len() == i + 1,
                words@[0]@ == verb_text(self.command),
                forall|k: int| 0 <= k < i ==> (#[trigger] words@[k + 1])@ == self.args@[k]@,
            decreases self.args.len() - i,
        {
            words.push(self.args[i].clone());
            i += 1;
        }
        words
    }
}

} // verus!
