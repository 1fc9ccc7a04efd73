//! The pure computations of the download invoker: the watch URL of one
//! result item, the fixed argument template of the external
//! extraction/transcode process, and the mapping of the process's
//! terminal signal to its outcome message.  Spawning the process is the
//! caller's business.

use vstd::prelude::*;
use vstd::string::*;
use crate::message::{ErrorKind, Ticket, WorkerMessage};

verus! {

/// The watch URL of one video id.
pub open spec fn watch_url_view(id: Seq<char>) -> Seq<char> {
    "https://www.youtube.com/watch?v="@ + id
}

/// The output path pattern under one destination directory, with the
/// title and extension left as placeholders for the external process.
pub open spec fn output_template_view(dir: Seq<char>) -> Seq<char> {
    dir + "/%(title)s.%(ext)s"@
}

/// Build the watch URL a download is launched against.
pub fn watch_url(video_id: &str) -> (r: String)
    ensures
        r@ == watch_url_view(video_id@),
{
    let mut url = String::new();
    url.append("https://www.youtube.com/watch?v=");
    url.append(video_id);
    proof {
        assert(url@ =~= watch_url_view(video_id@));
    }
    url
}

/// Build the output path pattern for one destination directory.
pub fn output_template(download_dir: &str) -> (r: String)
    ensures
        r@ == output_template_view(download_dir@),
{
    let mut path = download_dir.to_owned();
    path.append("/%(title)s.%(ext)s");
    proof {
        assert(path@ =~= output_template_view(download_dir@));
    }
    path
}

/// The fixed argument template of one external download invocation:
/// extract audio, in the given format, to the title/extension pattern
/// under the destination directory, embedding metadata, with the
/// transcoder's location, the source URL as the final positional
/// argument.
pub fn download_args(url: &str, download_dir: &str, audio_format: &str) -> (args: Vec<String>)
    ensures
        args@.len() == 9,
        args@[0]@ == "-x"@,
        args@[1]@ == "--audio-format"@,
        args@[2]@ == audio_format@,
        args@[3]@ == "-o"@,
        args@[4]@ == output_template_view(download_dir@),
        args@[5]@ == "--add-metadata"@,
        args@[6]@ == "--ffmpeg-location"@,
        args@[7]@ == "./ffmpeg/ffmpeg"@,
        args@[8]@ == url@,
{
    let mut args: Vec<String> = Vec::new();
    args.push("-x".to_owned());
    args.push("--audio-format".to_owned());
    args.push(audio_format.to_owned());
    args.push("-o".to_owned());
    args.push(output_template(download_dir));
    args.push("--add-metadata".to_owned());
    args.push("--ffmpeg-location".to_owned());
    args.push("./ffmpeg/ffmpeg".to_owned());
    args.push(url.to_owned());
    args
}

/// The outcome message one finished download posts, given the ticket it
/// was dispatched under and the external process's terminal signal:
/// exit code zero is success; a non-zero exit code or a process that
/// could not be started (no exit code at all) is an error correlated to
/// the same ticket.
pub fn exit_outcome(t: Ticket, exit_code: Option<i32>) -> (r: WorkerMessage)
    ensures
        exit_code == Some(0i32) ==> r == WorkerMessage::Done(t),
        (exit_code matches Some(code) && code != 0) ==> (r matches WorkerMessage::Error(c, d)
            && c == Some(t) && d@ == "download process exited with failure"@),
        exit_code is None ==> (r matches WorkerMessage::Error(c, d) && c == Some(t)
            && d@ == "download process could not be started"@),
{
    match exit_code {
        Some(code) => {
            if code == 0 {
                WorkerMessage::Done(t)
            } else {
                WorkerMessage::Error(Some(t), ErrorKind::ProcessExit.describe())
            }
        },
        None => WorkerMessage::Error(Some(t), ErrorKind::ProcessSpawn.describe()),
    }
}

} // verus!
