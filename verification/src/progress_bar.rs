//! The notifier that asks for the device with a spinner on the terminal.

use crate::views::texts;
use vstd::prelude::*;
use vstd::string::StringExecFns;

verus! {

/// The seconds between two frames of the spinner.
pub const TICK_INTERVAL_SECS: u64 = 120;

/// Announces the wait for the device on a terminal spinner: how the spinner
/// looks, and what it says when the wait begins and ends.
#[derive(Debug)]
pub struct ProgressBarFallbackNotifier {
    pub tick_strings: Vec<String>,
    pub template: String,
    pub tick_interval_secs: u64,
}

/// The frames of the spinner; the last one is shown when it has finished.
pub open spec fn spinner_frames() -> Seq<Seq<char>> {
    seq!["▹▹▹▹▹"@, "▸▹▹▹▹"@, "▹▸▹▹▹"@, "▹▹▸▹▹"@, "▹▹▹▸▹"@, "▹▹▹▹▸"@, "▪▪▪▪▪"@]
}

/// The template of the spinner's line.
pub open spec fn spinner_template() -> Seq<char> {
    "{spinner:.blue} {msg}"@
}

/// The message while the device is waited for.
pub open spec fn start_message() -> Seq<char> {
    "Please insert and activate your U2F device..."@
}

/// The message the spinner finishes with.
pub open spec fn end_message() -> Seq<char> {
    "Processing sign request..."@
}

impl ProgressBarFallbackNotifier {
    /// Whether the spinner has the frames, the template and the pace that
    /// this crate gives it.
    pub open spec fn is_standard(&self) -> bool {
        &&& texts(self.tick_strings@) == spinner_frames()
        &&& self.template@ == spinner_template()
        &&& self.tick_interval_secs == TICK_INTERVAL_SECS
    }

    pub fn new() -> (notifier: Self)
        ensures
            notifier.is_standard(),
    {
        let mut tick_strings: Vec<String> = Vec::new();
        tick_strings.push(String::from_str("▹▹▹▹▹"));
        tick_strings.push(String::from_str("▸▹▹▹▹"));
        tick_strings.push(String::from_str("▹▸▹▹▹"));
        tick_strings.push(String::from_str("▹▹▸▹▹"));
        tick_strings.push(String::from_str("▹▹▹▸▹"));
        tick_strings.push(String::from_str("▹▹▹▹▸"));
        tick_strings.push(String::from_str("▪▪▪▪▪"));
        assert(texts(tick_strings@) =~= spinner_frames());
        Self {
            tick_strings,
            template: String::from_str("{spinner:.blue} {msg}"),
            tick_interval_secs: TICK_INTERVAL_SECS,
        }
    }

    /// The message to set when the wait begins.
    pub fn notify_start(&self) -> (message: String)
        ensures
            message@ == start_message(),
    {
        String::from_str("Please insert and activate your U2F device...")
    }

    /// The message to finish the spinner with when the wait has ended.
    pub fn notify_end(&self) -> (message: String)
        ensures
            message@ == end_message(),
    {
        String::from_str("Processing sign request...")
    }
}

} // verus!
