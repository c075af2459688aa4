//! The fixed invocation of the downloader tool.

use vstd::prelude::*;

verus! {

/// Name of the downloader executable, looked up on the search path.
pub const DOWNLOADER: &'static str = "youtube-dl";

/// Directory the downloader runs in, relative to where the host was started.
pub const DOWNLOAD_DIR: &'static str = "./download";

/// Everything the host needs to spawn the downloader for one job.
#[derive(Debug, PartialEq, Eq)]
pub struct LaunchPlan {
    /// Executable to run.
    pub program: &'static str,
    /// Arguments, in the order the tool expects them.
    pub args: Vec<&'static str>,
    /// Working directory of the child process.
    pub working_dir: &'static str,
    /// Bytes written once to the child's standard input, which is then closed.
    pub stdin: Vec<u8>,
}

/// Mathematical content of a [`LaunchPlan`].
pub struct LaunchPlanView {
    pub program: Seq<char>,
    pub args: Seq<Seq<char>>,
    pub working_dir: Seq<char>,
    pub stdin: Seq<u8>,
}

impl DeepView for LaunchPlan {
    type V = LaunchPlanView;

    open spec fn deep_view(&self) -> LaunchPlanView {
        LaunchPlanView {
            program: self.program@,
            args: self.args.deep_view(),
            working_dir: self.working_dir@,
            stdin: self.stdin@,
        }
    }
}

/// The downloader's arguments: embed the thumbnail, add metadata, extract the
/// audio track in the best available format, carry on past items that fail,
/// and read the list of addresses from standard input.
pub open spec fn downloader_args() -> Seq<Seq<char>> {
    seq![
        "--embed-thumbnail"@,
        "--add-metadata"@,
        "--extract-audio"@,
        "--ignore-errors"@,
        "--audio-format"@,
        "best"@,
        "-a"@,
        "-"@,
    ]
}

/// The plan for a job whose payload is `input`.
pub open spec fn plan_for(input: Seq<u8>) -> LaunchPlanView {
    LaunchPlanView {
        program: DOWNLOADER@,
        args: downloader_args(),
        working_dir: DOWNLOAD_DIR@,
        stdin: input,
    }
}

/// Builds the invocation for one job. The payload is passed through
/// untouched; everything else is fixed.
pub fn launch_plan(input: Vec<u8>) -> (plan: LaunchPlan)
    ensures
        plan.deep_view() == plan_for(input@),
{
    let args: Vec<&'static str> = vec![
        "--embed-thumbnail",
        "--add-metadata",
        "--extract-audio",
        "--ignore-errors",
        "--audio-format",
        "best",
        "-a",
        "-",
    ];
    assert(args.deep_view() =~= downloader_args());
    LaunchPlan { program: DOWNLOADER, args, working_dir: DOWNLOAD_DIR, stdin: input }
}

} // verus!
