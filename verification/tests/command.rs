use job_supervisor::action::POLL_PERIOD_MS;
use job_supervisor::command::{launch_plan, LaunchPlan, DOWNLOADER, DOWNLOAD_DIR};
use job_supervisor::error::JobError;
use job_supervisor::model::JobState;

#[test]
fn plan_names_the_downloader_and_its_directory() {
    let plan = launch_plan(Vec::new());
    assert_eq!(plan.program, "youtube-dl");
    assert_eq!(plan.working_dir, "./download");
    assert_eq!(DOWNLOADER, "youtube-dl");
    assert_eq!(DOWNLOAD_DIR, "./download");
}

#[test]
fn plan_holds_the_arguments_in_order() {
    let plan = launch_plan(b"https://example.org/a\n".to_vec());
    assert_eq!(
        plan.args,
        vec![
            "--embed-thumbnail",
            "--add-metadata",
            "--extract-audio",
            "--ignore-errors",
            "--audio-format",
            "best",
            "-a",
            "-",
        ]
    );
}

#[test]
fn plan_reads_addresses_from_standard_input() {
    let plan = launch_plan(Vec::new());
    let n = plan.args.len();
    assert_eq!(n, 8);
    assert_eq!(plan.args[n - 2], "-a");
    assert_eq!(plan.args[n - 1], "-");
}

#[test]
fn plan_passes_the_payload_through_untouched() {
    let payload = b"https://example.org/a\nhttps://example.org/b\n".to_vec();
    let plan = launch_plan(payload.clone());
    assert_eq!(plan.stdin, payload);
}

#[test]
fn plan_takes_bytes_that_are_not_text() {
    let payload = vec![0u8, 255, 10, 13, 0];
    let plan = launch_plan(payload.clone());
    assert_eq!(plan.stdin, payload);
}

#[test]
fn plan_for_an_empty_payload_has_empty_input() {
    let plan = launch_plan(Vec::new());
    assert_eq!(
        plan,
        LaunchPlan {
            program: "youtube-dl",
            args: vec![
                "--embed-thumbnail",
                "--add-metadata",
                "--extract-audio",
                "--ignore-errors",
                "--audio-format",
                "best",
                "-a",
                "-",
            ],
            working_dir: "./download",
            stdin: Vec::new(),
        }
    );
}

#[test]
fn poll_period_is_one_second() {
    assert_eq!(POLL_PERIOD_MS, 1000);
}

#[test]
fn launch_error_message_is_the_detail() {
    let error = JobError::Launch(String::from("No such file or directory (os error 2)"));
    assert_eq!(error.message(), "No such file or directory (os error 2)");
}

#[test]
fn poll_error_message_is_the_detail() {
    let error = JobError::Poll(String::from("broken pipe"));
    assert_eq!(error.message(), "broken pipe");
}

#[test]
fn error_kinds_with_the_same_detail_differ() {
    assert_ne!(JobError::Launch(String::from("x")), JobError::Poll(String::from("x")));
}

#[test]
fn job_state_is_idle_by_default() {
    assert_eq!(JobState::default(), JobState::Idle);
}
