use job_dispatch::dispatch::{
    build_invocation, make_job_id, outcome_log_line, response_body, start_log_line, Dispatcher,
    JobOutcome,
};
use job_dispatch::request::validate_request;
use job_dispatch::request::GenerationRequest;

fn request(categories: Vec<&str>, prompt: Option<&str>) -> GenerationRequest {
    validate_request(
        Some(String::from("https://example.test/v.mp4")),
        Some(categories.into_iter().map(String::from).collect()),
        prompt.map(String::from),
    )
    .expect("a complete payload must validate")
}

#[test]
fn job_ids_render_the_counter_in_decimal() {
    assert_eq!(make_job_id(0), "job-0");
    assert_eq!(make_job_id(42), "job-42");
    assert_eq!(make_job_id(u64::MAX), "job-18446744073709551615");
}

#[test]
fn two_submissions_get_distinct_ids() {
    let mut d = Dispatcher::new();
    let req = request(vec!["Podcast"], None);
    let first = d.submit(&req);
    let second = d.submit(&req);
    assert_ne!(first.job_id, second.job_id);
    assert_eq!(first.job_id, "job-0");
    assert_eq!(second.job_id, "job-1");
}

#[test]
fn invocation_joins_category_display_names_in_order() {
    let req = request(vec!["Podcast", "Food & Cooking"], None);
    let inv = build_invocation(&req);
    assert_eq!(inv.args[2], "--categories=Podcast, Food & Cooking");
}

#[test]
fn invocation_without_prompt_has_no_prompt_token() {
    let req = request(vec!["Podcast"], None);
    let inv = build_invocation(&req);
    assert_eq!(inv.program, "python");
    assert_eq!(
        inv.args,
        vec!["fufufafaethon.py", "https://example.test/v.mp4", "--categories=Podcast"]
    );
}

#[test]
fn invocation_with_prompt_carries_it_verbatim_as_one_token() {
    let req = request(vec!["Podcast"], Some("make it upbeat"));
    let inv = build_invocation(&req);
    assert_eq!(inv.args.len(), 4);
    assert_eq!(inv.args[3], "--prompt=make it upbeat");
}

#[test]
fn invocation_passes_fallback_category_text_verbatim() {
    let req = request(vec!["Underwater Basket Weaving"], None);
    let inv = build_invocation(&req);
    assert_eq!(inv.args[2], "--categories=Underwater Basket Weaving");
}

#[test]
fn response_body_wraps_the_job_id() {
    assert_eq!(response_body("job-7"), "{\"data\":{\"jobId\":\"job-7\"}}");
}

#[test]
fn start_log_line_names_the_job() {
    assert_eq!(start_log_line("job-3"), "Starting new job (job-3)");
}

#[test]
fn outcome_log_lines_cover_every_ending() {
    let spawn_failed = JobOutcome::SpawnFailed(String::from("No such file or directory"));
    assert_eq!(
        outcome_log_line("job-0", &spawn_failed),
        "Job job-0 could not start: No such file or directory"
    );
    assert_eq!(
        outcome_log_line("job-1", &JobOutcome::Exited(Some(0))),
        "Job job-1 exited with status 0"
    );
    assert_eq!(
        outcome_log_line("job-2", &JobOutcome::Exited(Some(-11))),
        "Job job-2 exited with status -11"
    );
    assert_eq!(
        outcome_log_line("job-3", &JobOutcome::Exited(None)),
        "Job job-3 exited without a status code"
    );
}
