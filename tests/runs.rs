use issue_summary::pipeline::{ChatRequest, Config, Phase, Request, Run};
use issue_summary::thread::{thread_fragments, thread_text, Comment, Issue};
use issue_summary::tokens::encode_stream;
use issue_summary::trigger::{Event, IssueAction};

fn config(budget: usize, threshold: usize) -> Config {
    Config { trigger: "issue summarize".to_string(), budget, threshold }
}

fn issue(body: &str) -> Issue {
    Issue {
        number: 7,
        title: "Slow build".to_string(),
        body: Some(body.to_string()),
        creator_login: "dana".to_string(),
        creator_role: "CONTRIBUTOR".to_string(),
        labels: vec!["perf".to_string()],
        url: "https://example.com/o/r/issues/7".to_string(),
    }
}

fn event() -> Event {
    Event::IssueOpenedOrUpdated {
        issue_id: 7,
        action: IssueAction::Other,
        body: Some("please issue summarize".to_string()),
    }
}

fn chat(r: Request) -> ChatRequest {
    match r {
        Request::Complete(q) => q,
        other => panic!("expected a chat request, got {:?}", other),
    }
}

fn started(budget: usize, threshold: usize, body: &str) -> Run {
    let mut run = Run::new(config(budget, threshold));
    assert_eq!(run.start(&event()), Request::FetchIssue(7));
    assert_eq!(run.on_issue(Some(issue(body))), Request::ListComments(7));
    run
}

#[test]
fn absent_trigger_makes_no_call() {
    let mut run = Run::new(config(2800, 2800));
    let e = Event::IssueOpenedOrUpdated { issue_id: 7, action: IssueAction::Other, body: Some("hi".to_string()) };
    assert_eq!(run.start(&e), Request::Stop);
    assert_eq!(run.phase, Phase::Done);
}

#[test]
fn closed_issue_makes_no_call() {
    let mut run = Run::new(config(2800, 2800));
    let e = Event::IssueOpenedOrUpdated {
        issue_id: 7,
        action: IssueAction::Closed,
        body: Some("issue summarize".to_string()),
    };
    assert_eq!(run.start(&e), Request::Stop);
}

#[test]
fn failed_issue_fetch_never_delivers() {
    let mut run = Run::new(config(2800, 2800));
    assert_eq!(run.start(&event()), Request::FetchIssue(7));
    assert_eq!(run.on_issue(None), Request::Stop);
    assert_eq!(run.phase, Phase::Done);
}

#[test]
fn short_thread_is_single_pass_and_delivered() {
    let mut run = started(2800, 1000, "The build takes ten minutes since the last upgrade.");
    let q = chat(run.on_comments(Some(vec![])));
    let frags = thread_fragments(&issue("The build takes ten minutes since the last upgrade."), &Some(vec![]));
    let text = thread_text(&frags);
    assert_eq!(q.session, "Issue#7");
    assert!(q.restart);
    assert_eq!(
        q.prompt,
        format!("{text}, concentrate on the principal arguments, suggested solutions, and areas of consensus or disagreement among the participants. From these elements, generate a concise summary of the entire issue to inform the next course of action.")
    );
    assert_eq!(run.phase, Phase::AwaitFinal);
    let d = run.on_completion(Some("model output".to_string()));
    assert_eq!(d, Request::Deliver("Issue Summary:\nmodel output\nhttps://example.com/o/r/issues/7".to_string()));
    assert_eq!(run.phase, Phase::Done);
}

#[test]
fn failed_single_pass_delivers_link_only() {
    let mut run = started(2800, 1000, "short");
    chat(run.on_comments(None));
    assert_eq!(run.on_completion(None), Request::Deliver("Issue Summary:\n\nhttps://example.com/o/r/issues/7".to_string()));
}

#[test]
fn failed_comment_listing_summarizes_issue_alone() {
    let mut run = started(2800, 1000, "body only");
    let q = chat(run.on_comments(None));
    let frags = thread_fragments(&issue("body only"), &None);
    assert_eq!(frags.len(), 1);
    assert!(q.prompt.starts_with(&thread_text(&frags)));
    assert!(!q.prompt.contains("commented:"));
}

#[test]
fn comments_join_the_single_pass_text() {
    let mut run = started(2800, 1000, "body");
    let cs = vec![Comment { author: "erin".to_string(), body: Some("same here".to_string()) }];
    let q = chat(run.on_comments(Some(cs)));
    assert!(q.prompt.contains("'body'.erin commented: same here, concentrate"));
}

fn long_body() -> String {
    "word ".repeat(3000)
}

#[test]
fn long_thread_maps_twice_then_reduces() {
    let body = long_body();
    let frags = thread_fragments(&issue(&body), &Some(vec![]));
    let total = encode_stream(&frags).len();
    assert!(total > 2800 && total <= 5600);
    let mut run = started(2800, 2800, &body);
    let first = chat(run.on_comments(Some(vec![])));
    assert_eq!(run.chunks.len(), 2);
    assert_eq!(run.chunks[0].len(), 2800);
    assert_eq!(run.chunks[1].len(), total - 2800);
    assert!(first.restart);
    assert!(first.prompt.starts_with("Given the issue titled 'Slow build' and a particular segment"));
    assert_eq!(run.phase, Phase::AwaitMap);
    let second = chat(run.on_completion(Some("AAA".to_string())));
    assert!(!second.restart);
    assert!(second.prompt.starts_with("Given the issue titled"));
    assert_eq!(run.phase, Phase::AwaitMap);
    let reduce = chat(run.on_completion(Some("BBB".to_string())));
    assert_eq!(run.phase, Phase::AwaitFinal);
    assert!(reduce.prompt.starts_with("User 'dana', in the role of 'CONTRIBUTOR', has filed an issue titled 'Slow build', labeled as 'perf'."));
    assert!(reduce.prompt.contains("in segmented form are: AAABBB. Concentrate"));
    let d = run.on_completion(Some("final".to_string()));
    assert_eq!(d, Request::Deliver("Issue Summary:\nfinal\nhttps://example.com/o/r/issues/7".to_string()));
}

#[test]
fn failed_maps_still_reduce_over_empty_buffer() {
    let body = long_body();
    let mut run = started(2800, 2800, &body);
    chat(run.on_comments(None));
    chat(run.on_completion(None));
    let reduce = chat(run.on_completion(None));
    assert_eq!(run.phase, Phase::AwaitFinal);
    assert!(reduce.prompt.contains("in segmented form are: . Concentrate"));
}

#[test]
fn one_failed_map_is_omitted() {
    let body = long_body();
    let mut run = started(2800, 2800, &body);
    chat(run.on_comments(None));
    chat(run.on_completion(None));
    let reduce = chat(run.on_completion(Some("kept".to_string())));
    assert!(reduce.prompt.contains("in segmented form are: kept. Concentrate"));
}

#[test]
fn threshold_decides_mode_not_budget() {
    let mut run = started(10_000, 5, "a body of several tokens");
    let q = chat(run.on_comments(None));
    assert_eq!(run.chunks.len(), 1);
    assert!(q.prompt.starts_with("Given the issue titled"));
}
