use issue_summary::text::{decimal_string, join_comma};
use issue_summary::thread::{
    comment_fragment, delivery_message, issue_fragment, session_id, thread_fragments, Comment, Issue,
};
use issue_summary::trigger::{detect_trigger, CommentAction, Event, IssueAction};

fn issue(body: Option<&str>) -> Issue {
    Issue {
        number: 42,
        title: "Crash on start".to_string(),
        body: body.map(|b| b.to_string()),
        creator_login: "alice".to_string(),
        creator_role: "MEMBER".to_string(),
        labels: vec!["bug".to_string(), "p1".to_string()],
        url: "https://example.com/o/r/issues/42".to_string(),
    }
}

#[test]
fn decimal_numerals() {
    assert_eq!(decimal_string(0), "0");
    assert_eq!(decimal_string(7), "7");
    assert_eq!(decimal_string(1203), "1203");
    assert_eq!(decimal_string(u64::MAX), u64::MAX.to_string());
}

#[test]
fn labels_join_with_comma() {
    assert_eq!(join_comma(&vec![]), "");
    assert_eq!(join_comma(&vec!["a".to_string()]), "a");
    assert_eq!(join_comma(&vec!["a".to_string(), "b".to_string(), "c".to_string()]), "a, b, c");
}

#[test]
fn session_is_scoped_to_issue() {
    assert_eq!(session_id(42), "Issue#42");
}

#[test]
fn issue_fragment_names_creator_role_title_labels() {
    assert_eq!(
        issue_fragment(&issue(Some("it breaks"))),
        "User 'alice', who holds the role of 'MEMBER', has submitted an issue titled 'Crash on start', labeled as 'bug, p1', with the following post: 'it breaks'."
    );
}

#[test]
fn missing_bodies_read_as_empty() {
    assert!(issue_fragment(&issue(None)).ends_with("with the following post: ''."));
    let c = Comment { author: "bob".to_string(), body: None };
    assert_eq!(comment_fragment(&c), "bob commented: ");
}

#[test]
fn fragments_keep_thread_order() {
    let cs = vec![
        Comment { author: "bob".to_string(), body: Some("first".to_string()) },
        Comment { author: "carol".to_string(), body: Some("second".to_string()) },
    ];
    let fs = thread_fragments(&issue(Some("x")), &Some(cs));
    assert_eq!(fs.len(), 3);
    assert_eq!(fs[1], "bob commented: first");
    assert_eq!(fs[2], "carol commented: second");
    assert_eq!(thread_fragments(&issue(Some("x")), &None).len(), 1);
}

#[test]
fn delivery_format() {
    assert_eq!(delivery_message("S", "U"), "Issue Summary:\nS\nU");
    assert_eq!(delivery_message("", "U"), "Issue Summary:\n\nU");
}

fn issue_event(action: IssueAction, body: &str) -> Event {
    Event::IssueOpenedOrUpdated { issue_id: 9, action, body: Some(body.to_string()) }
}

#[test]
fn trigger_in_issue_body_starts_run() {
    assert_eq!(detect_trigger(&issue_event(IssueAction::Other, "pls issue summarize"), "issue summarize"), Some(9));
}

#[test]
fn trigger_absent_starts_nothing() {
    assert_eq!(detect_trigger(&issue_event(IssueAction::Other, "nothing here"), "issue summarize"), None);
    let e = Event::IssueOpenedOrUpdated { issue_id: 9, action: IssueAction::Other, body: None };
    assert_eq!(detect_trigger(&e, "issue summarize"), None);
    assert_eq!(detect_trigger(&Event::Unrelated, "issue summarize"), None);
}

#[test]
fn trigger_is_case_sensitive() {
    assert_eq!(detect_trigger(&issue_event(IssueAction::Other, "Issue Summarize"), "issue summarize"), None);
}

#[test]
fn closed_issue_starts_nothing() {
    assert_eq!(detect_trigger(&issue_event(IssueAction::Closed, "issue summarize"), "issue summarize"), None);
}

#[test]
fn comment_trigger_and_deleted_comment() {
    let posted = Event::CommentPosted {
        issue_id: 5,
        action: CommentAction::Other,
        body: Some("@bot summarize please".to_string()),
    };
    assert_eq!(detect_trigger(&posted, "@bot summarize"), Some(5));
    let deleted = Event::CommentPosted {
        issue_id: 5,
        action: CommentAction::Deleted,
        body: Some("@bot summarize please".to_string()),
    };
    assert_eq!(detect_trigger(&deleted, "@bot summarize"), None);
}
