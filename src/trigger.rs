//! Deciding whether an inbound event starts a summarization run.
use vstd::prelude::*;
use crate::text::{contains_str, has_substring};
use crate::thread::body_text;

verus! {

/// What happened to an issue.
#[derive(Clone, Copy, Debug, PartialEq, Eq)]
pub enum IssueAction {
    Closed,
    Other,
}

/// What happened to a comment.
#[derive(Clone, Copy, Debug, PartialEq, Eq)]
pub enum CommentAction {
    Deleted,
    Other,
}

/// One inbound event from the tracker.
#[derive(Clone, Debug, PartialEq, Eq)]
#[allow(inconsistent_fields)]
pub enum Event {
    IssueOpenedOrUpdated { issue_id: u64, action: IssueAction, body: Option<String> },
    CommentPosted { issue_id: u64, action: CommentAction, body: Option<String> },
    Unrelated,
}

/// The text of an event that may hold the trigger phrase.
pub open spec fn event_text(event: Event) -> Seq<char> {
    match event {
        Event::IssueOpenedOrUpdated { body, .. } => body_text(body),
        Event::CommentPosted { body, .. } => body_text(body),
        Event::Unrelated => Seq::empty(),
    }
}

/// The event's action excludes a run: a closed issue or a deleted comment.
pub open spec fn excluded_action(event: Event) -> bool {
    match event {
        Event::IssueOpenedOrUpdated { action, .. } => action is Closed,
        Event::CommentPosted { action, .. } => action is Deleted,
        Event::Unrelated => true,
    }
}

pub open spec fn event_issue(event: Event) -> u64 {
    match event {
        Event::IssueOpenedOrUpdated { issue_id, .. } => issue_id,
        Event::CommentPosted { issue_id, .. } => issue_id,
        Event::Unrelated => 0,
    }
}

/// The issue whose run the event starts, if any.
pub open spec fn triggered_issue(event: Event, trigger: Seq<char>) -> Option<u64> {
    if !excluded_action(event) && has_substring(event_text(event), trigger) {
        Some(event_issue(event))
    } else {
        None
    }
}

fn body_str(body: &Option<String>) -> (r: &str)
    ensures
        r@ == body_text(*body),
{
    match body {
        Some(b) => b.as_str(),
        None => {
            let e = "";
            proof {
                reveal_strlit("");
            }
            assert(e@ =~= Seq::<char>::empty());
            e
        },
    }
}

/// The issue id when the event starts a run: an issue event that is not a
/// close, or a comment event that is not a deletion, whose body holds the
/// trigger phrase (case-sensitive literal containment).
pub fn detect_trigger(event: &Event, trigger: &str) -> (r: Option<u64>)
    ensures
        r == triggered_issue(*event, trigger@),
{
    match event {
        Event::IssueOpenedOrUpdated { issue_id, action, body } => {
            let hit = contains_str(body_str(body), trigger);
            if !matches!(action, IssueAction::Closed) && hit {
                Some(*issue_id)
            } else {
                None
            }
        },
        Event::CommentPosted { issue_id, action, body } => {
            let hit = contains_str(body_str(body), trigger);
            if !matches!(action, CommentAction::Deleted) && hit {
                Some(*issue_id)
            } else {
                None
            }
        },
        Event::Unrelated => None,
    }
}

/// An event whose text lacks the trigger phrase starts no run.
pub proof fn absent_trigger_starts_no_run(event: Event, trigger: Seq<char>)
    requires
        !has_substring(event_text(event), trigger),
    ensures
        triggered_issue(event, trigger) is None,
{
}

/// A closed issue or a deleted comment starts no run, whatever its text.
pub proof fn excluded_action_starts_no_run(event: Event, trigger: Seq<char>)
    requires
        excluded_action(event),
    ensures
        triggered_issue(event, trigger) is None,
{
}

} // verus!
