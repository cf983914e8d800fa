//! An issue's discussion thread as attributed text fragments, and the texts
//! built from it: prompts for the chat backend and the delivered message.
use vstd::prelude::*;
use crate::text::{decimal, decimal_string, join_comma, joined};

verus! {

/// An issue as fetched from the tracker.
#[derive(Clone, Debug, PartialEq, Eq)]
pub struct Issue {
    pub number: u64,
    pub title: String,
    pub body: Option<String>,
    pub creator_login: String,
    pub creator_role: String,
    pub labels: Vec<String>,
    pub url: String,
}

/// One comment on an issue.
#[derive(Clone, Debug, PartialEq, Eq)]
pub struct Comment {
    pub author: String,
    pub body: Option<String>,
}

/// A missing body reads as the empty text.
pub open spec fn body_text(body: Option<String>) -> Seq<char> {
    match body {
        Some(b) => b@,
        None => Seq::empty(),
    }
}

pub open spec fn label_list(issue: Issue) -> Seq<char> {
    joined(issue.labels@.map_values(|s: String| s@))
}

/// The fragment for the issue itself: creator, role, title, labels and body.
pub open spec fn issue_text(issue: Issue) -> Seq<char> {
    "User '"@ + issue.creator_login@ + "', who holds the role of '"@ + issue.creator_role@
        + "', has submitted an issue titled '"@ + issue.title@ + "', labeled as '"@
        + label_list(issue) + "', with the following post: '"@ + body_text(issue.body) + "'."@
}

/// The fragment for one comment.
pub open spec fn comment_text(c: Comment) -> Seq<char> {
    c.author@ + " commented: "@ + body_text(c.body)
}

/// The thread in order: the issue's fragment, then one per listed comment.
pub open spec fn fragments_of(issue: Issue, comments: Option<Seq<Comment>>) -> Seq<Seq<char>> {
    seq![issue_text(issue)] + match comments {
        Some(cs) => cs.map_values(|c: Comment| comment_text(c)),
        None => Seq::empty(),
    }
}

pub open spec fn session_name(number: u64) -> Seq<char> {
    "Issue#"@ + decimal(number as nat)
}

pub open spec fn system_text() -> Seq<char> {
    "As an AI co-owner of a GitHub repository, you are responsible for conducting a comprehensive analysis of GitHub issues. Your analytic focus encompasses distinct elements, including the issue's title, associated labels, body text, the identity of the issue's creator, their role, and the nature of the comments on the issue. Utilizing these data points, your task is to generate a succinct, context-aware summary of the issue."@
}

/// The one request of single-pass mode, over the whole thread's text.
pub open spec fn single_prompt(text: Seq<char>) -> Seq<char> {
    text + ", concentrate on the principal arguments, suggested solutions, and areas of consensus or disagreement among the participants. From these elements, generate a concise summary of the entire issue to inform the next course of action."@
}

/// The map request for one chunk of the thread.
pub open spec fn map_prompt(title: Seq<char>, chunk: Seq<char>) -> Seq<char> {
    "Given the issue titled '"@ + title + "' and a particular segment of body or comment text '"@ + chunk
        + "', focus on extracting the central arguments, proposed solutions, and instances of agreement or conflict among the participants. Generate an interim summary capturing the essential information in this section. This will be used later to form a comprehensive summary of the entire discussion."@
}

/// The reduce request over the concatenated interim summaries.
pub open spec fn reduce_prompt(issue: Issue, interim: Seq<char>) -> Seq<char> {
    "User '"@ + issue.creator_login@ + "', in the role of '"@ + issue.creator_role@
        + "', has filed an issue titled '"@ + issue.title@ + "', labeled as '"@ + label_list(issue)
        + "'. The key information you've extracted from the issue's body text and comments in segmented form are: "@
        + interim
        + ". Concentrate on the principal arguments, suggested solutions, and areas of consensus or disagreement among the participants. From these elements, generate a concise summary of the entire issue to inform the next course of action."@
}

/// The message handed to the notification channel.
pub open spec fn delivery_text(summary: Seq<char>, url: Seq<char>) -> Seq<char> {
    "Issue Summary:\n"@ + summary + "\n"@ + url
}

fn body_string(body: &Option<String>) -> (r: String)
    ensures
        r@ == body_text(*body),
{
    match body {
        Some(b) => b.clone(),
        None => String::new(),
    }
}

/// The fragment text for the issue itself.
pub fn issue_fragment(issue: &Issue) -> (r: String)
    ensures
        r@ == issue_text(*issue),
{
    let labels = join_comma(&issue.labels);
    let body = body_string(&issue.body);
    let mut s = String::from_str("User '");
    s.append(issue.creator_login.as_str());
    s.append("', who holds the role of '");
    s.append(issue.creator_role.as_str());
    s.append("', has submitted an issue titled '");
    s.append(issue.title.as_str());
    s.append("', labeled as '");
    s.append(labels.as_str());
    s.append("', with the following post: '");
    s.append(body.as_str());
    s.append("'.");
    s
}

/// The fragment text for one comment: `"<author> commented: <body>"`.
pub fn comment_fragment(c: &Comment) -> (r: String)
    ensures
        r@ == comment_text(*c),
{
    let body = body_string(&c.body);
    let mut s = c.author.clone();
    s.append(" commented: ");
    s.append(body.as_str());
    s
}

/// The ordered fragments of a thread. Without a comment list (its fetch
/// failed) the thread is the issue's fragment alone.
pub fn thread_fragments(issue: &Issue, comments: &Option<Vec<Comment>>) -> (r: Vec<String>)
    ensures
        r@.map_values(|s: String| s@) == fragments_of(
            *issue,
            match *comments {
                Some(cs) => Some(cs@),
                None => None,
            },
        ),
{
    let mut out: Vec<String> = Vec::new();
    out.push(issue_fragment(issue));
    match comments {
        Some(cs) => {
            let mut i: usize = 0;
            while i < cs.len()
                invariant
                    i <= cs@.len(),
                    out@.map_values(|s: String| s@) =~= seq![issue_text(*issue)]
                        + cs@.subrange(0, i as int).map_values(|c: Comment| comment_text(c)),
                decreases cs@.len() - i,
            {
                let ghost prev = out@;
                out.push(comment_fragment(&cs[i]));
                proof {
                    assert(out@.map_values(|s: String| s@)
                        =~= prev.map_values(|s: String| s@).push(comment_text(cs@[i as int])));
                    assert(cs@.subrange(0, i + 1).map_values(|c: Comment| comment_text(c))
                        =~= cs@.subrange(0, i as int).map_values(|c: Comment| comment_text(c)).push(comment_text(cs@[i as int])));
                }
                i = i + 1;
            }
            assert(cs@.subrange(0, i as int) =~= cs@);
        }
        None => {
            assert(out@.map_values(|s: String| s@) =~= seq![issue_text(*issue)] + Seq::<Seq<char>>::empty());
        }
    }
    out
}

/// The whole thread as one text: the fragments concatenated in order.
pub fn thread_text(fragments: &Vec<String>) -> (r: String)
    ensures
        r@ == fragments@.map_values(|s: String| s@).flatten(),
{
    let mut out = String::new();
    let mut i: usize = 0;
    while i < fragments.len()
        invariant
            i <= fragments@.len(),
            out@ == fragments@.subrange(0, i as int).map_values(|s: String| s@).flatten(),
        decreases fragments@.len() - i,
    {
        proof {
            let before = fragments@.subrange(0, i as int).map_values(|s: String| s@);
            before.lemma_flatten_push(fragments@[i as int]@);
            assert(fragments@.subrange(0, i + 1).map_values(|s: String| s@) =~= before.push(fragments@[i as int]@));
        }
        out.append(fragments[i].as_str());
        i = i + 1;
    }
    assert(fragments@.subrange(0, i as int) =~= fragments@);
    out
}

/// The backend session of an issue: `"Issue#<number>"`.
pub fn session_id(number: u64) -> (r: String)
    ensures
        r@ == session_name(number),
{
    let digits = decimal_string(number);
    let mut s = String::from_str("Issue#");
    s.append(digits.as_str());
    s
}

/// The fixed instruction sent with every request.
pub fn system_prompt() -> (r: String)
    ensures
        r@ == system_text(),
{
    String::from_str("As an AI co-owner of a GitHub repository, you are responsible for conducting a comprehensive analysis of GitHub issues. Your analytic focus encompasses distinct elements, including the issue's title, associated labels, body text, the identity of the issue's creator, their role, and the nature of the comments on the issue. Utilizing these data points, your task is to generate a succinct, context-aware summary of the issue.")
}

/// The single-pass request over the whole text.
pub fn single_request_text(text: &str) -> (r: String)
    ensures
        r@ == single_prompt(text@),
{
    let mut s = String::from_str(text);
    s.append(", concentrate on the principal arguments, suggested solutions, and areas of consensus or disagreement among the participants. From these elements, generate a concise summary of the entire issue to inform the next course of action.");
    s
}

/// The map request for one chunk.
pub fn map_request_text(title: &str, chunk: &str) -> (r: String)
    ensures
        r@ == map_prompt(title@, chunk@),
{
    let mut s = String::from_str("Given the issue titled '");
    s.append(title);
    s.append("' and a particular segment of body or comment text '");
    s.append(chunk);
    s.append("', focus on extracting the central arguments, proposed solutions, and instances of agreement or conflict among the participants. Generate an interim summary capturing the essential information in this section. This will be used later to form a comprehensive summary of the entire discussion.");
    s
}

/// The reduce request over the interim summaries.
pub fn reduce_request_text(issue: &Issue, interim: &str) -> (r: String)
    ensures
        r@ == reduce_prompt(*issue, interim@),
{
    let labels = join_comma(&issue.labels);
    let mut s = String::from_str("User '");
    s.append(issue.creator_login.as_str());
    s.append("', in the role of '");
    s.append(issue.creator_role.as_str());
    s.append("', has filed an issue titled '");
    s.append(issue.title.as_str());
    s.append("', labeled as '");
    s.append(labels.as_str());
    s.append("'. The key information you've extracted from the issue's body text and comments in segmented form are: ");
    s.append(interim);
    s.append(". Concentrate on the principal arguments, suggested solutions, and areas of consensus or disagreement among the participants. From these elements, generate a concise summary of the entire issue to inform the next course of action.");
    s
}

/// The delivered message: `"Issue Summary:\n<summary>\n<url>"`.
pub fn delivery_message(summary: &str, url: &str) -> (r: String)
    ensures
        r@ == delivery_text(summary@, url@),
{
    let mut s = String::from_str("Issue Summary:\n");
    s.append(summary);
    s.append("\n");
    s.append(url);
    s
}

} // verus!
