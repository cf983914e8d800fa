//! One summarization run as a state machine. The host performs each outside
//! call that a `Request` names (fetch the issue, list its comments, ask the
//! chat backend, post the message) and hands the outcome back; every decision
//! between those calls is made here.
use vstd::prelude::*;
use crate::thread::{
    delivery_message, delivery_text, fragments_of, map_prompt, map_request_text, reduce_prompt,
    reduce_request_text, session_id, session_name, single_prompt, single_request_text,
    system_prompt, system_text, thread_fragments, thread_text, Comment, Issue,
};
use crate::tokens::{
    chunk_at, chunk_count, chunk_views, cl100k_text, decode_cl100k, encode_stream, plan_chunks,
    stream_of,
};
use crate::trigger::{detect_trigger, triggered_issue, Event};

verus! {

/// Settings of a run.
#[derive(Clone, Debug, PartialEq, Eq)]
pub struct Config {
    /// Literal phrase whose presence in an event's text starts a run.
    pub trigger: String,
    /// Largest number of tokens in one map chunk.
    pub budget: usize,
    /// Largest token count that is still summarized in a single pass.
    pub threshold: usize,
}

/// Where a run stands: which outcome it waits for.
#[derive(Clone, Copy, Debug, PartialEq, Eq)]
pub enum Phase {
    Idle,
    AwaitIssue,
    AwaitComments,
    AwaitMap,
    AwaitFinal,
    Done,
}

/// One request to the chat backend.
#[derive(Clone, Debug, PartialEq, Eq)]
pub struct ChatRequest {
    /// Conversation scoped to the issue: `"Issue#<number>"`.
    pub session: String,
    pub system: String,
    pub prompt: String,
    /// Set on the first request of a run: the backend drops earlier context.
    pub restart: bool,
}

/// The outside call the host makes next.
#[derive(Clone, Debug, PartialEq, Eq)]
pub enum Request {
    FetchIssue(u64),
    ListComments(u64),
    Complete(ChatRequest),
    Deliver(String),
    Stop,
}

/// The state of one run.
pub struct Run {
    pub config: Config,
    pub phase: Phase,
    pub issue: Option<Issue>,
    pub chunks: Vec<Vec<u32>>,
    /// The chunk whose map reply is awaited.
    pub next: usize,
    /// Map replies gathered so far, in chunk order.
    pub interim: String,
    /// A chat request has been issued in this run.
    pub requested: bool,
}

/// A reply's text; a failed request reads as the empty text.
pub open spec fn reply_text(reply: Option<String>) -> Seq<char> {
    match reply {
        Some(s) => s@,
        None => Seq::empty(),
    }
}

pub open spec fn comments_view(listed: Option<Vec<Comment>>) -> Option<Seq<Comment>> {
    match listed {
        Some(cs) => Some(cs@),
        None => None,
    }
}

/// The first chunk at or after `k` that decodes to text, or the number of
/// chunks when none does.
pub open spec fn first_decodable(chunks: Seq<Seq<u32>>, k: int) -> int
    decreases chunks.len() - k,
{
    if k >= chunks.len() {
        chunks.len() as int
    } else if cl100k_text(chunks[k]) is Some {
        k
    } else {
        first_decodable(chunks, k + 1)
    }
}

/// `r` asks the backend for `prompt` in the issue's session.
pub open spec fn is_chat(r: Request, number: u64, prompt: Seq<char>, restart: bool) -> bool {
    match r {
        Request::Complete(q) => q.session@ == session_name(number) && q.system@ == system_text()
            && q.prompt@ == prompt && q.restart == restart,
        _ => false,
    }
}

/// After the chunks before `from` are dealt with, `r` is the map request of
/// the first later chunk that decodes, or else the reduce request.
pub open spec fn dispatched(s: Run, r: Request, from: int, restart: bool) -> bool {
    let cs = chunk_views(s.chunks@);
    let j = first_decodable(cs, from);
    let issue = s.issue.unwrap();
    &&& s.requested
    &&& if j < cs.len() {
        &&& s.phase is AwaitMap
        &&& s.next == j
        &&& is_chat(r, issue.number, map_prompt(issue.title@, cl100k_text(cs[j]).unwrap()), restart)
    } else {
        &&& s.phase is AwaitFinal
        &&& is_chat(r, issue.number, reduce_prompt(issue, s.interim@), restart)
    }
}

/// The interim buffer after a series of map replies, gathered in order.
pub open spec fn gathered(interim: Seq<char>, replies: Seq<Option<String>>) -> Seq<char>
    decreases replies.len(),
{
    if replies.len() == 0 {
        interim
    } else {
        gathered(interim, replies.drop_last()) + reply_text(replies.last())
    }
}

/// When every map request fails, the interim buffer stays empty.
pub proof fn failed_maps_gather_nothing(replies: Seq<Option<String>>)
    requires
        forall|i: int| 0 <= i < replies.len() ==> #[trigger] replies[i] is None,
    ensures
        gathered(Seq::empty(), replies) == Seq::<char>::empty(),
    decreases replies.len(),
{
    if replies.len() > 0 {
        failed_maps_gather_nothing(replies.drop_last());
        assert(Seq::<char>::empty() + Seq::<char>::empty() =~= Seq::<char>::empty());
    }
}

/// Once no chunk is left to map, the reduce request is still issued, over
/// whatever the buffer holds: with an empty buffer, over nothing.
pub proof fn reduce_follows_last_map(s: Run, r: Request, from: int, restart: bool)
    requires
        dispatched(s, r, from, restart),
        first_decodable(chunk_views(s.chunks@), from) >= s.chunks@.len(),
        s.interim@ == Seq::<char>::empty(),
    ensures
        s.phase is AwaitFinal,
        is_chat(r, s.issue.unwrap().number, reduce_prompt(s.issue.unwrap(), Seq::empty()), restart),
{
}

/// A map step never ends the run: it asks for another map or for the reduce.
pub proof fn map_step_always_requests(s: Run, r: Request, from: int, restart: bool)
    requires
        dispatched(s, r, from, restart),
    ensures
        r is Complete,
        s.phase is AwaitMap || s.phase is AwaitFinal,
{
}

impl Run {
    pub open spec fn wf(&self) -> bool {
        &&& self.config.budget > 0
        &&& (self.phase is AwaitComments || self.phase is AwaitMap || self.phase is AwaitFinal)
            ==> self.issue is Some
        &&& self.phase is AwaitMap ==> self.next < self.chunks@.len()
    }

    /// A run that has not seen its event yet.
    pub fn new(config: Config) -> (r: Run)
        requires
            config.budget > 0,
        ensures
            r.wf(),
            r.phase is Idle,
            r.config == config,
            !r.requested,
    {
        Run {
            config,
            phase: Phase::Idle,
            issue: None,
            chunks: Vec::new(),
            next: 0,
            interim: String::new(),
            requested: false,
        }
    }

    /// Takes the inbound event: fetch the issue it names, or stop.
    pub fn start(&mut self, event: &Event) -> (r: Request)
        requires
            old(self).wf(),
            old(self).phase is Idle,
        ensures
            final(self).wf(),
            final(self).config == old(self).config,
            final(self).requested == old(self).requested,
            match triggered_issue(*event, old(self).config.trigger@) {
                None => r == Request::Stop && final(self).phase is Done,
                Some(id) => r == Request::FetchIssue(id) && final(self).phase is AwaitIssue,
            },
    {
        match detect_trigger(event, self.config.trigger.as_str()) {
            Some(id) => {
                self.phase = Phase::AwaitIssue;
                Request::FetchIssue(id)
            },
            None => {
                self.phase = Phase::Done;
                Request::Stop
            },
        }
    }

    /// Takes the fetched issue: list its comments, or stop when the fetch failed.
    pub fn on_issue(&mut self, fetched: Option<Issue>) -> (r: Request)
        requires
            old(self).wf(),
            old(self).phase is AwaitIssue,
        ensures
            final(self).wf(),
            final(self).config == old(self).config,
            final(self).requested == old(self).requested,
            match fetched {
                None => r == Request::Stop && final(self).phase is Done,
                Some(i) => r == Request::ListComments(i.number) && final(self).phase is AwaitComments
                    && final(self).issue == Some(i),
            },
    {
        match fetched {
            Some(i) => {
                let number = i.number;
                self.issue = Some(i);
                self.phase = Phase::AwaitComments;
                Request::ListComments(number)
            },
            None => {
                self.phase = Phase::Done;
                Request::Stop
            },
        }
    }

    fn dispatch(&mut self) -> (r: Request)
        requires
            old(self).config.budget > 0,
            old(self).issue is Some,
            old(self).next <= old(self).chunks@.len(),
        ensures
            final(self).wf(),
            final(self).config == old(self).config,
            final(self).issue == old(self).issue,
            final(self).chunks == old(self).chunks,
            final(self).interim == old(self).interim,
            dispatched(*final(self), r, old(self).next as int, !old(self).requested),
    {
        let ghost cs = chunk_views(self.chunks@);
        let n = self.chunks.len();
        let mut j: usize = self.next;
        let mut text: Option<String> = None;
        let mut found = false;
        while !found && j < n
            invariant
                n == self.chunks@.len(),
                cs == chunk_views(self.chunks@),
                j <= n,
                !found ==> first_decodable(cs, self.next as int) == first_decodable(cs, j as int),
                !found ==> text is None,
                found ==> j < n && first_decodable(cs, self.next as int) == j
                    && text is Some && cl100k_text(cs[j as int]) == Some(text.unwrap()@),
            decreases n - j + (if found { 0int } else { 1int }),
        {
            match decode_cl100k(&self.chunks[j]) {
                Some(t) => {
                    text = Some(t);
                    found = true;
                },
                None => {
                    j = j + 1;
                },
            }
        }
        let restart = !self.requested;
        let issue = self.issue.as_ref().unwrap();
        let session = session_id(issue.number);
        let system = system_prompt();
        let prompt = match &text {
            Some(t) => map_request_text(issue.title.as_str(), t.as_str()),
            None => reduce_request_text(issue, self.interim.as_str()),
        };
        if found {
            self.phase = Phase::AwaitMap;
            self.next = j;
        } else {
            self.phase = Phase::AwaitFinal;
        }
        self.requested = true;
        Request::Complete(ChatRequest { session, system, prompt, restart })
    }

    /// Takes the comment list (`None` when listing failed) and asks for the
    /// first summary: the whole thread in one pass when its token count is at
    /// most the threshold, else the map request of the first chunk.
    pub fn on_comments(&mut self, listed: Option<Vec<Comment>>) -> (r: Request)
        requires
            old(self).wf(),
            old(self).phase is AwaitComments,
        ensures
            final(self).wf(),
            final(self).config == old(self).config,
            final(self).issue == old(self).issue,
            chunk_views(final(self).chunks@).flatten()
                == stream_of(fragments_of(old(self).issue.unwrap(), comments_view(listed))),
            stream_of(fragments_of(old(self).issue.unwrap(), comments_view(listed))).len()
                <= old(self).config.threshold ==> {
                &&& final(self).phase is AwaitFinal
                &&& final(self).requested
                &&& is_chat(
                    r,
                    old(self).issue.unwrap().number,
                    single_prompt(fragments_of(old(self).issue.unwrap(), comments_view(listed)).flatten()),
                    !old(self).requested,
                )
            },
            stream_of(fragments_of(old(self).issue.unwrap(), comments_view(listed))).len()
                > old(self).config.threshold ==> {
                &&& final(self).chunks@.len() == chunk_count(
                    stream_of(fragments_of(old(self).issue.unwrap(), comments_view(listed))).len(),
                    old(self).config.budget as nat,
                )
                &&& forall|i: int|
                    0 <= i < final(self).chunks@.len() ==> #[trigger] final(self).chunks@[i]@ == chunk_at(
                        stream_of(fragments_of(old(self).issue.unwrap(), comments_view(listed))),
                        old(self).config.budget as nat,
                        i,
                    )
                &&& final(self).interim@ == Seq::<char>::empty()
                &&& dispatched(*final(self), r, 0, !old(self).requested)
            },
    {
        let issue = self.issue.as_ref().unwrap();
        let fragments = thread_fragments(issue, &listed);
        let tokens = encode_stream(&fragments);
        let chunks = plan_chunks(&tokens, self.config.threshold, self.config.budget);
        if tokens.len() <= self.config.threshold {
            let text = thread_text(&fragments);
            let session = session_id(issue.number);
            let system = system_prompt();
            let prompt = single_request_text(text.as_str());
            let restart = !self.requested;
            self.chunks = chunks;
            self.phase = Phase::AwaitFinal;
            self.requested = true;
            Request::Complete(ChatRequest { session, system, prompt, restart })
        } else {
            self.chunks = chunks;
            self.next = 0;
            self.interim = String::new();
            self.dispatch()
        }
    }

    /// Takes the backend's reply (`None` when the request failed). A map
    /// reply is appended to the interim summaries and the next chunk's map
    /// request, or the reduce request, follows. The final reply is delivered
    /// with the issue's link; a failed one delivers an empty summary.
    pub fn on_completion(&mut self, reply: Option<String>) -> (r: Request)
        requires
            old(self).wf(),
            old(self).phase is AwaitMap || old(self).phase is AwaitFinal,
        ensures
            final(self).wf(),
            final(self).config == old(self).config,
            final(self).issue == old(self).issue,
            final(self).chunks == old(self).chunks,
            old(self).phase is AwaitMap ==> {
                &&& final(self).interim@ == old(self).interim@ + reply_text(reply)
                &&& dispatched(*final(self), r, old(self).next + 1, !old(self).requested)
            },
            old(self).phase is AwaitFinal ==> {
                &&& final(self).phase is Done
                &&& match r {
                    Request::Deliver(m) => m@ == delivery_text(reply_text(reply), old(self).issue.unwrap().url@),
                    _ => false,
                }
            },
    {
        match self.phase {
            Phase::AwaitMap => {
                match reply {
                    Some(t) => self.interim.append(t.as_str()),
                    None => {},
                }
                let n = self.chunks.len();
                assert(self.next < n);
                self.next = self.next + 1;
                self.dispatch()
            },
            _ => {
                let summary = match reply {
                    Some(t) => t,
                    None => String::new(),
                };
                let issue = self.issue.as_ref().unwrap();
                let message = delivery_message(summary.as_str(), issue.url.as_str());
                self.phase = Phase::Done;
                Request::Deliver(message)
            },
        }
    }
}

} // verus!
