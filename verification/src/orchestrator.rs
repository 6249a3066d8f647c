//! The conversation orchestrator: the growing message history and the turn
//! loop's decisions.
//!
//! A `Conversation` owns the history for a run. Each turn appends the next
//! user prompt and builds the request for it (`start_turn`), and appends the
//! first usable reply once the response arrives (`finish_turn`). The history
//! is append-only: no message is ever rewritten or removed, and on a failed
//! turn no partial reply is appended.

use vstd::prelude::*;

use crate::client::extracted;
use crate::client::usable_contents;
use crate::error::BotError;
use crate::message::msg_view;
use crate::message::texts_of;
use crate::message::views_of;
use crate::message::Message;
use crate::message::MessageView;
use crate::message::Role;

verus! {

/// The role that position `i` of a well-formed history carries: one system
/// message first, then user and assistant messages strictly interleaved.
pub open spec fn role_at(i: int) -> Role {
    if i == 0 {
        Role::System
    } else if i % 2 == 1 {
        Role::User
    } else {
        Role::Assistant
    }
}

/// An immutable value holding exactly the messages sent for one turn: the
/// snapshot of the history at the moment the request was built.
pub struct ChatRequest {
    messages: Vec<Message>,
}

impl View for ChatRequest {
    type V = Seq<MessageView>;

    closed spec fn view(&self) -> Seq<MessageView> {
        views_of(self.messages@)
    }
}

impl ChatRequest {
    /// The messages of this request, oldest first.
    pub fn messages(&self) -> (r: &Vec<Message>)
        ensures
            views_of(r@) == self@,
    {
        &self.messages
    }
}

/// The state of one conversation run.
///
/// The fields are public so that contracts can speak of them directly; they
/// are meant to be changed only through the methods below, which keep `wf`.
#[derive(Debug)]
pub struct Conversation {
    /// The message history, oldest first; only ever appended to.
    pub history: Vec<Message>,
    /// The configured user prompts, in processing order.
    pub prompts: Vec<String>,
    /// How many turns have fully completed (prompt sent, reply appended).
    pub completed: usize,
    /// Whether a user message awaits its reply for the current turn.
    pub pending: bool,
}

impl Conversation {
    /// The history as a sequence of message views.
    pub open spec fn hist(self) -> Seq<MessageView> {
        views_of(self.history@)
    }

    /// The configured prompts as character sequences.
    pub open spec fn prompt_texts(self) -> Seq<Seq<char>> {
        texts_of(self.prompts@)
    }

    /// One if a turn is under way, zero otherwise.
    pub open spec fn pend(self) -> int {
        if self.pending {
            1
        } else {
            0
        }
    }

    /// Well-formedness: the history holds one message per completed half-turn
    /// after the single system message, roles follow the fixed pattern, and
    /// the k-th user message carries the k-th configured prompt verbatim.
    pub open spec fn wf(self) -> bool {
        &&& self.completed + self.pend() <= self.prompts@.len()
        &&& self.hist().len() == 1 + 2 * self.completed + self.pend()
        &&& forall|i: int|
            0 <= i < self.hist().len() ==> (#[trigger] self.hist()[i]).role == role_at(i)
        &&& forall|k: int|
            0 <= k < self.completed + self.pend() ==> (#[trigger] self.hist()[2 * k + 1]).content
                == self.prompt_texts()[k]
    }

    /// Seed a conversation: a history holding exactly one system message, and
    /// no turn begun.
    pub fn new(system_prompt: String, user_prompts: Vec<String>) -> (c: Conversation)
        ensures
            c.wf(),
            c.completed == 0,
            !c.pending,
            c.prompt_texts() == texts_of(user_prompts@),
            c.hist() == seq![msg_view(Role::System, system_prompt@)],
    {
        let ghost sys_text = system_prompt@;
        let mut history: Vec<Message> = Vec::new();
        history.push(Message::new(Role::System, system_prompt));
        let c = Conversation { history, prompts: user_prompts, completed: 0, pending: false };
        proof {
            assert(c.hist() =~= seq![msg_view(Role::System, sys_text)]);
        }
        c
    }

    /// Begin the next turn: append the next user prompt to the history and
    /// return the request to send, holding the full history so far. Returns
    /// `None`, leaving the conversation unchanged, when every prompt has been
    /// processed.
    pub fn start_turn(&mut self) -> (r: Option<ChatRequest>)
        requires
            old(self).wf(),
            !old(self).pending,
        ensures
            final(self).wf(),
            final(self).prompt_texts() == old(self).prompt_texts(),
            final(self).completed == old(self).completed,
            old(self).completed < old(self).prompts@.len() ==> {
                &&& final(self).pending
                &&& final(self).hist() == old(self).hist().push(
                    msg_view(
                        Role::User,
                        old(self).prompt_texts()[old(self).completed as int],
                    ),
                )
                &&& (r matches Some(req) && req@ == final(self).hist())
            },
            old(self).completed >= old(self).prompts@.len() ==> {
                &&& !final(self).pending
                &&& final(self).hist() == old(self).hist()
                &&& r is None
            },
    {
        if self.completed < self.prompts.len() {
            let ghost prior = self.hist();
            let prompt = self.prompts[self.completed].clone();
            self.history.push(Message::new(Role::User, prompt));
            self.pending = true;
            proof {
                assert(self.hist() =~= prior.push(
                    msg_view(Role::User, self.prompt_texts()[self.completed as int]),
                ));
            }
            let req = ChatRequest { messages: clone_messages(&self.history) };
            Some(req)
        } else {
            None
        }
    }

    /// Finish the turn under way from the response's choices. The first
    /// usable content becomes the assistant reply, appended verbatim to the
    /// history. A response with no usable content fails with
    /// `EmptyResponseError` and leaves the history exactly as it was.
    pub fn finish_turn(&mut self, choices: &Vec<Option<String>>) -> (r: Result<String, BotError>)
        requires
            old(self).wf(),
            old(self).pending,
        ensures
            final(self).wf(),
            final(self).prompt_texts() == old(self).prompt_texts(),
            r is Ok <==> extracted(choices@).len() > 0,
            r matches Ok(reply) ==> {
                &&& reply@ == extracted(choices@)[0]
                &&& final(self).hist() == old(self).hist().push(
                    msg_view(Role::Assistant, reply@),
                )
                &&& final(self).completed == old(self).completed + 1
                &&& !final(self).pending
            },
            r is Err ==> {
                &&& (r matches Err(e) && e is EmptyResponseError)
                &&& final(self).hist() == old(self).hist()
                &&& final(self).completed == old(self).completed
                &&& final(self).pending
            },
    {
        let contents = usable_contents(choices);
        if contents.len() == 0 {
            proof {
                assert(extracted(choices@).len() == texts_of(contents@).len());
            }
            Err(BotError::EmptyResponseError)
        } else {
            let ghost prior = self.hist();
            let reply = contents[0].clone();
            proof {
                assert(reply@ == texts_of(contents@)[0]);
            }
            self.history.push(Message::new(Role::Assistant, reply.clone()));
            let total = self.prompts.len();
            proof {
                assert(self.completed < total);
            }
            self.completed = self.completed + 1;
            self.pending = false;
            proof {
                assert(self.hist() =~= prior.push(msg_view(Role::Assistant, reply@)));
            }
            Ok(reply)
        }
    }
}

/// The views of a list of responses, each a list of optional choice contents.
pub open spec fn response_views(rs: Seq<Vec<Option<String>>>) -> Seq<Seq<Option<String>>> {
    rs.map_values(|v: Vec<Option<String>>| v@)
}

/// Whether every scripted response carries at least one usable content.
pub open spec fn all_usable(rs: Seq<Seq<Option<String>>>) -> bool {
    forall|k: int| 0 <= k < rs.len() ==> extracted(#[trigger] rs[k]).len() > 0
}

/// The history a run reaches after its first `n` turns all succeed: each turn
/// appends the turn's user prompt and then the first usable content of the
/// turn's response.
pub open spec fn scripted_history(
    sys: Seq<char>,
    prompts: Seq<Seq<char>>,
    rs: Seq<Seq<Option<String>>>,
    n: int,
) -> Seq<MessageView>
    decreases n,
{
    if n <= 0 {
        seq![msg_view(Role::System, sys)]
    } else {
        scripted_history(sys, prompts, rs, n - 1) + seq![
            msg_view(Role::User, prompts[n - 1]),
            msg_view(Role::Assistant, extracted(rs[n - 1])[0]),
        ]
    }
}

/// Drive a whole conversation against scripted responses, one per configured
/// user prompt: the turns run in order, every reply is taken verbatim from
/// its response's first usable content, and the run stops at the first
/// response with no usable content, as it would at a live endpoint.
pub fn run_scripted(
    system_prompt: String,
    user_prompts: Vec<String>,
    responses: &Vec<Vec<Option<String>>>,
) -> (r: Result<Conversation, BotError>)
    requires
        user_prompts@.len() == responses@.len(),
    ensures
        r is Ok <==> all_usable(response_views(responses@)),
        r matches Ok(c) ==> {
            &&& c.wf()
            &&& !c.pending
            &&& c.completed == user_prompts@.len()
            &&& c.prompt_texts() == texts_of(user_prompts@)
            &&& c.hist() == scripted_history(
                system_prompt@,
                texts_of(user_prompts@),
                response_views(responses@),
                user_prompts@.len() as int,
            )
        },
        r matches Err(e) ==> e is EmptyResponseError,
{
    let ghost sys = system_prompt@;
    let ghost ptexts = texts_of(user_prompts@);
    let ghost rviews = response_views(responses@);
    let mut c = Conversation::new(system_prompt, user_prompts);
    let n = responses.len();
    let mut k: usize = 0;
    while k < n
        invariant
            n == responses@.len(),
            rviews == response_views(responses@),
            ptexts.len() == n,
            k <= n,
            c.wf(),
            !c.pending,
            c.completed == k,
            c.prompt_texts() == ptexts,
            c.hist() =~= scripted_history(sys, ptexts, rviews, k as int),
            forall|j: int| 0 <= j < k ==> extracted(#[trigger] rviews[j]).len() > 0,
        decreases n - k,
    {
        let ghost before = c.hist();
        let _request = c.start_turn();
        proof {
            assert(responses@[k as int]@ == rviews[k as int]);
        }
        match c.finish_turn(&responses[k]) {
            Ok(_reply) => {},
            Err(e) => {
                proof {
                    assert(extracted(rviews[k as int]).len() == 0);
                }
                return Err(e);
            },
        }
        proof {
            assert(c.hist() =~= scripted_history(sys, ptexts, rviews, k + 1));
        }
        k = k + 1;
    }
    Ok(c)
}

/// After a conversation has completed all of its `N` configured prompts, the
/// history holds exactly `2 * N + 1` messages in the fixed role pattern
/// System, User, Assistant, User, Assistant, and so on.
pub proof fn lemma_complete_history_shape(c: Conversation)
    requires
        c.wf(),
        !c.pending,
        c.completed == c.prompts@.len(),
    ensures
        c.hist().len() == 2 * c.prompts@.len() + 1,
        forall|i: int| 0 <= i < c.hist().len() ==> (#[trigger] c.hist()[i]).role == role_at(i),
{
}

/// The request built while a turn is under way holds exactly
/// `2 * completed + 2` messages: every message of the completed prior turns,
/// then the new, not-yet-answered user message carrying the next configured
/// prompt verbatim.
pub proof fn lemma_request_message_count(c: Conversation, req: ChatRequest)
    requires
        c.wf(),
        c.pending,
        req@ == c.hist(),
    ensures
        req@.len() == 2 * c.completed + 2,
        req@.last() == msg_view(Role::User, c.prompt_texts()[c.completed as int]),
        forall|i: int| 0 <= i < req@.len() ==> (#[trigger] req@[i]).role == role_at(i),
{
    assert(c.hist()[2 * c.completed + 1].content == c.prompt_texts()[c.completed as int]);
    assert(c.hist()[2 * c.completed + 1].role == role_at(2 * c.completed + 1));
}

/// While the turn for prompt `completed + 1` awaits its reply — the state in
/// which any failure of that call leaves the conversation — the history holds
/// every completed prior turn, each user message still carrying its
/// configured prompt, plus the current turn's user message, and ends with no
/// assistant reply for the current turn.
pub proof fn lemma_failed_turn_history(c: Conversation)
    requires
        c.wf(),
        c.pending,
    ensures
        c.hist().len() == 2 * c.completed + 2,
        c.hist().last().role == Role::User,
        c.hist().last().content == c.prompt_texts()[c.completed as int],
        forall|k: int|
            0 <= k <= c.completed ==> (#[trigger] c.hist()[2 * k + 1]).content
                == c.prompt_texts()[k],
{
    assert(c.hist()[2 * c.completed + 1].role == role_at(2 * c.completed + 1));
}

/// Clone a message list, keeping every role and content.
fn clone_messages(ms: &Vec<Message>) -> (r: Vec<Message>)
    ensures
        views_of(r@) == views_of(ms@),
{
    let mut out: Vec<Message> = Vec::new();
    let n = ms.len();
    let mut i: usize = 0;
    while i < n
        invariant
            n == ms@.len(),
            i <= n,
            views_of(out@) =~= views_of(ms@.take(i as int)),
        decreases n - i,
    {
        out.push(ms[i].clone());
        proof {
            broadcast use vstd::prelude::Seq::lemma_push_map_commute;

            assert(ms@.take(i + 1) =~= ms@.take(i as int).push(ms@[i as int]));
            assert(views_of(out@) =~= views_of(ms@.take(i + 1)));
        }
        i = i + 1;
    }
    proof {
        assert(ms@.take(n as int) =~= ms@);
        assert(views_of(out@) =~= views_of(ms@));
    }
    out
}

} // verus!
