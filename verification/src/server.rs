//! The challenge state machine.
//!
//! One request is one step: the request text is classified as a first-secret
//! match, a second-secret match or invalid, the registry of pending tokens is
//! updated, and the reply says what to write and which hooks to fire. The
//! caller owns the socket, the lock around the server and the hook processes.

use crate::config::{Config, ConfigView, REQUEST_BUFFER_SIZE};
use crate::registry::{first_match, lemma_first_match_ensures, SecretRegistry};
use crate::reply::{
    issued_reply, rejected_reply, schedule_restore, triggered_reply, Action, Reply, ReplyView,
    Verdict,
};
use crate::response::Response;
use crate::text::{decode_lossy, lossy_utf8, occurs_in, str_contains};
use crate::token::{generate_random_word, is_token};
use vstd::prelude::*;
use vstd::slice::slice_subrange;
use vstd::string::*;
use vstd::utf8::{decode_utf8, valid_utf8};

verus! {

/// What a step goes by: the first secret, the two hooks and the delay
/// between them.
pub struct Rules {
    pub first_secret: Seq<char>,
    pub kill_hook: Seq<char>,
    pub restore_hook: Seq<char>,
    pub restore_delay: u64,
}

/// The rules that a configuration lays down.
pub open spec fn rules_of(config: ConfigView) -> Rules {
    Rules {
        first_secret: config.first_secret,
        kill_hook: config.kill_hook,
        restore_hook: config.restore_hook,
        restore_delay: config.restore_delay,
    }
}

/// The part of what was received that counts as the request: the first
/// `REQUEST_BUFFER_SIZE` bytes. A longer request is cut there, wherever
/// that falls.
pub open spec fn capped(received: Seq<u8>) -> Seq<u8> {
    if received.len() > REQUEST_BUFFER_SIZE {
        received.subrange(0, REQUEST_BUFFER_SIZE as int)
    } else {
        received
    }
}

/// Cuts what was received down to the size of one request buffer.
pub fn cap_request(received: &[u8]) -> (request: &[u8])
    ensures
        request@ == capped(received@),
{
    if received.len() > REQUEST_BUFFER_SIZE {
        slice_subrange(received, 0, REQUEST_BUFFER_SIZE)
    } else {
        received
    }
}

/// The state after a step and the reply it gave.
pub struct Step {
    pub pending: Seq<Seq<char>>,
    pub reply: ReplyView,
}

/// One step of the protocol on plain values.
///
/// The first secret is looked for first. If it occurs in the request, `fresh`
/// becomes pending and is the body of the reply. Otherwise the first pending
/// token that occurs in the request, in registry order, is consumed, and only
/// that one. Otherwise nothing changes and the request is turned away.
pub open spec fn step(
    rules: Rules,
    pending: Seq<Seq<char>>,
    request: Seq<char>,
    fresh: Seq<char>,
) -> Step {
    if occurs_in(rules.first_secret, request) {
        Step { pending: pending.push(fresh), reply: issued_reply(fresh) }
    } else {
        match first_match(pending, request) {
            Some(at) => Step {
                pending: pending.remove(at),
                reply: triggered_reply(rules.kill_hook, rules.restore_hook, rules.restore_delay),
            },
            None => Step { pending, reply: rejected_reply() },
        }
    }
}

/// `next` is what a step from `pending` on `request` may give: the step that
/// `step` describes for the token that the reply carries, which on a
/// first-secret request has the shape of a token. Chance picks the token and
/// nothing else.
pub open spec fn is_step(
    rules: Rules,
    pending: Seq<Seq<char>>,
    request: Seq<char>,
    next: Step,
) -> bool {
    &&& next == step(rules, pending, request, next.reply.response.body)
    &&& occurs_in(rules.first_secret, request) ==> is_token(next.reply.response.body)
}

/// The server: its configuration, fixed at start, and the pending tokens.
pub struct KillswitchServer {
    pub config: Config,
    pub random_words_list: SecretRegistry,
}

/// A server as plain values.
pub struct ServerView {
    pub config: ConfigView,
    pub pending: Seq<Seq<char>>,
}

impl View for KillswitchServer {
    type V = ServerView;

    open spec fn view(&self) -> ServerView {
        ServerView { config: self.config@, pending: self.random_words_list@ }
    }
}

impl KillswitchServer {
    /// A server with the given configuration and no token pending.
    pub fn new(args: Config) -> (server: Self)
        ensures
            server@ == (ServerView { config: args@, pending: Seq::empty() }),
    {
        KillswitchServer { config: args, random_words_list: SecretRegistry::new() }
    }

    /// Handles what was received on one connection: cuts it to one buffer's
    /// worth of bytes, decodes those as UTF-8, lossily, and takes one step
    /// on the text.
    ///
    /// The step is one that `is_step` admits, by the rules of the
    /// configuration, on the decoded text. Where the bytes looked at are
    /// valid UTF-8, that text is the string they encode. The configuration
    /// is left as it was.
    pub fn handle_connection(&mut self, received: &[u8]) -> (reply: Reply)
        ensures
            final(self)@.config == old(self)@.config,
            is_step(
                rules_of(old(self)@.config),
                old(self)@.pending,
                lossy_utf8(capped(received@)),
                (Step { pending: final(self)@.pending, reply: reply@ }),
            ),
            valid_utf8(capped(received@)) ==> is_step(
                rules_of(old(self)@.config),
                old(self)@.pending,
                decode_utf8(capped(received@)),
                (Step { pending: final(self)@.pending, reply: reply@ }),
            ),
    {
        let request = decode_lossy(cap_request(received));
        Self::process_request(
            request.as_str(),
            self.config.first_secret.as_str(),
            self.config.kill_hook.as_str(),
            self.config.restore_hook.as_str(),
            self.config.restore_delay,
            &mut self.random_words_list,
        )
    }

    /// Takes one step of the protocol on a decoded request.
    ///
    /// The step is one that `is_step` admits. On a first-secret request the
    /// token is freshly drawn; which one is left to chance.
    pub fn process_request(
        request: &str,
        first_secret: &str,
        kill_hook: &str,
        restore_hook: &str,
        restore_delay: u64,
        random_words_list: &mut SecretRegistry,
    ) -> (reply: Reply)
        ensures
            is_step(
                (Rules {
                    first_secret: first_secret@,
                    kill_hook: kill_hook@,
                    restore_hook: restore_hook@,
                    restore_delay,
                }),
                old(random_words_list)@,
                request@,
                (Step { pending: final(random_words_list)@, reply: reply@ }),
            ),
    {
        if str_contains(request, first_secret) {
            let token = generate_random_word();
            Self::handle_first_secret(random_words_list, token)
        } else {
            proof {
                lemma_first_match_ensures(random_words_list@, request@);
            }
            match random_words_list.find(request) {
                Some(at) => {
                    let secret = random_words_list.token_at(at);
                    proof {
                        lemma_first_is_first_equal(random_words_list@, request@, at as int);
                        assert(random_words_list@.contains(random_words_list@[at as int]));
                    }
                    Self::handle_second_secret(
                        secret.as_str(),
                        kill_hook,
                        restore_hook,
                        restore_delay,
                        random_words_list,
                    )
                },
                None => Self::handle_invalid_request(),
            }
        }
    }

    /// Stage one: `token` becomes pending, and the reply delivers it as the
    /// whole body of a success response.
    pub fn handle_first_secret(secrets_list: &mut SecretRegistry, token: String) -> (reply: Reply)
        ensures
            final(secrets_list)@ == old(secrets_list)@.push(token@),
            reply@ == issued_reply(token@),
    {
        secrets_list.append(token.clone());
        let reply = Reply {
            verdict: Verdict::FirstSecret,
            response: Response::ok(token),
            actions: Vec::new(),
        };
        assert(reply@.actions =~= Seq::empty());
        reply
    }

    /// Stage two, for a secret found pending by a scan: the secret is
    /// consumed here, and the kill switch starts only if it still was
    /// pending.
    ///
    /// Where `secret` is pending, its first occurrence leaves the registry
    /// and the reply confirms the start, fires the kill hook and schedules
    /// the restore hook, each once and in that order. Where it is pending no
    /// more, because another request consumed it since the scan, the request
    /// is turned away like any invalid one: not found, the registry as it
    /// was, no hook.
    pub fn handle_second_secret(
        secret: &str,
        kill_hook: &str,
        restore_hook: &str,
        restore_delay: u64,
        secrets_list: &mut SecretRegistry,
    ) -> (reply: Reply)
        ensures
            old(secrets_list)@.contains(secret@) ==> final(secrets_list)@ == old(
                secrets_list,
            )@.remove_value(secret@) && reply@ == triggered_reply(
                kill_hook@,
                restore_hook@,
                restore_delay,
            ),
            !old(secrets_list)@.contains(secret@) ==> final(secrets_list)@ == old(secrets_list)@
                && reply@ == rejected_reply(),
    {
        let removed = secrets_list.remove(secret);
        if !removed {
            proof {
                old(secrets_list)@.index_of_first_ensures(secret@);
            }
            return Self::handle_invalid_request();
        }
        let mut actions: Vec<Action> = Vec::new();
        actions.push(Action::Kill { command: String::from_str(kill_hook) });
        actions.push(schedule_restore(restore_hook, restore_delay));
        let reply = Reply {
            verdict: Verdict::SecondSecret,
            response: Response::started(),
            actions,
        };
        assert(reply@.actions =~= triggered_reply(
            kill_hook@,
            restore_hook@,
            restore_delay,
        ).actions);
        reply
    }

    /// Neither secret: a not-found response with the fixed diagnostic, and
    /// nothing else.
    pub fn handle_invalid_request() -> (reply: Reply)
        ensures
            reply@ == rejected_reply(),
    {
        let reply = Reply {
            verdict: Verdict::Invalid,
            response: Response::not_found(),
            actions: Vec::new(),
        };
        assert(reply@.actions =~= Seq::empty());
        reply
    }
}

/// Removing the first matching token by value removes it at its position: no
/// earlier pending token can equal it, or that one would have matched first.
pub proof fn lemma_first_is_first_equal(pending: Seq<Seq<char>>, request: Seq<char>, at: int)
    requires
        first_match(pending, request) == Some(at),
    ensures
        0 <= at < pending.len(),
        pending.remove_value(pending[at]) == pending.remove(at),
{
    lemma_first_match_ensures(pending, request);
    pending.index_of_first_ensures(pending[at]);
    assert(pending.contains(pending[at]));
    let k = pending.index_of_first(pending[at]).unwrap();
    if k < at {
        assert(!occurs_in(pending[k], request));
    }
}

} // verus!
