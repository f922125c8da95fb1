//! The device authorization flow: a device code is asked for, the operator
//! is told where to enter the user code, and the token endpoint is polled
//! until the operator has answered or the code has run out.

use crate::auth::scopes::{parse_scopes, scope_list, scope_parameter};
use crate::auth::{
    client_fields, endpoint, push_client_fields, read_token_reply, token_verdict, FormModel,
    FormRequest, OAuthEndpoints, TokenReply, TokenVerdict,
};
use crate::errors::{AuthError, Step};
use crate::helpers::ClientConfig;
use crate::msgraph_api::{is_success, status_is_success, Reply, ReplyModel};
use crate::text::join;
use crate::web::{
    copy_pairs, json_string_member, json_unsigned_member, string_member, unsigned_member,
};
use crate::wire::{json_parse, parse_json, Json};
use vstd::prelude::*;
use vstd::string::StringExecFns;

verus! {

/// Seconds between polls where the provider names no interval.
pub const DEFAULT_POLL_INTERVAL: u64 = 5;

/// Seconds by which the interval grows when the provider asks to slow down.
pub const SLOW_DOWN_STEP: u64 = 5;

/// The request that starts the flow, or the reason why the configuration
/// does not allow it.
pub open spec fn device_code_form(config: ClientConfig) -> Result<FormModel, AuthError> {
    if scope_list(config.scopes@).len() == 0 {
        Err(AuthError::Config(crate::errors::ConfigError::EmptyScopes))
    } else {
        Ok(
            FormModel {
                url: endpoint(config.tenant_id@, "devicecode"@),
                fields: seq![("scope"@, join(scope_list(config.scopes@), ' '))] + client_fields(
                    config.client_id@,
                    config.client_secret@,
                ),
            },
        )
    }
}

/// The request that asks for a device code for the scopes of `config`.
pub fn device_code_request(config: &ClientConfig) -> (r: Result<FormRequest, AuthError>)
    ensures
        match r {
            Ok(request) => device_code_form(*config) == Ok::<FormModel, AuthError>(request@),
            Err(e) => device_code_form(*config) == Err::<FormModel, AuthError>(e),
        },
{
    let scopes = match parse_scopes(config.scopes.as_str()) {
        Ok(s) => s,
        Err(e) => {
            return Err(AuthError::Config(e));
        },
    };
    let mut fields: Vec<(String, String)> = Vec::new();
    fields.push((String::from_str("scope"), scope_parameter(&scopes)));
    proof {
        assert(fields.deep_view() =~= seq![("scope"@, join(scope_list(config.scopes@), ' '))]);
    }
    push_client_fields(&mut fields, config);
    let endpoints = OAuthEndpoints::for_tenant(config.tenant_id.as_str());
    Ok(FormRequest { url: endpoints.device_code, fields })
}

/// What the provider grants at the start of the flow.
#[derive(Debug, Clone)]
pub struct DeviceGrant {
    /// The code that the polls present.
    pub device_code: String,
    /// The code that the operator enters.
    pub user_code: String,
    /// Where the operator enters it.
    pub verification_uri: String,
    /// Seconds for which the device code is good.
    pub expires_in: u64,
    /// Least number of seconds between polls.
    pub interval: u64,
}

/// A `DeviceGrant` as plain values.
pub struct GrantModel {
    pub device_code: Seq<char>,
    pub user_code: Seq<char>,
    pub verification_uri: Seq<char>,
    pub expires_in: nat,
    pub interval: nat,
}

impl View for DeviceGrant {
    type V = GrantModel;

    open spec fn view(&self) -> GrantModel {
        GrantModel {
            device_code: self.device_code@,
            user_code: self.user_code@,
            verification_uri: self.verification_uri@,
            expires_in: self.expires_in as nat,
            interval: self.interval as nat,
        }
    }
}

/// The grant that a JSON document holds: the strings `device_code`,
/// `user_code` and `verification_uri`, the number `expires_in`, and the
/// number `interval` or its default.
pub open spec fn grant_in(doc: Json) -> Option<GrantModel> {
    if json_string_member(doc, "device_code"@) is Some && json_string_member(doc, "user_code"@)
        is Some && json_string_member(doc, "verification_uri"@) is Some && json_unsigned_member(
        doc,
        "expires_in"@,
    ) is Some {
        Some(
            GrantModel {
                device_code: json_string_member(doc, "device_code"@)->0,
                user_code: json_string_member(doc, "user_code"@)->0,
                verification_uri: json_string_member(doc, "verification_uri"@)->0,
                expires_in: json_unsigned_member(doc, "expires_in"@)->0 as nat,
                interval: match json_unsigned_member(doc, "interval"@) {
                    Some(n) => n as nat,
                    None => DEFAULT_POLL_INTERVAL as nat,
                },
            },
        )
    } else {
        None
    }
}

/// What the answer to the device code request means.
pub open spec fn device_grant(reply: ReplyModel) -> Result<GrantModel, AuthError> {
    match reply {
        ReplyModel::Unreachable => Err(AuthError::Transport(Step::DeviceCode)),
        ReplyModel::Http { status, body } => if !is_success(status) {
            Err(AuthError::Rejected(Step::DeviceCode))
        } else {
            match json_parse(body) {
                Some(doc) => match grant_in(doc) {
                    Some(grant) => Ok(grant),
                    None => Err(AuthError::Malformed(Step::DeviceCode)),
                },
                None => Err(AuthError::Malformed(Step::DeviceCode)),
            }
        },
    }
}

/// Reads the answer to the device code request.
pub fn read_device_grant(reply: &Reply) -> (r: Result<DeviceGrant, AuthError>)
    ensures
        match r {
            Ok(grant) => device_grant(reply@) == Ok::<GrantModel, AuthError>(grant@),
            Err(e) => device_grant(reply@) == Err::<GrantModel, AuthError>(e),
        },
{
    let (status, body) = match reply {
        Reply::Unreachable => {
            return Err(AuthError::Transport(Step::DeviceCode));
        },
        Reply::Http { status, body } => (*status, body),
    };
    if !status_is_success(status) {
        return Err(AuthError::Rejected(Step::DeviceCode));
    }
    let doc = match parse_json(body.as_str()) {
        Some(doc) => doc,
        None => {
            return Err(AuthError::Malformed(Step::DeviceCode));
        },
    };
    let device_code = string_member(&doc, "device_code");
    let user_code = string_member(&doc, "user_code");
    let verification_uri = string_member(&doc, "verification_uri");
    let expires_in = unsigned_member(&doc, "expires_in");
    let interval = unsigned_member(&doc, "interval");
    match (device_code, user_code, verification_uri, expires_in) {
        (Some(device_code), Some(user_code), Some(verification_uri), Some(expires_in)) => Ok(
            DeviceGrant {
                device_code,
                user_code,
                verification_uri,
                expires_in,
                interval: match interval {
                    Some(n) => n,
                    None => DEFAULT_POLL_INTERVAL,
                },
            },
        ),
        _ => Err(AuthError::Malformed(Step::DeviceCode)),
    }
}

/// What the operator is told: the code to enter and where.
pub fn device_prompt(grant: &DeviceGrant) -> (r: String)
    ensures
        r@ == "Use the code "@ + grant.user_code@ + " at "@ + grant.verification_uri@
            + " to authenticate your account"@,
{
    String::from_str("Use the code ").concat(grant.user_code.as_str()).concat(" at ").concat(
        grant.verification_uri.as_str(),
    ).concat(" to authenticate your account")
}

/// The request of one poll.
pub open spec fn poll_form(config: ClientConfig, device_code: Seq<char>) -> FormModel {
    FormModel {
        url: endpoint(config.tenant_id@, "token"@),
        fields: seq![
            ("grant_type"@, "urn:ietf:params:oauth:grant-type:device_code"@),
            ("device_code"@, device_code),
        ] + client_fields(config.client_id@, config.client_secret@),
    }
}

/// A poll that is due: the same request every time, and the seconds to let
/// pass before it is sent.
#[derive(Debug, Clone)]
pub struct Poll {
    pub wait_secs: u64,
    pub request: FormRequest,
}

/// Where the polling stands. Time is counted in seconds from the moment the
/// polling began.
pub struct Schedule {
    /// The request of every poll.
    pub request: FormModel,
    /// Seconds between polls, as last instructed.
    pub interval: nat,
    /// Seconds for which the device code is good.
    pub expires_in: nat,
    /// The second at which the last poll was answered.
    pub waited: nat,
    /// Seconds to let pass before the poll that is due.
    pub wait: nat,
}

/// The states of the polling.
pub enum PollModel {
    /// A poll is due.
    Polling(Schedule),
    /// The flow is over.
    Done(Result<Seq<char>, AuthError>),
}

/// The answer to a poll, and the seconds that had passed since the polling
/// began when it arrived, as the caller measured them.
pub struct Answer {
    pub reply: ReplyModel,
    pub elapsed: nat,
}

/// The state in which the polling starts: the first poll is due at once,
/// and the interval is the one that the provider declared.
pub open spec fn poll_start(config: ClientConfig, grant: GrantModel) -> PollModel {
    PollModel::Polling(
        Schedule {
            request: poll_form(config, grant.device_code),
            interval: grant.interval,
            expires_in: grant.expires_in,
            waited: 0,
            wait: 0,
        },
    )
}

/// The second at which the poll that was due has been answered, where the
/// caller measured `elapsed`: what the caller measured, and no less than the
/// seconds that the flow itself asked to wait.
pub open spec fn answered_at(s: Schedule, elapsed: nat) -> nat {
    if elapsed > s.waited + s.wait {
        elapsed
    } else {
        s.waited + s.wait
    }
}

/// The next poll after one answered at second `now`, `interval` seconds
/// later; there is none where the device code has run out by then.
pub open spec fn schedule(s: Schedule, now: nat, interval: nat) -> PollModel {
    if now + interval > s.expires_in {
        PollModel::Done(Err(AuthError::TimedOut))
    } else {
        PollModel::Polling(
            Schedule {
                request: s.request,
                interval,
                expires_in: s.expires_in,
                waited: now,
                wait: interval,
            },
        )
    }
}

/// The state of the polling after `reply` has answered the poll that was
/// due, `elapsed` seconds after the polling began. Polling that is over
/// stays as it is.
pub open spec fn poll_step(m: PollModel, reply: ReplyModel, elapsed: nat) -> PollModel {
    match m {
        PollModel::Polling(s) => match token_verdict(reply) {
            TokenVerdict::Token(token) => PollModel::Done(Ok(token)),
            TokenVerdict::Pending => schedule(s, answered_at(s, elapsed), s.interval),
            TokenVerdict::SlowDown => schedule(
                s,
                answered_at(s, elapsed),
                s.interval + SLOW_DOWN_STEP as nat,
            ),
            TokenVerdict::Denied => PollModel::Done(Err(AuthError::AccessDenied)),
            TokenVerdict::Expired => PollModel::Done(Err(AuthError::DeviceCodeExpired)),
            TokenVerdict::Rejected => PollModel::Done(Err(AuthError::Rejected(Step::DevicePoll))),
            TokenVerdict::Malformed => PollModel::Done(Err(AuthError::Malformed(Step::DevicePoll))),
            TokenVerdict::Unreachable => PollModel::Done(
                Err(AuthError::Transport(Step::DevicePoll)),
            ),
        },
        PollModel::Done(r) => m,
    }
}

/// The poll that is due in state `m`: the seconds to wait and the request.
pub open spec fn poll_due(m: PollModel) -> Option<(nat, FormModel)> {
    match m {
        PollModel::Polling(s) => Some((s.wait, s.request)),
        PollModel::Done(r) => None,
    }
}

/// The states of the polling.
enum PollState {
    Polling { request: FormRequest, interval: u64, expires_in: u64, waited: u64, wait: u64 },
    Done(Result<String, AuthError>),
}

/// The polling of a device flow. It tells the caller which poll is due and
/// how long to wait before it; the caller waits, sends it and feeds the
/// reply back, with the seconds that have passed since the polling began.
pub struct DevicePolling {
    state: PollState,
}

impl View for DevicePolling {
    type V = PollModel;

    closed spec fn view(&self) -> PollModel {
        match self.state {
            PollState::Polling { request, interval, expires_in, waited, wait } => PollModel::Polling(
                Schedule {
                    request: request@,
                    interval: interval as nat,
                    expires_in: expires_in as nat,
                    waited: waited as nat,
                    wait: wait as nat,
                },
            ),
            PollState::Done(r) => PollModel::Done(
                match r {
                    Ok(token) => Ok(token@),
                    Err(e) => Err(e),
                },
            ),
        }
    }
}

impl DevicePolling {
    #[verifier::type_invariant]
    spec fn inv(self) -> bool {
        poll_state_inv(self.state)
    }

    /// The polling for `grant`, by the client of `config`.
    pub fn begin(config: &ClientConfig, grant: &DeviceGrant) -> (r: DevicePolling)
        ensures
            r@ == poll_start(*config, grant@),
    {
        let mut fields: Vec<(String, String)> = Vec::new();
        fields.push(
            (
                String::from_str("grant_type"),
                String::from_str("urn:ietf:params:oauth:grant-type:device_code"),
            ),
        );
        fields.push((String::from_str("device_code"), grant.device_code.clone()));
        proof {
            assert(fields.deep_view() =~= seq![
                ("grant_type"@, "urn:ietf:params:oauth:grant-type:device_code"@),
                ("device_code"@, grant.device_code@),
            ]);
        }
        push_client_fields(&mut fields, config);
        let endpoints = OAuthEndpoints::for_tenant(config.tenant_id.as_str());
        DevicePolling {
            state: PollState::Polling {
                request: FormRequest { url: endpoints.token, fields },
                interval: grant.interval,
                expires_in: grant.expires_in,
                waited: 0,
                wait: 0,
            },
        }
    }

    /// The poll to make now; `None` once the flow is over.
    pub fn next_poll(&self) -> (r: Option<Poll>)
        ensures
            match r {
                Some(poll) => poll_due(self@) == Some((poll.wait_secs as nat, poll.request@)),
                None => poll_due(self@) is None,
            },
    {
        match &self.state {
            PollState::Polling { request, interval, expires_in, waited, wait } => Some(
                Poll {
                    wait_secs: *wait,
                    request: FormRequest {
                        url: request.url.clone(),
                        fields: copy_pairs(&request.fields),
                    },
                },
            ),
            PollState::Done(r) => None,
        }
    }

    /// Feeds the reply to the poll that was due. `elapsed_secs` is the
    /// number of seconds that have passed since the polling began.
    pub fn step(self, reply: &Reply, elapsed_secs: u64) -> (r: DevicePolling)
        ensures
            r@ == poll_step(self@, reply@, elapsed_secs as nat),
    {
        proof {
            use_type_invariant(&self);
        }
        match self.state {
            PollState::Polling { request, interval, expires_in, waited, wait } => {
                let counted: u64 = waited + wait;
                let now: u64 = if elapsed_secs > counted {
                    elapsed_secs
                } else {
                    counted
                };
                let state = match read_token_reply(reply) {
                    TokenReply::Token(token) => PollState::Done(Ok(token)),
                    TokenReply::Pending => again(request, expires_in, now, Some(interval)),
                    TokenReply::SlowDown => again(
                        request,
                        expires_in,
                        now,
                        interval.checked_add(SLOW_DOWN_STEP),
                    ),
                    TokenReply::Denied => PollState::Done(Err(AuthError::AccessDenied)),
                    TokenReply::Expired => PollState::Done(Err(AuthError::DeviceCodeExpired)),
                    TokenReply::Rejected => PollState::Done(
                        Err(AuthError::Rejected(Step::DevicePoll)),
                    ),
                    TokenReply::Malformed => PollState::Done(
                        Err(AuthError::Malformed(Step::DevicePoll)),
                    ),
                    TokenReply::Unreachable => PollState::Done(
                        Err(AuthError::Transport(Step::DevicePoll)),
                    ),
                };
                DevicePolling { state }
            },
            PollState::Done(r) => DevicePolling { state: PollState::Done(r) },
        }
    }

    /// The token that the flow ended with, or why it failed; `None` while it
    /// is not over.
    pub fn finish(self) -> (r: Option<Result<String, AuthError>>)
        ensures
            match r {
                Some(Ok(token)) => self@ == PollModel::Done(Ok(token@)),
                Some(Err(e)) => self@ == PollModel::Done(Err(e)),
                None => !(self@ is Done),
            },
    {
        match self.state {
            PollState::Done(r) => Some(r),
            _ => None,
        }
    }
}

/// The model of a state.
spec fn poll_state_model(state: PollState) -> PollModel {
    (DevicePolling { state })@
}

/// The poll that is due falls within the life of the device code.
spec fn poll_state_inv(state: PollState) -> bool {
    match state {
        PollState::Polling { request, interval, expires_in, waited, wait } => waited + wait
            <= expires_in,
        _ => true,
    }
}

/// The state after a poll answered at second `now` that asks for another
/// one `interval` seconds later; `None` stands for an interval beyond any
/// number of seconds that can be counted.
fn again(request: FormRequest, expires_in: u64, now: u64, interval: Option<u64>) -> (r: PollState)
    ensures
        poll_state_inv(r),
        forall|s: Schedule, n: nat|
            s.request == request@ && s.expires_in == expires_in && (match interval {
                Some(i) => n == i,
                None => n > u64::MAX,
            }) ==> poll_state_model(r) == #[trigger] schedule(s, now as nat, n),
{
    let due = match interval {
        Some(i) => match now.checked_add(i) {
            Some(at) => if at <= expires_in {
                Some(i)
            } else {
                None
            },
            None => None,
        },
        None => None,
    };
    match due {
        Some(i) => PollState::Polling { request, interval: i, expires_in, waited: now, wait: i },
        None => PollState::Done(Err(AuthError::TimedOut)),
    }
}

/// The state of the polling after `answers` have answered one poll each, in
/// order, starting from `m`.
pub open spec fn poll_run(m: PollModel, answers: Seq<Answer>) -> PollModel
    decreases answers.len(),
{
    if answers.len() == 0 {
        m
    } else {
        poll_run(poll_step(m, answers[0].reply, answers[0].elapsed), answers.skip(1))
    }
}

/// How many of `answers` answer a poll when they are fed in order to the
/// polling in state `m`: the number of polls that are made.
pub open spec fn polls_made(m: PollModel, answers: Seq<Answer>) -> nat
    decreases answers.len(),
{
    if answers.len() == 0 {
        0
    } else {
        let here: nat = if m is Polling {
            1
        } else {
            0
        };
        here + polls_made(poll_step(m, answers[0].reply, answers[0].elapsed), answers.skip(1))
    }
}

/// The seconds that are waited before each poll when `answers` answer one
/// poll each, in order, starting from `m`.
pub open spec fn poll_waits(m: PollModel, answers: Seq<Answer>) -> Seq<nat>
    decreases answers.len(),
{
    if answers.len() == 0 {
        seq![]
    } else {
        match m {
            PollModel::Polling(s) => seq![s.wait] + poll_waits(
                poll_step(m, answers[0].reply, answers[0].elapsed),
                answers.skip(1),
            ),
            PollModel::Done(r) => seq![],
        }
    }
}

/// The poll that is due falls within the life of the device code.
pub open spec fn on_schedule(m: PollModel) -> bool {
    match m {
        PollModel::Polling(s) => s.waited + s.wait <= s.expires_in,
        PollModel::Done(r) => true,
    }
}

/// While the operator has not answered and the device code has time left,
/// the next poll is due after the interval, which stays as the provider
/// declared it.
pub proof fn lemma_pending_polls_again(s: Schedule, reply: ReplyModel, elapsed: nat)
    requires
        token_verdict(reply) is Pending,
        answered_at(s, elapsed) + s.interval <= s.expires_in,
    ensures
        poll_step(PollModel::Polling(s), reply, elapsed) == PollModel::Polling(
            Schedule {
                request: s.request,
                interval: s.interval,
                expires_in: s.expires_in,
                waited: answered_at(s, elapsed),
                wait: s.interval,
            },
        ),
        poll_due(poll_step(PollModel::Polling(s), reply, elapsed)) == Some(
            (s.interval, s.request),
        ),
{
}

/// Any answer but "pending" and "slow down" ends the polling at once: no
/// further poll is due. An expired device code ends it with
/// `DeviceCodeExpired`, a refusal with `AccessDenied`, a token with the token.
pub proof fn lemma_final_answers_stop(s: Schedule, reply: ReplyModel, elapsed: nat)
    requires
        !(token_verdict(reply) is Pending),
        !(token_verdict(reply) is SlowDown),
    ensures
        poll_step(PollModel::Polling(s), reply, elapsed) is Done,
        poll_due(poll_step(PollModel::Polling(s), reply, elapsed)) is None,
        token_verdict(reply) is Expired ==> poll_step(PollModel::Polling(s), reply, elapsed)
            == PollModel::Done(Err(AuthError::DeviceCodeExpired)),
        token_verdict(reply) is Denied ==> poll_step(PollModel::Polling(s), reply, elapsed)
            == PollModel::Done(Err(AuthError::AccessDenied)),
        token_verdict(reply) matches TokenVerdict::Token(t) ==> poll_step(
            PollModel::Polling(s),
            reply,
            elapsed,
        ) == PollModel::Done(Ok(t)),
{
}

/// The polling does not outlive the device code: an answer that asks to go
/// on ends the flow with `TimedOut` where the next poll would fall after the
/// code has run out, and so does every such answer that arrives after that
/// moment, whatever the interval.
pub proof fn lemma_expiry_stops_polling(s: Schedule, reply: ReplyModel, elapsed: nat)
    requires
        token_verdict(reply) is Pending || token_verdict(reply) is SlowDown,
    ensures
        token_verdict(reply) is Pending && answered_at(s, elapsed) + s.interval > s.expires_in
            ==> poll_step(PollModel::Polling(s), reply, elapsed) == PollModel::Done(
            Err(AuthError::TimedOut),
        ),
        elapsed > s.expires_in ==> poll_step(PollModel::Polling(s), reply, elapsed)
            == PollModel::Done(Err(AuthError::TimedOut)),
{
}

/// The polling never speeds up and never outlives the device code: where a
/// further poll is due it is due after the interval, the interval is the
/// one before or, after "slow down", five seconds longer, and the poll falls
/// within the life of the device code.
pub proof fn lemma_polls_keep_distance(s: Schedule, reply: ReplyModel, elapsed: nat)
    requires
        poll_step(PollModel::Polling(s), reply, elapsed) is Polling,
    ensures
        ({
            let t = poll_step(PollModel::Polling(s), reply, elapsed)->Polling_0;
            &&& t.wait == t.interval
            &&& t.waited == answered_at(s, elapsed)
            &&& t.waited >= s.waited + s.wait
            &&& t.request == s.request
            &&& token_verdict(reply) is Pending ==> t.interval == s.interval
            &&& token_verdict(reply) is SlowDown ==> t.interval == s.interval + SLOW_DOWN_STEP
            &&& on_schedule(PollModel::Polling(t))
        }),
{
}

/// With an interval of a second or more the polling ends, whatever the
/// provider answers and whatever the caller measures: no more polls are
/// made than the device code has seconds left, and one.
pub proof fn lemma_polls_are_bounded(m: PollModel, answers: Seq<Answer>)
    requires
        on_schedule(m),
        m matches PollModel::Polling(s) ==> s.interval >= 1,
    ensures
        on_schedule(poll_run(m, answers)),
        match m {
            PollModel::Polling(s) => polls_made(m, answers) <= s.expires_in - (s.waited + s.wait)
                + 1,
            PollModel::Done(r) => polls_made(m, answers) == 0 && poll_run(m, answers) == m,
        },
    decreases answers.len(),
{
    if answers.len() > 0 {
        let next = poll_step(m, answers[0].reply, answers[0].elapsed);
        lemma_polls_are_bounded(next, answers.skip(1));
    }
}

/// An operator who answers in time is waited for: where the provider says
/// "pending" any number of times and then grants the token, and each of
/// these answers leaves time for the polls that follow, there is one poll
/// for each answer and no more, every poll after the first is made after
/// the interval that the provider declared, and the flow ends with the
/// token.
pub proof fn lemma_pending_then_token(
    s: Schedule,
    pending: Seq<Answer>,
    last: Answer,
    token: Seq<char>,
)
    requires
        forall|i: int|
            0 <= i < pending.len() ==> token_verdict((#[trigger] pending[i]).reply) is Pending,
        forall|i: int|
            0 <= i < pending.len() ==> (#[trigger] pending[i]).elapsed + (pending.len() - i)
                * s.interval <= s.expires_in,
        token_verdict(last.reply) == TokenVerdict::Token(token),
        s.waited + s.wait + pending.len() * s.interval <= s.expires_in,
    ensures
        poll_run(PollModel::Polling(s), pending.push(last)) == PollModel::Done(Ok(token)),
        polls_made(PollModel::Polling(s), pending.push(last)) == pending.len() + 1,
        poll_waits(PollModel::Polling(s), pending.push(last)) == seq![s.wait] + Seq::new(
            pending.len(),
            |i: int| s.interval,
        ),
    decreases pending.len(),
{
    let m = PollModel::Polling(s);
    let answers = pending.push(last);
    let n = pending.len();
    if n == 0 {
        assert(answers[0] == last);
        assert(answers.skip(1) =~= Seq::<Answer>::empty());
        let done = poll_step(m, last.reply, last.elapsed);
        assert(poll_run(done, answers.skip(1)) == done);
        assert(polls_made(done, answers.skip(1)) == 0);
        assert(poll_waits(done, answers.skip(1)) =~= Seq::<nat>::empty());
        assert(poll_waits(m, answers) =~= seq![s.wait] + Seq::new(n, |i: int| s.interval));
    } else {
        let first = pending[0];
        assert(answers[0] == first);
        assert(token_verdict(first.reply) is Pending);
        assert(first.elapsed + (n - 0) * s.interval <= s.expires_in);
        let now = answered_at(s, first.elapsed);
        assert(now + n * s.interval <= s.expires_in);
        assert(n * s.interval == s.interval + (n - 1) * s.interval) by (nonlinear_arith);
        assert((n - 1) * s.interval >= 0) by (nonlinear_arith)
            requires
                n >= 1,
                s.interval >= 0,
        ;
        lemma_pending_polls_again(s, first.reply, first.elapsed);
        let t = Schedule {
            request: s.request,
            interval: s.interval,
            expires_in: s.expires_in,
            waited: now,
            wait: s.interval,
        };
        assert(poll_step(m, answers[0].reply, answers[0].elapsed) == PollModel::Polling(t));
        let rest = pending.skip(1);
        assert(answers.skip(1) =~= rest.push(last));
        assert forall|i: int| 0 <= i < rest.len() implies token_verdict(
            (#[trigger] rest[i]).reply,
        ) is Pending by {
            assert(rest[i] == pending[i + 1]);
        }
        assert forall|i: int| 0 <= i < rest.len() implies (#[trigger] rest[i]).elapsed + (
        rest.len() - i) * t.interval <= t.expires_in by {
            assert(rest[i] == pending[i + 1]);
            assert(pending[i + 1].elapsed + (n - (i + 1)) * s.interval <= s.expires_in);
            assert((rest.len() - i) * t.interval == (n - (i + 1)) * s.interval) by {
                assert(rest.len() - i == n - (i + 1));
            }
        }
        lemma_pending_then_token(t, rest, last, token);
        assert(poll_waits(m, answers) =~= seq![s.wait] + Seq::new(n, |i: int| s.interval));
    }
}

/// The polling starts on schedule, with its first poll due at once.
pub proof fn lemma_polling_starts_on_schedule(config: ClientConfig, grant: GrantModel)
    ensures
        on_schedule(poll_start(config, grant)),
        poll_due(poll_start(config, grant)) == Some((0nat, poll_form(config, grant.device_code))),
{
}

} // verus!
