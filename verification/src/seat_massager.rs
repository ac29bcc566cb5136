//! The seat massager sample: the consumer that asks for massage steps and
//! waits for their answers, and the provider that accepts them.

use vstd::prelude::*;
use crate::json::{inspect_json_member, json_string, json_string_of, JsonMember, JsonMemberView, json_member_of};
use crate::messages::{PublishRequest, RespondRequest};
use crate::status::{Status, StatusCode};
use crate::text::{join2, join3, join5, text_eq};
use crate::digital_twin_graph::{is_instance_id, new_instance_id};

verus! {

/// A targeted payload.
/// The targeting details helps on the receiver's side to dispatch the request.
#[derive(Debug)]
pub struct TargetedPayload {
    /// The instance id for the target entity.
    pub instance_id: String,
    /// The path within the target entity to member that we are targetting.
    pub member_path: String,
    /// The operation to be performed on the target entity's member.
    pub operation: String,
    /// The operation's payload.
    pub payload: String,
}

/// A step's adjustment of one airbag.
#[derive(Debug)]
pub struct AirbagAdjustment {
    /// The airbag to adjust.
    pub airbag_identifier: i32,
    /// How far to inflate it.
    pub inflation_level: i32,
    /// For how long to inflate it.
    pub inflation_duration_in_seconds: i32,
}

/// The highest airbag identifier.
pub const MAX_AIRBAG_IDENTIFIER: i32 = 15;
/// The highest inflation level.
pub const MAX_INFLATION_LEVEL: i32 = 10;
/// The longest inflation, in seconds.
pub const MAX_INFLATION_DURATION_IN_SECONDS: i32 = 5;

/// The random number generator that the steps are drawn from.
#[verifier::external_type_specification]
#[verifier::external_body]
pub struct ExStdRng(rand::rngs::StdRng);

/// A generator seeded from the operating system's entropy
/// (`rand::SeedableRng::from_entropy` for `StdRng`). Nothing is promised of
/// the numbers it will give.
#[verifier::external_body]
fn entropy_seeded_rng() -> rand::rngs::StdRng {
    <rand::rngs::StdRng as rand::SeedableRng>::from_entropy()
}

/// A number drawn from `low..=high` (`rand::Rng::gen_range` with an
/// inclusive range): rand documents that the result lies in the range, and
/// that the call panics on an empty range, which `requires` leaves out. Which
/// number comes is left to chance.
#[verifier::external_body]
fn gen_range_inclusive(rng: &mut rand::rngs::StdRng, low: i32, high: i32) -> (r: i32)
    requires
        low <= high,
    ensures
        low <= r <= high,
{
    rand::Rng::gen_range(rng, low..=high)
}

/// A fresh ask id: a random UUID in its hyphenated form, so that ask ids are
/// universally unique. Which id comes is left to chance.
pub fn new_ask_id() -> (r: String)
    ensures
        is_instance_id(r@),
{
    new_instance_id()
}

/// Randomly generate the airbag adjustment field values: an airbag between 1
/// and 15, an inflation level between 1 and 10 and a duration between 1 and
/// 5 seconds.
pub fn random_airbag_adjustment() -> (a: AirbagAdjustment)
    ensures
        1 <= a.airbag_identifier <= MAX_AIRBAG_IDENTIFIER,
        1 <= a.inflation_level <= MAX_INFLATION_LEVEL,
        1 <= a.inflation_duration_in_seconds <= MAX_INFLATION_DURATION_IN_SECONDS,
{
    let mut rng = entropy_seeded_rng();
    let airbag_identifier = gen_range_inclusive(&mut rng, 1, MAX_AIRBAG_IDENTIFIER);
    let inflation_level = gen_range_inclusive(&mut rng, 1, MAX_INFLATION_LEVEL);
    let inflation_duration_in_seconds = gen_range_inclusive(&mut rng, 1, MAX_INFLATION_DURATION_IN_SECONDS);
    AirbagAdjustment { airbag_identifier, inflation_level, inflation_duration_in_seconds }
}

/// The targeted payload that asks an instance to perform a massage step.
///
/// # Arguments
/// * `instance_id` - The seat massager's instance id.
/// * `perform_step_member` - The path of the perform step command.
/// * `step_payload` - The step request's payload.
pub fn perform_step_targeted_payload(instance_id: &str, perform_step_member: &str, step_payload: String) -> (t: TargetedPayload)
    ensures
        t.instance_id@ == instance_id@,
        t.member_path@ == perform_step_member@,
        t.operation@ == crate::constants::digital_twin_operation::INVOKE@,
        t.payload@ == step_payload@,
{
    TargetedPayload {
        instance_id: String::from_str(instance_id),
        member_path: String::from_str(perform_step_member),
        operation: String::from_str(crate::constants::digital_twin_operation::INVOKE),
        payload: step_payload,
    }
}

/// The code of a successful answer.
pub const OK_STATUS_CODE: i32 = 200;
/// The message of a successful answer.
pub const OK_STATUS_MESSAGE: &'static str = "Ok";

/// The status carried in an asynchronous answer.
#[derive(Debug)]
pub struct AnswerStatus {
    pub code: i32,
    pub message: String,
}

/// The status of a successful answer: 200, "Ok".
pub fn ok_status() -> (s: AnswerStatus)
    ensures
        s.code == OK_STATUS_CODE,
        s.message@ == OK_STATUS_MESSAGE@,
{
    AnswerStatus { code: OK_STATUS_CODE, message: String::from_str(OK_STATUS_MESSAGE) }
}

/// The member of a published value that holds the massage airbags.
pub const MASSAGE_AIRBAGS_MEMBER: &'static str = "MassageAirbags";

/// What a published value's massage airbags member gives: the parser's
/// complaint as an invalid argument, or the JSON of a member that is not a
/// string. `None` for a missing or string member, which the publication
/// cannot be taken with.
///
/// # Arguments
/// * `member` - What the published value holds under the massage airbags member.
pub fn published_massage_airbags(member: JsonMember) -> (r: Option<Result<String, Status>>)
    ensures
        member@ matches JsonMemberView::Malformed(reason)
            ==> (r matches Some(Err(s)) && s.code == StatusCode::InvalidArgument && s.message@ == reason),
        member@ matches JsonMemberView::NonText(rendered) ==> (r matches Some(Ok(v)) && v@ == rendered),
        member@ is Absent ==> r is None,
        member@ is Text ==> r is None,
{
    match member {
        JsonMember::Malformed(reason) => Some(Err(Status::invalid_argument(reason))),
        JsonMember::NonText(rendered) => Some(Ok(rendered)),
        JsonMember::Absent => None,
        JsonMember::Text { .. } => None,
    }
}

/// The seat massager sample's consumer.
#[derive(Debug)]
pub struct ConsumerImpl {}

impl ConsumerImpl {
    /// Publish implementation: the published value must be JSON; the result
    /// is the JSON of its massage airbags. `None` when the value is JSON
    /// without massage airbags, which the publication cannot be taken with.
    ///
    /// # Arguments
    /// * `request` - Publish request.
    pub fn publish(&self, request: &PublishRequest) -> (r: Option<Result<String, Status>>)
        ensures
            json_member_of(request.value@, MASSAGE_AIRBAGS_MEMBER@) matches JsonMemberView::Malformed(reason)
                ==> (r matches Some(Err(s)) && s.code == StatusCode::InvalidArgument && s.message@ == reason),
            json_member_of(request.value@, MASSAGE_AIRBAGS_MEMBER@) matches JsonMemberView::NonText(rendered)
                ==> (r matches Some(Ok(v)) && v@ == rendered),
            json_member_of(request.value@, MASSAGE_AIRBAGS_MEMBER@) is Absent ==> r is None,
            json_member_of(request.value@, MASSAGE_AIRBAGS_MEMBER@) is Text ==> r is None,
    {
        published_massage_airbags(inspect_json_member(request.value.as_str(), MASSAGE_AIRBAGS_MEMBER))
    }

    /// Respond implementation: this consumer takes no responses.
    ///
    /// # Arguments
    /// * `request` - Respond request.
    pub fn respond(&self, request: &RespondRequest) -> (r: Result<(), Status>)
        ensures
            r matches Err(s) && s.code == StatusCode::Unimplemented
                && s.message@ == "respond has not been implemented"@,
    {
        Err(Status::unimplemented(String::from_str("respond has not been implemented")))
    }
}

/// The consumer's answer to an answer request, once the request has been
/// handed on to the waiting massage steps (or could not be: `error` is why).
///
/// # Arguments
/// * `forwarded` - Whether the answer request was handed on.
pub fn answer_outcome(forwarded: Result<(), String>) -> (r: Result<AnswerStatus, Status>)
    ensures
        forwarded is Ok ==> (r matches Ok(s) && s.code == OK_STATUS_CODE && s.message@ == OK_STATUS_MESSAGE@),
        forwarded matches Err(e) ==> (r matches Err(s) && s.code == StatusCode::Internal
            && s.message@ == "Failed to send the answer request due to "@ + e@),
{
    match forwarded {
        Ok(()) => Ok(ok_status()),
        Err(error) => Err(Status::internal(join2("Failed to send the answer request due to ", error.as_str()))),
    }
}

/// What the consumer's wait for an answer saw.
#[derive(Debug)]
pub enum AnswerEvent {
    /// An answer request with this ask id arrived.
    Received(String),
    /// The channel of answer requests is closed.
    ChannelClosed,
    /// No answer request arrived in time.
    TimedOut,
}

/// What the consumer does next while it waits for an answer.
#[derive(Clone, Copy, Debug, PartialEq, Eq, Structural)]
pub enum AnswerWaitAction {
    /// The expected answer arrived: take it and go on with the next step.
    Accept,
    /// Another ask's answer arrived: keep waiting, at once.
    Ignore,
    /// No answer can ever come: perform no more steps.
    StopSteps,
    /// Pause, then wait again; the count of failed waits is now `attempts`.
    RetryAfterSleep { attempts: u8 },
}

/// The most failed waits before the consumer gives up on an answer.
pub const MAX_ATTEMPTS_AFTER_FAILURE: u8 = 10;

/// Does the consumer keep waiting after `attempts` failed waits?
pub fn keep_waiting(attempts_after_failure: u8) -> (r: bool)
    ensures
        r == (attempts_after_failure < MAX_ATTEMPTS_AFTER_FAILURE),
{
    attempts_after_failure < MAX_ATTEMPTS_AFTER_FAILURE
}

/// What the wait does after `event`, when `attempts_after_failure` waits
/// have failed so far.
pub open spec fn spec_next_answer_wait_action(
    attempts_after_failure: u8,
    expected_ask_id: Seq<char>,
    event: AnswerEvent,
) -> AnswerWaitAction {
    match event {
        AnswerEvent::Received(ask_id) => if ask_id@ == expected_ask_id {
            AnswerWaitAction::Accept
        } else {
            AnswerWaitAction::Ignore
        },
        AnswerEvent::ChannelClosed => AnswerWaitAction::StopSteps,
        AnswerEvent::TimedOut => AnswerWaitAction::RetryAfterSleep { attempts: (attempts_after_failure + 1) as u8 },
    }
}

/// Decide what the consumer does after an event while it waits for the
/// answer to its ask.
///
/// # Arguments
/// * `attempts_after_failure` - The number of failed waits so far.
/// * `expected_ask_id` - The ask id of the step that was asked for.
/// * `event` - What the wait saw.
pub fn next_answer_wait_action(attempts_after_failure: u8, expected_ask_id: &str, event: &AnswerEvent) -> (r: AnswerWaitAction)
    requires
        attempts_after_failure < MAX_ATTEMPTS_AFTER_FAILURE,
    ensures
        r == spec_next_answer_wait_action(attempts_after_failure, expected_ask_id@, *event),
        event matches AnswerEvent::Received(id) && id@ == expected_ask_id@ ==> r == AnswerWaitAction::Accept,
        event matches AnswerEvent::Received(id) && id@ != expected_ask_id@ ==> r == AnswerWaitAction::Ignore,
        event is ChannelClosed ==> r == AnswerWaitAction::StopSteps,
        event is TimedOut ==> r == (AnswerWaitAction::RetryAfterSleep { attempts: (attempts_after_failure + 1) as u8 }),
{
    match event {
        AnswerEvent::Received(ask_id) => {
            if text_eq(ask_id.as_str(), expected_ask_id) {
                AnswerWaitAction::Accept
            } else {
                AnswerWaitAction::Ignore
            }
        },
        AnswerEvent::ChannelClosed => AnswerWaitAction::StopSteps,
        AnswerEvent::TimedOut => AnswerWaitAction::RetryAfterSleep { attempts: attempts_after_failure + 1 },
    }
}

/// While it waits, the consumer takes the answer whose ask id is the one it
/// expects, however many waits failed before; it ignores an answer to
/// another ask without counting it as a failure; a closed channel ends the
/// steps; and a time-out counts as one more failed wait.
pub proof fn lemma_answer_wait_decisions(attempts_after_failure: u8, expected_ask_id: Seq<char>, ask_id: String)
    requires
        attempts_after_failure < MAX_ATTEMPTS_AFTER_FAILURE,
    ensures
        ask_id@ == expected_ask_id ==> spec_next_answer_wait_action(
            attempts_after_failure, expected_ask_id, AnswerEvent::Received(ask_id)) == AnswerWaitAction::Accept,
        ask_id@ != expected_ask_id ==> spec_next_answer_wait_action(
            attempts_after_failure, expected_ask_id, AnswerEvent::Received(ask_id)) == AnswerWaitAction::Ignore,
        spec_next_answer_wait_action(attempts_after_failure, expected_ask_id, AnswerEvent::ChannelClosed)
            == AnswerWaitAction::StopSteps,
        spec_next_answer_wait_action(attempts_after_failure, expected_ask_id, AnswerEvent::TimedOut)
            == (AnswerWaitAction::RetryAfterSleep { attempts: (attempts_after_failure + 1) as u8 }),
{
}

/// How the consumer's wait for an answer ends.
#[derive(Clone, Copy, Debug, PartialEq, Eq, Structural)]
pub enum WaitOutcome {
    /// The expected answer arrived.
    Answered,
    /// The channel closed: no more steps are performed.
    Stopped,
    /// Too many waits failed: the consumer goes on without the answer.
    GaveUp,
}

/// Run the wait from `attempts_after_failure` failed waits against the
/// events in order: how it ends and how many events it took, or `None` when
/// the events run out first.
pub open spec fn run_answer_wait(attempts_after_failure: u8, expected_ask_id: Seq<char>, events: Seq<AnswerEvent>) -> Option<(WaitOutcome, nat)>
    decreases events.len(),
{
    if attempts_after_failure >= MAX_ATTEMPTS_AFTER_FAILURE {
        Some((WaitOutcome::GaveUp, 0nat))
    } else if events.len() == 0 {
        None
    } else {
        match spec_next_answer_wait_action(attempts_after_failure, expected_ask_id, events[0]) {
            AnswerWaitAction::Accept => Some((WaitOutcome::Answered, 1nat)),
            AnswerWaitAction::StopSteps => Some((WaitOutcome::Stopped, 1nat)),
            AnswerWaitAction::Ignore => match run_answer_wait(attempts_after_failure, expected_ask_id, events.drop_first()) {
                Some((o, n)) => Some((o, n + 1)),
                None => None,
            },
            AnswerWaitAction::RetryAfterSleep { attempts } => match run_answer_wait(attempts, expected_ask_id, events.drop_first()) {
                Some((o, n)) => Some((o, n + 1)),
                None => None,
            },
        }
    }
}

/// The number of time-outs among `events`.
pub open spec fn time_outs(events: Seq<AnswerEvent>) -> nat
    decreases events.len(),
{
    if events.len() == 0 {
        0
    } else {
        (if events[0] is TimedOut { 1nat } else { 0nat }) + time_outs(events.drop_first())
    }
}

/// Only time-outs count as failed waits, so a wait sits through at most
/// `MAX_ATTEMPTS_AFTER_FAILURE - attempts_after_failure` time-outs, however
/// many answers to other asks it ignores.
pub proof fn lemma_wait_tolerates_bounded_time_outs(attempts_after_failure: u8, expected_ask_id: Seq<char>, events: Seq<AnswerEvent>)
    requires
        attempts_after_failure <= MAX_ATTEMPTS_AFTER_FAILURE,
    ensures
        run_answer_wait(attempts_after_failure, expected_ask_id, events) matches Some((_, n)) ==> (
            n <= events.len() && time_outs(events.take(n as int)) + attempts_after_failure <= MAX_ATTEMPTS_AFTER_FAILURE),
    decreases events.len(),
{
    if attempts_after_failure < MAX_ATTEMPTS_AFTER_FAILURE && events.len() > 0 {
        let rest = events.drop_first();
        let action = spec_next_answer_wait_action(attempts_after_failure, expected_ask_id, events[0]);
        let next = match action {
            AnswerWaitAction::RetryAfterSleep { attempts } => attempts,
            _ => attempts_after_failure,
        };
        lemma_wait_tolerates_bounded_time_outs(next, expected_ask_id, rest);
        if let Some((o, n)) = run_answer_wait(attempts_after_failure, expected_ask_id, events) {
            let t = events.take(n as int);
            assert(t[0] == events[0]);
            if action is Accept || action is StopSteps {
                assert(n == 1);
                assert(t.drop_first() =~= Seq::<AnswerEvent>::empty());
                assert(time_outs(t.drop_first()) == 0);
                assert(!(events[0] is TimedOut));
            } else {
                let (o2, n2) = run_answer_wait(next, expected_ask_id, rest).unwrap();
                assert(n == n2 + 1);
                assert(t.drop_first() =~= rest.take(n2 as int));
                assert(time_outs(t) == (if events[0] is TimedOut { 1nat } else { 0nat }) + time_outs(rest.take(n2 as int)));
            }
        }
    } else if attempts_after_failure >= MAX_ATTEMPTS_AFTER_FAILURE {
        assert(events.take(0) =~= Seq::<AnswerEvent>::empty());
    }
}

/// When every wait times out, the consumer gives up after exactly
/// `MAX_ATTEMPTS_AFTER_FAILURE - attempts_after_failure` of them.
pub proof fn lemma_wait_gives_up_after_time_outs(attempts_after_failure: u8, expected_ask_id: Seq<char>, events: Seq<AnswerEvent>)
    requires
        attempts_after_failure <= MAX_ATTEMPTS_AFTER_FAILURE,
        forall|i: int| 0 <= i < events.len() ==> #[trigger] events[i] is TimedOut,
        events.len() >= MAX_ATTEMPTS_AFTER_FAILURE - attempts_after_failure,
    ensures
        run_answer_wait(attempts_after_failure, expected_ask_id, events)
            == Some((WaitOutcome::GaveUp, (MAX_ATTEMPTS_AFTER_FAILURE - attempts_after_failure) as nat)),
    decreases events.len(),
{
    if attempts_after_failure < MAX_ATTEMPTS_AFTER_FAILURE {
        let rest = events.drop_first();
        assert(events[0] is TimedOut);
        assert forall|i: int| 0 <= i < rest.len() implies #[trigger] rest[i] is TimedOut by {
            assert(rest[i] == events[i + 1]);
        }
        lemma_wait_gives_up_after_time_outs((attempts_after_failure + 1) as u8, expected_ask_id, rest);
    }
}

/// Where the massage steps consumer is.
#[derive(Debug)]
pub enum StepsState {
    /// About to ask the provider for a step.
    Asking,
    /// Waiting for the answer to the ask `ask_id`, after `attempts` failed waits.
    Waiting { ask_id: String, attempts: u8 },
    /// No more steps are performed.
    Stopped,
}

/// What the massage steps consumer saw.
#[derive(Debug)]
pub enum StepsEvent {
    /// The provider accepted the ask with this id.
    AskAccepted(String),
    /// The ask could not be sent.
    AskFailed,
    /// What the wait for an answer saw.
    Answer(AnswerEvent),
}

/// What the massage steps consumer does next.
#[derive(Clone, Copy, Debug, PartialEq, Eq, Structural)]
pub enum StepsAction {
    /// Pause, then ask for the next step.
    PauseThenAsk,
    /// Wait for an answer at once.
    Wait,
    /// Pause, then wait for an answer again.
    PauseThenWait,
    /// Pause after the last failed wait, pause again before the next step,
    /// then ask for it.
    PauseTwiceThenAsk,
    /// Perform no more steps.
    Stop,
}

/// The event is one the state can see: an ask's outcome while asking, a
/// wait's while waiting (with fewer than the most failed waits).
pub open spec fn steps_event_fits(state: StepsState, event: StepsEvent) -> bool {
    match state {
        StepsState::Asking => event is AskAccepted || event is AskFailed,
        StepsState::Waiting { attempts, .. } => attempts < MAX_ATTEMPTS_AFTER_FAILURE && event is Answer,
        StepsState::Stopped => false,
    }
}

/// The consumer's next state and action after `event`: an accepted ask is
/// waited for; a failed one is asked again after a pause; while waiting, the
/// expected answer leads to the next ask after a pause, the last allowed
/// time-out to the next ask after two pauses (one for the failed wait, one
/// before the step), an answer to another ask is ignored, any other time-out
/// is waited out after a pause, and a closed channel stops the steps.
pub open spec fn spec_next_steps(state: StepsState, event: StepsEvent) -> (StepsState, StepsAction) {
    match state {
        StepsState::Asking => match event {
            StepsEvent::AskAccepted(ask_id) => (StepsState::Waiting { ask_id, attempts: 0 }, StepsAction::Wait),
            _ => (StepsState::Asking, StepsAction::PauseThenAsk),
        },
        StepsState::Waiting { ask_id, attempts } => match event {
            StepsEvent::Answer(e) => match spec_next_answer_wait_action(attempts, ask_id@, e) {
                AnswerWaitAction::Accept => (StepsState::Asking, StepsAction::PauseThenAsk),
                AnswerWaitAction::Ignore => (StepsState::Waiting { ask_id, attempts }, StepsAction::Wait),
                AnswerWaitAction::StopSteps => (StepsState::Stopped, StepsAction::Stop),
                AnswerWaitAction::RetryAfterSleep { attempts: next } => if next < MAX_ATTEMPTS_AFTER_FAILURE {
                    (StepsState::Waiting { ask_id, attempts: next }, StepsAction::PauseThenWait)
                } else {
                    (StepsState::Asking, StepsAction::PauseTwiceThenAsk)
                },
            },
            _ => (StepsState::Stopped, StepsAction::Stop),
        },
        StepsState::Stopped => (StepsState::Stopped, StepsAction::Stop),
    }
}

/// Decide the massage steps consumer's next state and action.
///
/// # Arguments
/// * `state` - Where the consumer is.
/// * `event` - What it saw.
pub fn next_steps(state: StepsState, event: StepsEvent) -> (r: (StepsState, StepsAction))
    requires
        steps_event_fits(state, event),
    ensures
        r == spec_next_steps(state, event),
        r.0 matches StepsState::Waiting { attempts, .. } ==> attempts < MAX_ATTEMPTS_AFTER_FAILURE,
{
    match state {
        StepsState::Asking => match event {
            StepsEvent::AskAccepted(ask_id) => (StepsState::Waiting { ask_id, attempts: 0 }, StepsAction::Wait),
            _ => (StepsState::Asking, StepsAction::PauseThenAsk),
        },
        StepsState::Waiting { ask_id, attempts } => match event {
            StepsEvent::Answer(e) => match next_answer_wait_action(attempts, ask_id.as_str(), &e) {
                AnswerWaitAction::Accept => (StepsState::Asking, StepsAction::PauseThenAsk),
                AnswerWaitAction::Ignore => (StepsState::Waiting { ask_id, attempts }, StepsAction::Wait),
                AnswerWaitAction::StopSteps => (StepsState::Stopped, StepsAction::Stop),
                AnswerWaitAction::RetryAfterSleep { attempts: next } => {
                    if keep_waiting(next) {
                        (StepsState::Waiting { ask_id, attempts: next }, StepsAction::PauseThenWait)
                    } else {
                        (StepsState::Asking, StepsAction::PauseTwiceThenAsk)
                    }
                },
            },
            _ => (StepsState::Stopped, StepsAction::Stop),
        },
        StepsState::Stopped => (StepsState::Stopped, StepsAction::Stop),
    }
}

/// What the massage steps consumer does, exactly: an accepted ask is waited
/// for at once, with no failed waits yet; an ask that could not be sent is
/// tried again after a pause; while waiting for ask `ask_id`, its answer
/// leads to the next ask after a pause, an answer to another ask is waited
/// past at once with nothing counted, a time-out is waited out after a pause
/// with one more failed wait counted, except the last allowed one, which
/// leads to the next ask after two pauses; a closed channel stops the steps.
pub proof fn lemma_steps_decisions(ask_id: String, attempts: u8, other: String)
    requires
        attempts < MAX_ATTEMPTS_AFTER_FAILURE,
    ensures
        spec_next_steps(StepsState::Asking, StepsEvent::AskAccepted(ask_id))
            == (StepsState::Waiting { ask_id, attempts: 0 }, StepsAction::Wait),
        spec_next_steps(StepsState::Asking, StepsEvent::AskFailed) == (StepsState::Asking, StepsAction::PauseThenAsk),
        other@ == ask_id@ ==> spec_next_steps(
            StepsState::Waiting { ask_id, attempts },
            StepsEvent::Answer(AnswerEvent::Received(other)),
        ) == (StepsState::Asking, StepsAction::PauseThenAsk),
        other@ != ask_id@ ==> spec_next_steps(
            StepsState::Waiting { ask_id, attempts },
            StepsEvent::Answer(AnswerEvent::Received(other)),
        ) == (StepsState::Waiting { ask_id, attempts }, StepsAction::Wait),
        attempts + 1 < MAX_ATTEMPTS_AFTER_FAILURE ==> spec_next_steps(
            StepsState::Waiting { ask_id, attempts },
            StepsEvent::Answer(AnswerEvent::TimedOut),
        ) == (StepsState::Waiting { ask_id, attempts: (attempts + 1) as u8 }, StepsAction::PauseThenWait),
        attempts + 1 == MAX_ATTEMPTS_AFTER_FAILURE ==> spec_next_steps(
            StepsState::Waiting { ask_id, attempts },
            StepsEvent::Answer(AnswerEvent::TimedOut),
        ) == (StepsState::Asking, StepsAction::PauseTwiceThenAsk),
        spec_next_steps(StepsState::Waiting { ask_id, attempts }, StepsEvent::Answer(AnswerEvent::ChannelClosed))
            == (StepsState::Stopped, StepsAction::Stop),
{
}

/// The actions the consumer takes from `state` on `events`, in order, up to
/// the first event the state cannot see.
#[verifier::opaque]
pub open spec fn run_steps(state: StepsState, events: Seq<StepsEvent>) -> Seq<StepsAction>
    decreases events.len(),
{
    if events.len() == 0 || !steps_event_fits(state, events[0]) {
        Seq::empty()
    } else {
        seq![spec_next_steps(state, events[0]).1] + run_steps(spec_next_steps(state, events[0]).0, events.drop_first())
    }
}

/// The number of time-outs among the consumer's events.
pub open spec fn steps_time_outs(events: Seq<StepsEvent>) -> nat
    decreases events.len(),
{
    if events.len() == 0 {
        0
    } else {
        (if events[0] matches StepsEvent::Answer(AnswerEvent::TimedOut) { 1nat } else { 0nat })
            + steps_time_outs(events.drop_first())
    }
}

proof fn lemma_run_steps_unfold(state: StepsState, events: Seq<StepsEvent>)
    requires
        events.len() > 0,
        steps_event_fits(state, events[0]),
    ensures
        run_steps(state, events)
            == seq![spec_next_steps(state, events[0]).1] + run_steps(spec_next_steps(state, events[0]).0, events.drop_first()),
{
    reveal(run_steps);
}

proof fn lemma_run_steps_stopped(events: Seq<StepsEvent>)
    ensures
        run_steps(StepsState::Stopped, events).len() == 0,
{
    reveal(run_steps);
}

proof fn lemma_time_outs_unfold(events: Seq<StepsEvent>, j: int)
    requires
        0 <= j < events.len(),
    ensures
        steps_time_outs(events.take(j + 1)) == (if events[0] matches StepsEvent::Answer(AnswerEvent::TimedOut) { 1nat } else { 0nat })
            + steps_time_outs(events.drop_first().take(j)),
{
    assert(events.take(j + 1).drop_first() =~= events.drop_first().take(j));
    assert(events.take(j + 1)[0] == events[0]);
}

/// The consumer's actions from `state` on `events` up to and including the
/// first that asks again or stops.
#[verifier::opaque]
pub open spec fn run_until_next_ask(state: StepsState, events: Seq<StepsEvent>) -> Seq<StepsAction>
    decreases events.len(),
{
    if events.len() == 0 || !steps_event_fits(state, events[0]) {
        Seq::empty()
    } else {
        let (next, action) = spec_next_steps(state, events[0]);
        if action is PauseThenAsk || action is PauseTwiceThenAsk || action is Stop {
            seq![action]
        } else {
            seq![action] + run_until_next_ask(next, events.drop_first())
        }
    }
}

/// Once an ask `ask_id` is accepted, the consumer sends no further ask until
/// the answer to that ask arrives or the waits have timed out
/// `MAX_ATTEMPTS_AFTER_FAILURE` times in all (answers to other asks do not
/// count, and are waited past at once); a closed channel stops it, and it
/// does nothing after that. `run_until_next_ask` is the start of the
/// consumer's run, up to its next ask or its stop.
#[verifier::rlimit(30)]
pub proof fn lemma_no_ask_before_answer(ask_id: String, attempts: u8, events: Seq<StepsEvent>)
    requires
        attempts < MAX_ATTEMPTS_AFTER_FAILURE,
    ensures ({
        let start = StepsState::Waiting { ask_id, attempts };
        let wait = run_until_next_ask(start, events);
        let run = run_steps(start, events);
        &&& wait.len() <= events.len()
        &&& wait.len() <= run.len()
        &&& wait == run.take(wait.len() as int)
        &&& forall|j: int| 0 <= j < wait.len() - 1 ==> (#[trigger] wait[j] is Wait || wait[j] is PauseThenWait)
        &&& wait.len() > 0 && wait.last() is PauseThenAsk
            ==> (events[wait.len() - 1] matches StepsEvent::Answer(AnswerEvent::Received(id)) && id@ == ask_id@)
        &&& wait.len() > 0 && wait.last() is PauseTwiceThenAsk
            ==> (events[wait.len() - 1] matches StepsEvent::Answer(AnswerEvent::TimedOut)
                && steps_time_outs(events.take(wait.len() as int)) + attempts == MAX_ATTEMPTS_AFTER_FAILURE)
        &&& wait.len() > 0 && wait.last() is Stop ==> {
            &&& events[wait.len() - 1] matches StepsEvent::Answer(AnswerEvent::ChannelClosed)
            &&& run.len() == wait.len()
        }
    }),
    decreases events.len(),
{
    let start = StepsState::Waiting { ask_id, attempts };
    let wait = run_until_next_ask(start, events);
    let run = run_steps(start, events);
    if events.len() == 0 || !steps_event_fits(start, events[0]) {
        assert(wait.len() == 0) by {
            reveal(run_until_next_ask);
        }
        assert(run.take(0) =~= wait);
        return;
    }
    let rest = events.drop_first();
    let e = events[0]->Answer_0;
    let (next, first) = spec_next_steps(start, events[0]);
    lemma_run_steps_unfold(start, events);
    let racts = run_steps(next, rest);
    assert(run == seq![first] + racts);
    if first is PauseThenAsk || first is PauseTwiceThenAsk || first is Stop {
        assert(wait == seq![first]) by {
            reveal(run_until_next_ask);
        }
        assert(run.take(1) =~= wait);
        lemma_time_outs_unfold(events, 0);
        assert(events.drop_first().take(0) =~= Seq::<StepsEvent>::empty());
        assert(events.take(1).len() == 1);
        if first is Stop {
            assert(e is ChannelClosed);
            lemma_run_steps_stopped(rest);
        } else if first is PauseThenAsk {
            assert(e matches AnswerEvent::Received(id) && id@ == ask_id@);
        } else {
            assert(e is TimedOut && attempts + 1 == MAX_ATTEMPTS_AFTER_FAILURE);
        }
    } else {
        let (a2, n2) = match next {
            StepsState::Waiting { ask_id: a2, attempts: n2 } => (a2, n2),
            _ => (ask_id, attempts),
        };
        assert(next == StepsState::Waiting { ask_id: a2, attempts: n2 });
        assert(a2 == ask_id);
        assert(n2 < MAX_ATTEMPTS_AFTER_FAILURE);
        assert(e is TimedOut ==> n2 == attempts + 1);
        assert(!(e is TimedOut) ==> n2 == attempts);
        let rwait = run_until_next_ask(next, rest);
        assert(wait == seq![first] + rwait) by {
            reveal(run_until_next_ask);
        }
        lemma_no_ask_before_answer(a2, n2, rest);
        assert(first is Wait || first is PauseThenWait);
        let m = wait.len() as int;
        assert(run.take(m) =~= seq![first] + racts.take(m - 1));
        assert forall|j: int| 0 <= j < wait.len() - 1 implies (#[trigger] wait[j] is Wait || wait[j] is PauseThenWait) by {
            if j > 0 {
                assert(wait[j] == rwait[j - 1]);
            }
        }
        if m > 1 {
            assert(wait.last() == rwait.last());
            assert(events[m - 1] == rest[m - 2]);
            lemma_time_outs_unfold(events, m - 1);
        }
    }
}

/// The type id (the "@type" member) of a perform-step request payload
/// against the perform-step request's model id.
///
/// # Arguments
/// * `type_member` - What the request payload holds under "@type".
/// * `perform_step_request_id` - The perform-step request's model id.
pub fn check_type_id(type_member: JsonMember, perform_step_request_id: &str) -> (r: Result<(), Status>)
    requires
        type_member@ is Malformed || type_member@ is Text,
    ensures
        type_member@ matches JsonMemberView::Malformed(reason) ==> (r matches Err(s)
            && s.code == StatusCode::InvalidArgument && s.message@ == reason),
        type_member@ matches JsonMemberView::Text { text, .. } ==> (
            if text == perform_step_request_id@ {
                r is Ok
            } else {
                r matches Err(s) && s.code == StatusCode::InvalidArgument
                    && s.message@ == "Unexpected type_id '"@ + text + "'"@
            }),
{
    match type_member {
        JsonMember::Malformed(reason) => Err(Status::invalid_argument(reason)),
        JsonMember::Text { text, .. } => {
            if text_eq(text.as_str(), perform_step_request_id) {
                Ok(())
            } else {
                Err(Status::invalid_argument(join3("Unexpected type_id '", text.as_str(), "'")))
            }
        },
        JsonMember::Absent => Err(Status::internal(String::new())),
        JsonMember::NonText(_) => Err(Status::internal(String::new())),
    }
}

/// Check an ask request's payload: it must be a perform-step request. `None`
/// when the payload is JSON without a textual type id, which the request
/// cannot be served with.
///
/// # Arguments
/// * `request_payload` - The targeted payload's own payload.
/// * `perform_step_request_id` - The perform-step request's model id.
pub fn check_perform_step_request(request_payload: &str, perform_step_request_id: &str) -> (r: Option<Result<(), Status>>)
    ensures
        r is None <==> ({
            let m = json_member_of(request_payload@, "@type"@);
            !(m is Malformed) && !(m is Text)
        }),
        json_member_of(request_payload@, "@type"@) matches JsonMemberView::Malformed(reason)
            ==> (r matches Some(Err(s)) && s.code == StatusCode::InvalidArgument && s.message@ == reason),
        json_member_of(request_payload@, "@type"@) matches JsonMemberView::Text { text, .. } ==> (
            if text == perform_step_request_id@ {
                r matches Some(Ok(_))
            } else {
                r matches Some(Err(s)) && s.code == StatusCode::InvalidArgument
                    && s.message@ == "Unexpected type_id '"@ + text + "'"@
            }),
{
    let member = inspect_json_member(request_payload, "@type");
    match member {
        JsonMember::Absent => None,
        JsonMember::NonText(_) => None,
        _ => Some(check_type_id(member, perform_step_request_id)),
    }
}

/// The seat massager provider's properties: its massage airbags, kept as
/// their JSON rendering.
#[derive(Debug)]
pub struct ProviderProperties {
    pub massage_airbags: String,
}

/// The massage airbags after a set request with `value`: the rendering of what
/// `value` holds under the massage airbags member, where that is a JSON value
/// other than a string; otherwise they stay as they were.
pub open spec fn massage_airbags_after_set(current: Seq<char>, value: Seq<char>) -> Seq<char> {
    match json_member_of(value, MASSAGE_AIRBAGS_MEMBER@) {
        JsonMemberView::NonText(rendered) => rendered,
        _ => current,
    }
}

/// The massage airbags after set requests with each of `values`, in order.
pub open spec fn massage_airbags_after_sets(initial: Seq<char>, values: Seq<Seq<char>>) -> Seq<char>
    decreases values.len(),
{
    if values.len() == 0 {
        initial
    } else {
        massage_airbags_after_set(massage_airbags_after_sets(initial, values.drop_last()), values.last())
    }
}

/// Does `value` hold massage airbags that a set request can take?
pub open spec fn sets_massage_airbags(value: Seq<char>) -> bool {
    json_member_of(value, MASSAGE_AIRBAGS_MEMBER@) is NonText
}

impl ProviderProperties {
    /// No massage airbags yet: the empty list.
    pub fn new() -> (p: Self)
        ensures
            p.massage_airbags@ == "[]"@,
    {
        ProviderProperties { massage_airbags: String::from_str("[]") }
    }

    /// Set the massage airbags property from its JSON form.
    ///
    /// # Arguments
    /// * `value` - The massage airbags property in its JSON form.
    pub fn set_massage_airbags(&mut self, value: &str) -> (r: Result<(), String>)
        requires
            sets_massage_airbags(value@),
        ensures
            r is Ok,
            final(self).massage_airbags@ == massage_airbags_after_set(old(self).massage_airbags@, value@),
    {
        match inspect_json_member(value, MASSAGE_AIRBAGS_MEMBER) {
            JsonMember::NonText(rendered) => {
                self.massage_airbags = rendered;
            },
            _ => {},
        }
        Ok(())
    }

    /// Set the massage airbags where `value` holds them; `false`, and nothing
    /// changed, where it does not.
    ///
    /// # Arguments
    /// * `value` - The massage airbags property in its JSON form.
    pub fn try_set_massage_airbags(&mut self, value: &str) -> (r: bool)
        ensures
            r == sets_massage_airbags(value@),
            final(self).massage_airbags@ == massage_airbags_after_set(old(self).massage_airbags@, value@),
    {
        let settable = match inspect_json_member(value, MASSAGE_AIRBAGS_MEMBER) {
            JsonMember::NonText(_) => true,
            _ => false,
        };
        if settable {
            let _ = self.set_massage_airbags(value);
        }
        settable
    }

    /// Get the massage airbags property in its JSON form: an object holding
    /// the massage airbags, and metadata naming the property's model.
    ///
    /// # Arguments
    /// * `massage_airbags_id` - The massage airbags property's model id.
    pub fn get_massage_airbags(&self, massage_airbags_id: &str) -> (r: Result<String, String>)
        ensures
            r matches Ok(v) && v@ == massage_airbags_property(self.massage_airbags@, massage_airbags_id@),
    {
        let model = json_string(massage_airbags_id);
        Ok(join5(
            "{\"MassageAirbags\":",
            self.massage_airbags.as_str(),
            ",\"$metadata\":{\"$model\":",
            model.as_str(),
            "}}",
        ))
    }

    /// Get implementation: the massage airbags property, for its entity id;
    /// `None` for any other entity id, which is not recognized.
    ///
    /// # Arguments
    /// * `entity_id` - The requested entity id.
    /// * `massage_airbags_id` - The massage airbags property's model id.
    pub fn get(&self, entity_id: &str, massage_airbags_id: &str) -> (r: Option<String>)
        ensures
            entity_id@ == massage_airbags_id@
                ==> (r matches Some(v) && v@ == massage_airbags_property(self.massage_airbags@, massage_airbags_id@)),
            entity_id@ != massage_airbags_id@ ==> r is None,
    {
        if text_eq(entity_id, massage_airbags_id) {
            match self.get_massage_airbags(massage_airbags_id) {
                Ok(v) => Some(v),
                Err(_) => None,
            }
        } else {
            None
        }
    }

    /// Set implementation: for the massage airbags' entity id, set them from
    /// the value where it holds them. Returns whether they were set; nothing
    /// changes for another entity id, which is not recognized.
    ///
    /// # Arguments
    /// * `entity_id` - The entity id to set.
    /// * `value` - The massage airbags property in its JSON form.
    /// * `massage_airbags_id` - The massage airbags property's model id.
    pub fn set(&mut self, entity_id: &str, value: &str, massage_airbags_id: &str) -> (r: bool)
        ensures
            r == (entity_id@ == massage_airbags_id@ && sets_massage_airbags(value@)),
            entity_id@ == massage_airbags_id@
                ==> final(self).massage_airbags@ == massage_airbags_after_set(old(self).massage_airbags@, value@),
            entity_id@ != massage_airbags_id@ ==> final(self).massage_airbags@ == old(self).massage_airbags@,
    {
        if text_eq(entity_id, massage_airbags_id) {
            self.try_set_massage_airbags(value)
        } else {
            false
        }
    }
}

/// The massage airbags property in its JSON form, for the airbags' rendering:
/// `{"MassageAirbags":<airbags>,"$metadata":{"$model":<model id as a JSON string>}}`.
pub open spec fn massage_airbags_property(airbags: Seq<char>, model_id: Seq<char>) -> Seq<char> {
    "{\"MassageAirbags\":"@ + airbags + ",\"$metadata\":{\"$model\":"@ + json_string_of(model_id) + "}}"@
}

/// A get gives back the property object over what the last set request that
/// held massage airbags set, and over the initial airbags where none did.
pub proof fn lemma_get_after_sets(initial: Seq<char>, values: Seq<Seq<char>>, model_id: Seq<char>)
    ensures
        (forall|i: int| 0 <= i < values.len() ==> !sets_massage_airbags(#[trigger] values[i]))
            ==> massage_airbags_after_sets(initial, values) == initial
                && massage_airbags_property(massage_airbags_after_sets(initial, values), model_id)
                    == massage_airbags_property(initial, model_id),
        forall|i: int| 0 <= i < values.len() && sets_massage_airbags(#[trigger] values[i])
            && (forall|j: int| i < j < values.len() ==> !sets_massage_airbags(#[trigger] values[j]))
            ==> (json_member_of(values[i], MASSAGE_AIRBAGS_MEMBER@) matches JsonMemberView::NonText(rendered)
                && massage_airbags_after_sets(initial, values) == rendered
                && massage_airbags_property(massage_airbags_after_sets(initial, values), model_id)
                    == massage_airbags_property(rendered, model_id)),
    decreases values.len(),
{
    if values.len() > 0 {
        let rest = values.drop_last();
        lemma_get_after_sets(initial, rest, model_id);
        let n = values.len() - 1;
        assert forall|i: int| 0 <= i < rest.len() implies #[trigger] rest[i] == values[i] by {}
        if forall|i: int| 0 <= i < values.len() ==> !sets_massage_airbags(#[trigger] values[i]) {
            assert(!sets_massage_airbags(values[n]));
        }
        assert forall|i: int| 0 <= i < values.len() && sets_massage_airbags(#[trigger] values[i])
            && (forall|j: int| i < j < values.len() ==> !sets_massage_airbags(#[trigger] values[j]))
            implies (json_member_of(values[i], MASSAGE_AIRBAGS_MEMBER@) matches JsonMemberView::NonText(rendered)
                && massage_airbags_after_sets(initial, values) == rendered) by {
            if i < n {
                assert(!sets_massage_airbags(values[n]));
                assert(rest[i] == values[i]);
                assert forall|j: int| i < j < rest.len() implies !sets_massage_airbags(#[trigger] rest[j]) by {
                    assert(rest[j] == values[j]);
                }
            }
        }
    }
}

/// The seat massager provider's request state.
#[derive(Debug)]
pub struct RequestState {}

/// The seat massager provider's requestor state.
#[derive(Debug)]
pub struct RequestorState {}

} // verus!
