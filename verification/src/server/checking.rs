//! Checking that the public endpoint reaches this server: one check at a time,
//! with two challenges that only it can have posed.

use crate::access::Challenges;
use crate::access::DiagnosticChallenge;
use crate::keyed;
use crate::public_exposure::verification::Failure;
use crate::public_exposure::verification::VerificationFailure;
use crate::text;
use vstd::prelude::*;

verus! {

/// Text as the contracts see it.
pub type Text = Seq<char>;

/// How long a check may take, in seconds.
pub const CHECK_LIMIT: u64 = 45;

/// How long another check is waited for, in seconds.
pub const WAIT_LIMIT: u64 = 55;

// ---------------------------------------------------------------------------
// One check at a time
// ---------------------------------------------------------------------------

/// What the checks of a server share.
#[derive(Debug)]
pub struct Shared {
    pub running: bool,
    /// How many checks are over; the count goes round at its limit.
    pub generation: u64,
    pub challenges: Challenges,
}

/// What somebody who wants a check does.
#[derive(Debug, Clone, Copy, PartialEq, Eq, Structural)]
pub enum Entry {
    /// Make it.
    Check,
    /// Wait for the one that runs, for [`WAIT_LIMIT`] at most; it counts as a
    /// success where it is over by then.
    Wait,
    /// One ended in between, which is not waited for and counts as no success.
    Missed,
}

impl Shared {
    /// The challenges are kept in order.
    pub open spec fn wf(&self) -> bool {
        self.challenges.open.wf()
    }

    /// Which challenge a token is, where it is one.
    pub open spec fn challenge(&self, token: Text) -> Option<DiagnosticChallenge> {
        keyed::find(self.challenges.open@, token)
    }

    /// Nothing is checked.
    pub fn new() -> (out: Self)
        ensures
            out.wf(),
            !out.running,
            out.generation == 0,
            forall|token: Text| (#[trigger] out.challenge(token)) is None,
    {
        Shared { running: false, generation: 0, challenges: Challenges::new() }
    }

    /// What somebody who saw this generation does. Whoever is to check runs.
    pub fn enter(&mut self, seen: u64) -> (out: Entry)
        ensures
            out == if !old(self).running {
                Entry::Check
            } else if old(self).generation != seen {
                Entry::Missed
            } else {
                Entry::Wait
            },
            final(self).running,
            final(self).generation == old(self).generation,
            final(self).challenges == old(self).challenges,
    {
        if !self.running {
            self.running = true;
            Entry::Check
        } else if self.generation != seen {
            Entry::Missed
        } else {
            Entry::Wait
        }
    }

    fn leave(&mut self)
        ensures
            !final(self).running,
            final(self).generation == old(self).generation.wrapping_add(1),
            final(self).challenges == old(self).challenges,
    {
        self.running = false;
        self.generation = self.generation.wrapping_add(1);
    }
}

// ---------------------------------------------------------------------------
// A check
// ---------------------------------------------------------------------------

/// What to do next.
#[derive(Debug, PartialEq, Eq)]
pub enum Action<S> {
    /// The origin that is recorded: [`Event::Endpoint`].
    ReadEndpoint,
    /// Two tokens that nobody can guess: [`Event::Tokens`].
    MintTokens,
    /// Verify the endpoint, for [`CHECK_LIMIT`] at most: [`Event::Verdict`].
    Verify { origin: S, http_token: S, ws_token: S },
    /// Record what came of it: [`Event::Recorded`].
    Record { origin: S, verified: bool, failure_kind: Option<S>, failure_message: Option<S> },
    /// Tell whoever waits, and answer.
    Done(bool),
}

/// What came of it.
#[derive(Debug)]
pub enum Event<S, F> {
    Endpoint(Option<S>),
    Tokens { http_token: S, ws_token: S },
    /// `None` is a verification that took too long.
    Verdict(Option<Result<(), F>>),
    /// Whether the endpoint was still the one that is recorded, where it could be
    /// written.
    Recorded(Option<bool>),
}

/// Where a check is.
#[derive(Debug, PartialEq, Eq)]
pub enum Check<S> {
    Endpoint,
    Tokens { origin: S },
    Verdict { origin: S, http_token: S, ws_token: S },
    Recorded { succeeded: bool },
    Over,
}

impl View for Action<String> {
    type V = Action<Text>;

    open spec fn view(&self) -> Action<Text> {
        match self {
            Action::ReadEndpoint => Action::ReadEndpoint,
            Action::MintTokens => Action::MintTokens,
            Action::Verify { origin, http_token, ws_token } => Action::Verify {
                origin: origin@,
                http_token: http_token@,
                ws_token: ws_token@,
            },
            Action::Record { origin, verified, failure_kind, failure_message } => Action::Record {
                origin: origin@,
                verified: *verified,
                failure_kind: text::maybe(*failure_kind),
                failure_message: text::maybe(*failure_message),
            },
            Action::Done(succeeded) => Action::Done(*succeeded),
        }
    }
}

impl View for Event<String, VerificationFailure> {
    type V = Event<Text, Failure>;

    open spec fn view(&self) -> Event<Text, Failure> {
        match self {
            Event::Endpoint(origin) => Event::Endpoint(text::maybe(*origin)),
            Event::Tokens { http_token, ws_token } => Event::Tokens { http_token: http_token@, ws_token: ws_token@ },
            Event::Verdict(None) => Event::Verdict(None),
            Event::Verdict(Some(Ok(_))) => Event::Verdict(Some(Ok(()))),
            Event::Verdict(Some(Err(failure))) => Event::Verdict(Some(Err(failure@))),
            Event::Recorded(recorded) => Event::Recorded(*recorded),
        }
    }
}

impl View for Check<String> {
    type V = Check<Text>;

    open spec fn view(&self) -> Check<Text> {
        match self {
            Check::Endpoint => Check::Endpoint,
            Check::Tokens { origin } => Check::Tokens { origin: origin@ },
            Check::Verdict { origin, http_token, ws_token } => Check::Verdict {
                origin: origin@,
                http_token: http_token@,
                ws_token: ws_token@,
            },
            Check::Recorded { succeeded } => Check::Recorded { succeeded: *succeeded },
            Check::Over => Check::Over,
        }
    }
}

/// What is recorded of a verdict. One that took too long failed over `https`.
pub open spec fn recording(origin: Text, verdict: Option<Result<(), Failure>>) -> Action<Text> {
    match verdict {
        Some(Ok(_)) => Action::Record { origin, verified: true, failure_kind: None, failure_message: None },
        Some(Err(failure)) => Action::Record {
            origin,
            verified: false,
            failure_kind: Some(failure.kind),
            failure_message: Some(failure.message),
        },
        None => Action::Record {
            origin,
            verified: false,
            failure_kind: Some("http"@),
            failure_message: Some("Public endpoint verification timed out."@),
        },
    }
}

impl Check<Text> {
    /// Whether this is what was asked for.
    pub open spec fn expects(self, event: Event<Text, Failure>) -> bool {
        match self {
            Check::Endpoint => event is Endpoint,
            Check::Tokens { .. } => event is Tokens,
            Check::Verdict { .. } => event is Verdict,
            Check::Recorded { .. } => event is Recorded,
            Check::Over => false,
        }
    }

    /// What comes next.
    pub open spec fn step(self, event: Event<Text, Failure>) -> (Self, Action<Text>) {
        match (self, event) {
            (Check::Endpoint, Event::Endpoint(Some(origin))) => (Check::Tokens { origin }, Action::MintTokens),
            (Check::Endpoint, Event::Endpoint(None)) => (Check::Over, Action::Done(false)),
            (Check::Tokens { origin }, Event::Tokens { http_token, ws_token }) => (
                Check::Verdict { origin, http_token, ws_token },
                Action::Verify { origin, http_token, ws_token },
            ),
            (Check::Verdict { origin, .. }, Event::Verdict(verdict)) => (
                Check::Recorded { succeeded: verdict == Some(Ok::<(), Failure>(())) },
                recording(origin, verdict),
            ),
            (Check::Recorded { succeeded }, Event::Recorded(recorded)) => (
                Check::Over,
                Action::Done(succeeded && recorded == Some(true)),
            ),
            (state, _) => (state, Action::Done(false)),
        }
    }

    /// Which challenge a token is after a step, where it is one. The two are posed
    /// with their tokens and withdrawn with the verdict, whatever it is.
    pub open spec fn challenge_after(
        self,
        event: Event<Text, Failure>,
        token: Text,
        before: Option<DiagnosticChallenge>,
    ) -> Option<DiagnosticChallenge> {
        match (self, event) {
            (Check::Tokens { .. }, Event::Tokens { http_token, ws_token }) => if token == ws_token {
                Some(DiagnosticChallenge::WebSocket)
            } else if token == http_token {
                Some(DiagnosticChallenge::Http)
            } else {
                before
            },
            (Check::Verdict { http_token, ws_token, .. }, Event::Verdict(_)) => if token == ws_token || token
                == http_token {
                None
            } else {
                before
            },
            _ => before,
        }
    }
}

impl Check<String> {
    /// Begins a check.
    pub fn begin() -> (out: (Check<String>, Action<String>))
        ensures
            out.0@ == Check::<Text>::Endpoint,
            out.1@ == Action::<Text>::ReadEndpoint,
    {
        (Check::Endpoint, Action::ReadEndpoint)
    }

    /// What comes next, and what becomes of what the checks share: whoever comes
    /// next can check once this one is over.
    pub fn step(self, shared: &mut Shared, event: Event<String, VerificationFailure>) -> (out: (
        Check<String>,
        Action<String>,
    ))
        requires
            self@.expects(event@),
            old(shared).wf(),
        ensures
            (out.0@, out.1@) == self@.step(event@),
            final(shared).wf(),
            forall|token: Text|
                #[trigger] final(shared).challenge(token) == self@.challenge_after(
                    event@,
                    token,
                    old(shared).challenge(token),
                ),
            final(shared).running == (old(shared).running && out.1@ !is Done),
            final(shared).generation == if out.1@ is Done {
                old(shared).generation.wrapping_add(1)
            } else {
                old(shared).generation
            },
    {
        match (self, event) {
            (Check::Endpoint, Event::Endpoint(Some(origin))) => (Check::Tokens { origin }, Action::MintTokens),
            (Check::Endpoint, Event::Endpoint(None)) => {
                shared.leave();
                (Check::Over, Action::Done(false))
            },
            (Check::Tokens { origin }, Event::Tokens { http_token, ws_token }) => {
                shared.challenges.pose(http_token.clone(), DiagnosticChallenge::Http);
                shared.challenges.pose(ws_token.clone(), DiagnosticChallenge::WebSocket);
                let action = Action::Verify {
                    origin: origin.clone(),
                    http_token: http_token.clone(),
                    ws_token: ws_token.clone(),
                };
                (Check::Verdict { origin, http_token, ws_token }, action)
            },
            (Check::Verdict { origin, http_token, ws_token }, Event::Verdict(verdict)) => {
                shared.challenges.withdraw(&http_token);
                shared.challenges.withdraw(&ws_token);
                match verdict {
                    Some(Ok(_)) => (
                        Check::Recorded { succeeded: true },
                        Action::Record { origin, verified: true, failure_kind: None, failure_message: None },
                    ),
                    Some(Err(failure)) => (
                        Check::Recorded { succeeded: false },
                        Action::Record {
                            origin,
                            verified: false,
                            failure_kind: Some(failure.kind.to_owned()),
                            failure_message: Some(failure.message.to_owned()),
                        },
                    ),
                    None => (
                        Check::Recorded { succeeded: false },
                        Action::Record {
                            origin,
                            verified: false,
                            failure_kind: Some("http".to_owned()),
                            failure_message: Some("Public endpoint verification timed out.".to_owned()),
                        },
                    ),
                }
            },
            (Check::Recorded { succeeded }, Event::Recorded(recorded)) => {
                shared.leave();
                let kept: bool = match recorded {
                    Some(kept) => kept,
                    None => false,
                };
                (Check::Over, Action::Done(succeeded && kept))
            },
            (state, _) => {
                shared.leave();
                (state, Action::Done(false))
            },
        }
    }
}

// ---------------------------------------------------------------------------
// Testing the endpoint
// ---------------------------------------------------------------------------

/// What a request to test the endpoint is answered.
#[derive(Debug, Clone, Copy, PartialEq, Eq, Structural)]
pub enum Tested {
    /// 404: there is no endpoint.
    NotFound,
    /// 504: a check still runs.
    StillRunning,
    /// The state.
    Report,
}

impl Tested {
    /// The sentence of an answer that has one.
    pub fn message(self) -> (out: Option<&'static str>)
        ensures
            match out {
                Some(message) => self == Tested::StillRunning && message@ == "Verification is still running."@,
                None => self != Tested::StillRunning,
            },
    {
        match self {
            Tested::StillRunning => Some("Verification is still running."),
            _ => None,
        }
    }
}

/// What a request to test the endpoint is answered, once a check was made or
/// waited for. `recorded` is whether there was an endpoint, without which none is.
pub fn test_external_tunnel(recorded: bool, running: bool) -> (out: Tested)
    ensures
        out == if !recorded {
            Tested::NotFound
        } else if running {
            Tested::StillRunning
        } else {
            Tested::Report
        },
{
    if !recorded {
        Tested::NotFound
    } else if running {
        Tested::StillRunning
    } else {
        Tested::Report
    }
}

// ---------------------------------------------------------------------------
// Laws
// ---------------------------------------------------------------------------

/// A check succeeds exactly where the endpoint was verified and is still the one
/// that is recorded.
pub proof fn a_success_was_verified_and_recorded(
    origin: Text,
    http_token: Text,
    ws_token: Text,
    verdict: Option<Result<(), Failure>>,
    recorded: Option<bool>,
)
    ensures
        ({
            let started = Check::Verdict { origin, http_token, ws_token };
            let (judged, record) = started.step(Event::Verdict(verdict));
            let (over, done) = judged.step(Event::Recorded(recorded));
            &&& judged.expects(Event::Recorded(recorded))
            &&& over == Check::<Text>::Over
            &&& done == Action::<Text>::Done(verdict == Some(Ok::<(), Failure>(())) && recorded == Some(true))
            &&& record == recording(origin, verdict)
        }),
{
}

/// What a check posed, it withdraws: when it is over no token of it is a challenge,
/// and every other challenge is what it was.
pub proof fn a_check_leaves_no_challenge(
    origin: Text,
    http_token: Text,
    ws_token: Text,
    verdict: Option<Result<(), Failure>>,
    token: Text,
    before: Option<DiagnosticChallenge>,
)
    ensures
        ({
            let posing = Check::Tokens { origin };
            let tokens = Event::Tokens { http_token, ws_token };
            let posed = posing.challenge_after(tokens, token, before);
            let left = posing.step(tokens).0.challenge_after(Event::Verdict(verdict), token, posed);
            &&& token == http_token || token == ws_token ==> posed is Some && left is None
            &&& token != http_token && token != ws_token ==> posed == before && left == before
        }),
{
}

} // verus!
