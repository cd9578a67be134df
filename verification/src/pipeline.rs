//! The stages of one synthesis request.
//!
//! A request goes from `Idle` to `TextNormalized`, from there, with the
//! engine's utterance plan, to `PlanObtained`, and with the engine's audio to
//! `AudioObtained`, where it ends. Each of the two exchanges with the engine
//! is tried once: a failure is reported at once and the request stays at its
//! stage, so that the caller may try again from there.

use vstd::prelude::*;

use crate::error::VVError;

verus! {

/// How far a request has come.
#[derive(Clone, Copy, Debug, PartialEq, Eq, Structural)]
pub enum Stage {
    /// Nothing was done yet.
    Idle,
    /// The text was rewritten by the dictionary.
    TextNormalized,
    /// The engine gave the utterance plan.
    PlanObtained,
    /// The engine gave the audio.
    AudioObtained,
}

/// How an exchange with the engine ended.
#[derive(Clone, Copy, Debug, PartialEq, Eq, Structural)]
pub enum Reply {
    /// The transport failed: no answer came.
    Unreachable,
    /// An answer came that does not have the expected shape.
    Misshapen,
    /// An answer of the expected shape came.
    Accepted,
}

/// The stage after the text was normalized, which always succeeds; a request
/// that is past `Idle` stays where it is.
pub open spec fn after_normalizing(stage: Stage) -> Stage {
    if stage == Stage::Idle {
        Stage::TextNormalized
    } else {
        stage
    }
}

/// Whether a request at this stage awaits an answer of the engine.
pub open spec fn awaits_reply(stage: Stage) -> bool {
    stage == Stage::TextNormalized || stage == Stage::PlanObtained
}

/// The stage after an exchange with the engine, or the failure. An answer
/// that the stage does not await is taken as misshapen.
pub open spec fn after_reply(stage: Stage, reply: Reply) -> Result<Stage, VVError> {
    if reply == Reply::Unreachable {
        Err(VVError::RemoteUnavailable)
    } else if reply == Reply::Misshapen || !awaits_reply(stage) {
        Err(VVError::MalformedResponse)
    } else if stage == Stage::TextNormalized {
        Ok(Stage::PlanObtained)
    } else {
        Ok(Stage::AudioObtained)
    }
}

/// The stage after an exchange with the engine, or the failure:
/// `RemoteUnavailable` for a failed transport, `MalformedResponse` for an
/// answer of the wrong shape or one that the stage does not await.
pub fn proceed(stage: Stage, reply: Reply) -> (r: Result<Stage, VVError>)
    ensures
        r == after_reply(stage, reply),
{
    if reply == Reply::Unreachable {
        Err(VVError::RemoteUnavailable)
    } else if reply == Reply::Misshapen {
        Err(VVError::MalformedResponse)
    } else if stage == Stage::TextNormalized {
        Ok(Stage::PlanObtained)
    } else if stage == Stage::PlanObtained {
        Ok(Stage::AudioObtained)
    } else {
        Err(VVError::MalformedResponse)
    }
}

/// One synthesis request.
pub struct Request {
    stage: Stage,
}

impl View for Request {
    type V = Stage;

    closed spec fn view(&self) -> Stage {
        self.stage
    }
}

impl Request {
    /// A request at which nothing was done yet.
    pub fn new() -> (r: Request)
        ensures
            r@ == Stage::Idle,
    {
        Request { stage: Stage::Idle }
    }

    /// How far the request has come.
    pub fn stage(&self) -> (r: Stage)
        ensures
            r == self@,
    {
        self.stage
    }

    /// Records that the text was normalized.
    pub fn normalized(&mut self)
        ensures
            final(self)@ == after_normalizing(old(self)@),
    {
        if self.stage == Stage::Idle {
            self.stage = Stage::TextNormalized;
        }
    }

    /// Takes the outcome of an exchange with the engine. On success the
    /// request moves to its next stage; on failure it stays, and the error
    /// is `RemoteUnavailable` for a failed transport and `MalformedResponse`
    /// for an answer of the wrong shape.
    pub fn answered(&mut self, reply: Reply) -> (r: Result<(), VVError>)
        ensures
            match after_reply(old(self)@, reply) {
                Ok(next) => r is Ok && final(self)@ == next,
                Err(e) => r == Err::<(), VVError>(e) && final(self)@ == old(self)@,
            },
    {
        match proceed(self.stage, reply) {
            Ok(next) => {
                self.stage = next;
                Ok(())
            },
            Err(e) => Err(e),
        }
    }
}

/// A request that is answered twice with success after its text was
/// normalized has its audio; no other course of two answers leads there.
pub proof fn lemma_request_course(a: Reply, b: Reply)
    ensures
        (after_reply(Stage::TextNormalized, a) matches Ok(s) && after_reply(s, b) == Ok::<
            Stage,
            VVError,
        >(Stage::AudioObtained)) <==> a == Reply::Accepted && b == Reply::Accepted,
{
}

} // verus!
