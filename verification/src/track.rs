use vstd::prelude::*;
use vstd::string::StringExecFns;

use nonmax::NonMaxU32;

verus! {

#[verifier::external_type_specification]
#[verifier::external_body]
pub struct ExNonMaxU32(NonMaxU32);

/// `nonmax::NonMaxU32::new`: the source builds a value for every `u32` but
/// `u32::MAX` and returns `None` for that one.
#[verifier::external_body]
fn nonmax_u32(value: u32) -> (r: Option<NonMaxU32>)
    ensures
        r is Some <==> value != u32::MAX,
{
    NonMaxU32::new(value)
}

/// Why a track action was refused before it reached the track.
#[derive(Debug, Clone, Copy, PartialEq, Eq, Structural)]
pub enum TrackError {
    TrackNotFound,
    MissingSeekPosition,
    MissingLoopTimes,
    LoopTimesOutOfRange,
    LoopTimesRejected,
}

impl TrackError {
    pub open spec fn spec_message(self) -> Seq<char> {
        match self {
            TrackError::TrackNotFound => "Track not found"@,
            TrackError::MissingSeekPosition => "Failed to get seek position"@,
            TrackError::MissingLoopTimes => "Failed to get Loop Times"@,
            TrackError::LoopTimesOutOfRange => "Loop Times exceeds supported range"@,
            TrackError::LoopTimesRejected => "Loop Times must be greater than zero"@,
        }
    }

    /// The text of the error, as it is reported.
    pub fn message(&self) -> (m: String)
        ensures
            m@ == self.spec_message(),
    {
        match self {
            TrackError::TrackNotFound => String::from_str("Track not found"),
            TrackError::MissingSeekPosition => String::from_str("Failed to get seek position"),
            TrackError::MissingLoopTimes => String::from_str("Failed to get Loop Times"),
            TrackError::LoopTimesOutOfRange => String::from_str("Loop Times exceeds supported range"),
            TrackError::LoopTimesRejected => String::from_str("Loop Times must be greater than zero"),
        }
    }
}

/// An action on the current track, with the arguments that came with it.
#[derive(Debug)]
pub enum TrackRequest {
    Pause,
    Resume,
    /// Seek to a position in milliseconds.
    Seek { position: Option<u64> },
    LoopXTimes { times: Option<usize> },
    LoopIndefinitely,
    ForceStopLoop,
}

/// What is done to the track once the request has been checked.
#[derive(Debug)]
pub enum TrackCommand {
    Pause,
    Play,
    /// Seek to this many milliseconds.
    Seek { millis: u64 },
    /// Loop this many times (never `u32::MAX`, so the driver's `NonMaxU32`
    /// holds it).
    LoopFor { times: u32 },
    EnableLoop,
    DisableLoop,
}

pub enum TrackCommandView {
    Pause,
    Play,
    Seek(u64),
    LoopFor(u32),
    EnableLoop,
    DisableLoop,
}

impl View for TrackCommand {
    type V = TrackCommandView;

    open spec fn view(&self) -> TrackCommandView {
        match self {
            TrackCommand::Pause => TrackCommandView::Pause,
            TrackCommand::Play => TrackCommandView::Play,
            TrackCommand::Seek { millis } => TrackCommandView::Seek(*millis),
            TrackCommand::LoopFor { times } => TrackCommandView::LoopFor(*times),
            TrackCommand::EnableLoop => TrackCommandView::EnableLoop,
            TrackCommand::DisableLoop => TrackCommandView::DisableLoop,
        }
    }
}

pub enum TrackRequestView {
    Pause,
    Resume,
    Seek(Option<u64>),
    LoopXTimes(Option<usize>),
    LoopIndefinitely,
    ForceStopLoop,
}

impl View for TrackRequest {
    type V = TrackRequestView;

    open spec fn view(&self) -> TrackRequestView {
        match self {
            TrackRequest::Pause => TrackRequestView::Pause,
            TrackRequest::Resume => TrackRequestView::Resume,
            TrackRequest::Seek { position } => TrackRequestView::Seek(*position),
            TrackRequest::LoopXTimes { times } => TrackRequestView::LoopXTimes(*times),
            TrackRequest::LoopIndefinitely => TrackRequestView::LoopIndefinitely,
            TrackRequest::ForceStopLoop => TrackRequestView::ForceStopLoop,
        }
    }
}

/// The loop count: it must be given, fit in a `u32`, and not be `u32::MAX`
/// (the driver counts loops in a `NonMaxU32`).
pub open spec fn spec_loop_count(times: Option<usize>) -> Result<u32, TrackError> {
    match times {
        None => Err(TrackError::MissingLoopTimes),
        Some(t) => if t > u32::MAX {
            Err(TrackError::LoopTimesOutOfRange)
        } else if t == u32::MAX {
            Err(TrackError::LoopTimesRejected)
        } else {
            Ok(t as u32)
        },
    }
}

/// The command for a request: refused when there is no track, then when an
/// argument the action needs is missing or out of range.
pub open spec fn spec_plan(track_present: bool, request: TrackRequestView) -> Result<
    TrackCommandView,
    TrackError,
> {
    if !track_present {
        Err(TrackError::TrackNotFound)
    } else {
        match request {
            TrackRequestView::Pause => Ok(TrackCommandView::Pause),
            TrackRequestView::Resume => Ok(TrackCommandView::Play),
            TrackRequestView::Seek(position) => match position {
                Some(p) => Ok(TrackCommandView::Seek(p)),
                None => Err(TrackError::MissingSeekPosition),
            },
            TrackRequestView::LoopXTimes(times) => match spec_loop_count(times) {
                Ok(t) => Ok(TrackCommandView::LoopFor(t)),
                Err(e) => Err(e),
            },
            TrackRequestView::LoopIndefinitely => Ok(TrackCommandView::EnableLoop),
            TrackRequestView::ForceStopLoop => Ok(TrackCommandView::DisableLoop),
        }
    }
}

/// Checks a loop count: the driver must be able to hold it in a `NonMaxU32`.
pub fn loop_count(times: Option<usize>) -> (r: Result<u32, TrackError>)
    ensures
        r == spec_loop_count(times),
{
    let t = match times {
        Some(t) => t,
        None => return Err(TrackError::MissingLoopTimes),
    };
    if t > (u32::MAX as usize) {
        return Err(TrackError::LoopTimesOutOfRange);
    }
    let t32 = t as u32;
    match nonmax_u32(t32) {
        Some(_) => Ok(t32),
        None => Err(TrackError::LoopTimesRejected),
    }
}

/// Checks a track action before it is carried out: without a track every
/// action is refused with "Track not found"; a seek needs a position and a
/// counted loop needs a count that fits (see `spec_loop_count`).
pub fn plan_track_command(track_present: bool, request: TrackRequest) -> (r: Result<
    TrackCommand,
    TrackError,
>)
    ensures
        match (r, spec_plan(track_present, request@)) {
            (Ok(c), Ok(s)) => c@ == s,
            (Err(e), Err(s)) => e == s,
            _ => false,
        },
{
    if !track_present {
        return Err(TrackError::TrackNotFound);
    }
    match request {
        TrackRequest::Pause => Ok(TrackCommand::Pause),
        TrackRequest::Resume => Ok(TrackCommand::Play),
        TrackRequest::Seek { position } => match position {
            Some(p) => Ok(TrackCommand::Seek { millis: p }),
            None => Err(TrackError::MissingSeekPosition),
        },
        TrackRequest::LoopXTimes { times } => match loop_count(times) {
            Ok(t) => Ok(TrackCommand::LoopFor { times: t }),
            Err(e) => Err(e),
        },
        TrackRequest::LoopIndefinitely => Ok(TrackCommand::EnableLoop),
        TrackRequest::ForceStopLoop => Ok(TrackCommand::DisableLoop),
    }
}

/// Without a track every request is refused with "Track not found"; with a
/// track, pausing, resuming and switching looping on or off always go
/// through, and a seek to any given position is accepted with that position.
pub proof fn lemma_track_requests(request: TrackRequestView, position: u64)
    ensures
        spec_plan(false, request) == Err::<TrackCommandView, TrackError>(TrackError::TrackNotFound),
        spec_plan(true, TrackRequestView::Seek(Some(position))) == Ok::<TrackCommandView, TrackError>(
            TrackCommandView::Seek(position),
        ),
        spec_plan(true, TrackRequestView::Seek(None)) == Err::<TrackCommandView, TrackError>(
            TrackError::MissingSeekPosition,
        ),
        spec_plan(true, TrackRequestView::Pause) == Ok::<TrackCommandView, TrackError>(
            TrackCommandView::Pause,
        ),
        spec_plan(true, TrackRequestView::Resume) == Ok::<TrackCommandView, TrackError>(
            TrackCommandView::Play,
        ),
        spec_plan(true, TrackRequestView::LoopIndefinitely) == Ok::<TrackCommandView, TrackError>(
            TrackCommandView::EnableLoop,
        ),
        spec_plan(true, TrackRequestView::ForceStopLoop) == Ok::<TrackCommandView, TrackError>(
            TrackCommandView::DisableLoop,
        ),
{
}

/// With a track, a loop count is accepted exactly when it is given and below
/// `u32::MAX`, and the loop runs that many times.
pub proof fn lemma_loop_requests(times: usize)
    ensures
        times < u32::MAX ==> spec_plan(true, TrackRequestView::LoopXTimes(Some(times)))
            == Ok::<TrackCommandView, TrackError>(TrackCommandView::LoopFor(times as u32)),
        times >= u32::MAX ==> spec_plan(true, TrackRequestView::LoopXTimes(Some(times))) is Err,
        spec_plan(true, TrackRequestView::LoopXTimes(None)) is Err,
{
}

} // verus!
