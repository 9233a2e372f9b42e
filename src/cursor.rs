use vstd::prelude::*;
use crate::error::UrgError;
use crate::handle::MultiScanRequest;
use crate::records::UrgPayload;

verus! {

/// What one pull from the driver's multi-scan stream gave: a frame, a driver
/// failure, or the end of the stream (`None`).
pub type Pulled = Option<Result<UrgPayload, String>>;

/// What the cursor hands to its caller for one advance: a frame, a failure,
/// or the end of the sequence (`None`).
pub type Yielded = Option<Result<UrgPayload, UrgError>>;

/// One advance of the cursor: whether it is finished afterwards, and what it
/// yields. A finished cursor yields nothing more; the end of the stream and a
/// failure both finish it.
pub open spec fn step(finished: bool, pulled: Pulled) -> (bool, Yielded) {
    if finished {
        (true, None)
    } else {
        match pulled {
            None => (true, None),
            Some(Ok(p)) => (false, Some(Ok(p))),
            Some(Err(m)) => (true, Some(Err(UrgError::Driver { message: m }))),
        }
    }
}

/// What successive advances yield, one for each pull, from the given state.
pub open spec fn run(finished: bool, pulls: Seq<Pulled>) -> Seq<Yielded>
    decreases pulls.len(),
{
    if pulls.len() == 0 {
        Seq::empty()
    } else {
        let (next, out) = step(finished, pulls[0]);
        seq![out] + run(next, pulls.subrange(1, pulls.len() as int))
    }
}

/// The pulls of a stream that delivers the given frames.
pub open spec fn pulled_frames(frames: Seq<UrgPayload>) -> Seq<Pulled> {
    Seq::new(frames.len(), |i: int| Some(Ok::<UrgPayload, String>(frames[i])))
}

/// The yields that hand out the given frames.
pub open spec fn yielded_frames(frames: Seq<UrgPayload>) -> Seq<Yielded> {
    Seq::new(frames.len(), |i: int| Some(Ok::<UrgPayload, UrgError>(frames[i])))
}

/// `n` ends of sequence.
pub open spec fn ends(n: nat) -> Seq<Yielded> {
    Seq::new(n, |i: int| None::<Result<UrgPayload, UrgError>>)
}

/// Lazy, forward-only cursor over the frames of one multi-scan request.
///
/// The driver's stream is pulled by the caller; the cursor decides what each
/// pull means. Once finished it stays finished: it cannot be restarted.
#[derive(Debug)]
pub struct UrgPayloadIterator {
    request: MultiScanRequest,
    finished: bool,
}

impl UrgPayloadIterator {
    /// The request this cursor serves.
    pub closed spec fn request_spec(&self) -> MultiScanRequest {
        self.request
    }

    /// Whether the cursor is finished.
    pub closed spec fn finished_spec(&self) -> bool {
        self.finished
    }

    /// A fresh cursor for a request the driver accepted.
    pub fn new(request: MultiScanRequest) -> (r: UrgPayloadIterator)
        ensures
            r.request_spec() == request,
            !r.finished_spec(),
    {
        UrgPayloadIterator { request, finished: false }
    }

    /// The request this cursor serves.
    pub fn request(&self) -> (r: MultiScanRequest)
        ensures
            r == self.request_spec(),
    {
        self.request
    }

    /// Whether the cursor is finished; the caller pulls from the driver only
    /// while it is not.
    pub fn is_finished(&self) -> (r: bool)
        ensures
            r == self.finished_spec(),
    {
        self.finished
    }

    /// Advances over one pull from the driver's stream.
    pub fn next(&mut self, pulled: Pulled) -> (r: Yielded)
        ensures
            (final(self).finished_spec(), r) == step(old(self).finished_spec(), pulled),
            final(self).request_spec() == old(self).request_spec(),
    {
        if self.finished {
            return None;
        }
        match pulled {
            None => {
                self.finished = true;
                None
            },
            Some(Ok(p)) => Some(Ok(p)),
            Some(Err(message)) => {
                self.finished = true;
                Some(Err(UrgError::Driver { message }))
            },
        }
    }
}

/// A finished cursor yields the end of the sequence for every further pull.
pub proof fn lemma_finished_stays_finished(pulls: Seq<Pulled>)
    ensures
        run(true, pulls) == ends(pulls.len()),
    decreases pulls.len(),
{
    if pulls.len() > 0 {
        lemma_finished_stays_finished(pulls.subrange(1, pulls.len() as int));
    }
    assert(run(true, pulls) =~= ends(pulls.len()));
}

/// A multi-scan stream of N frames, then its end, yields exactly those N
/// frames in order and then ends; whatever is pulled afterwards, nothing more
/// comes out, so the sequence cannot be walked again from the start.
pub proof fn lemma_multi_scan_yields_frames_then_ends(
    frames: Seq<UrgPayload>,
    rest: Seq<Pulled>,
)
    ensures
        run(false, pulled_frames(frames) + seq![None] + rest) == yielded_frames(frames)
            + ends(rest.len() + 1),
    decreases frames.len(),
{
    let pulls = pulled_frames(frames) + seq![None] + rest;
    if frames.len() == 0 {
        lemma_finished_stays_finished(rest);
        assert(pulls.subrange(1, pulls.len() as int) =~= rest);
        assert(run(false, pulls) =~= ends(rest.len() + 1));
    } else {
        let tail = frames.subrange(1, frames.len() as int);
        lemma_multi_scan_yields_frames_then_ends(tail, rest);
        assert(pulls.subrange(1, pulls.len() as int) =~= pulled_frames(tail) + seq![None] + rest);
        assert(run(false, pulls) =~= yielded_frames(frames) + ends(rest.len() + 1));
    }
}

} // verus!
