use vstd::prelude::*;

use crate::error::{FastTextError, ProtocolViolation};

verus! {

/// The native reply to a buffer-returning call, with its error text already
/// copied out: whether the payload pointer was null, and the element count
/// that the native side wrote.
#[derive(Debug)]
pub struct BufferReply {
    pub error: Option<String>,
    pub null_payload: bool,
    pub count: usize,
}

/// What the caller must do next for a buffer-returning call.
#[derive(Debug, Clone, Copy, PartialEq, Eq, Structural)]
pub enum BufferAction {
    /// Make the native call and report its reply.
    Invoke,
    /// Copy this many elements out of the native buffer, in order, and report
    /// the copies.
    Copy(usize),
    /// Hand the native buffer to its free function with this count.
    Free(usize),
    /// The call is over: take its result.
    Finish,
}

/// One buffer-returning call, from the native invocation to its result.
///
/// A buffer is copied before it is freed, freed once with the count the
/// native side reported, and never freed where the native side reported an
/// error or gave no buffer.
#[derive(Debug)]
pub enum BufferCall<R> {
    AwaitingReply,
    Copying(usize),
    Freeing(usize, Vec<R>),
    Done(Result<Vec<R>, FastTextError>),
}

/// The state of a buffer-returning call.
pub enum BufferPhase<R> {
    AwaitingReply,
    Copying(usize),
    Freeing(usize, Seq<R>),
    Done(Result<Seq<R>, FastTextError>),
}

/// What the caller reports for a buffer-returning call.
pub enum BufferEvent<R> {
    Replied(BufferReply),
    Copied(Seq<R>),
    Freed,
}

impl<R> View for BufferCall<R> {
    type V = BufferPhase<R>;

    open spec fn view(&self) -> BufferPhase<R> {
        match self {
            BufferCall::AwaitingReply => BufferPhase::AwaitingReply,
            BufferCall::Copying(n) => BufferPhase::Copying(*n),
            BufferCall::Freeing(n, v) => BufferPhase::Freeing(*n, v@),
            BufferCall::Done(r) => BufferPhase::Done(
                match r {
                    Ok(v) => Ok(v@),
                    Err(e) => Err(*e),
                },
            ),
        }
    }
}

/// The outcome of a reply: an error, an empty result, or `None` where a buffer
/// of `count` elements must be copied.
pub open spec fn reply_outcome<R>(r: BufferReply) -> Option<Result<Seq<R>, FastTextError>> {
    match r.error {
        Some(m) => Some(Err(FastTextError::Native(m))),
        None => if !r.null_payload {
            None
        } else if r.count == 0 {
            Some(Ok(Seq::empty()))
        } else {
            Some(Err(FastTextError::Protocol(ProtocolViolation::NullBufferWithCount(r.count))))
        },
    }
}

/// Whether `e` is the event that a call in phase `s` waits for.
pub open spec fn fits<R>(s: BufferPhase<R>, e: BufferEvent<R>) -> bool {
    match (s, e) {
        (BufferPhase::AwaitingReply, BufferEvent::Replied(_)) => true,
        (BufferPhase::Copying(n), BufferEvent::Copied(v)) => v.len() == n,
        (BufferPhase::Freeing(_, _), BufferEvent::Freed) => true,
        _ => false,
    }
}

/// The phase that follows `s` on event `e`.
pub open spec fn step<R>(s: BufferPhase<R>, e: BufferEvent<R>) -> BufferPhase<R> {
    match (s, e) {
        (BufferPhase::AwaitingReply, BufferEvent::Replied(r)) => match reply_outcome::<R>(r) {
            Some(out) => BufferPhase::Done(out),
            None => BufferPhase::Copying(r.count),
        },
        (BufferPhase::Copying(n), BufferEvent::Copied(v)) => BufferPhase::Freeing(n, v),
        (BufferPhase::Freeing(_, v), BufferEvent::Freed) => BufferPhase::Done(Ok(v)),
        _ => s,
    }
}

/// The action that phase `s` asks of the caller.
pub open spec fn action<R>(s: BufferPhase<R>) -> BufferAction {
    match s {
        BufferPhase::AwaitingReply => BufferAction::Invoke,
        BufferPhase::Copying(n) => BufferAction::Copy(n),
        BufferPhase::Freeing(n, _) => BufferAction::Free(n),
        BufferPhase::Done(_) => BufferAction::Finish,
    }
}

/// Whether every event of `es` fits the phase it arrives in, starting at `s`.
pub open spec fn admitted<R>(s: BufferPhase<R>, es: Seq<BufferEvent<R>>) -> bool
    decreases es.len(),
{
    es.len() == 0 || (fits(s, es[0]) && admitted(step(s, es[0]), es.drop_first()))
}

/// The phase reached from `s` after the events `es`.
pub open spec fn run<R>(s: BufferPhase<R>, es: Seq<BufferEvent<R>>) -> BufferPhase<R>
    decreases es.len(),
{
    if es.len() == 0 {
        s
    } else {
        run(step(s, es[0]), es.drop_first())
    }
}

/// The actions asked of the caller from `s` on, one after each event of `es`.
pub open spec fn actions<R>(s: BufferPhase<R>, es: Seq<BufferEvent<R>>) -> Seq<BufferAction>
    decreases es.len(),
{
    if es.len() == 0 {
        Seq::empty()
    } else {
        seq![action(step(s, es[0]))] + actions(step(s, es[0]), es.drop_first())
    }
}

/// How many of `acts` free a native buffer.
pub open spec fn frees(acts: Seq<BufferAction>) -> nat
    decreases acts.len(),
{
    if acts.len() == 0 {
        0
    } else {
        (if acts[0] is Free { 1nat } else { 0nat }) + frees(acts.drop_first())
    }
}

/// Whether a reply hands a buffer over to the caller.
pub open spec fn hands_over(r: BufferReply) -> bool {
    r.error is None && !r.null_payload
}

/// From a finished phase, no event is admitted.
proof fn lemma_done_admits_nothing<R>(s: BufferPhase<R>, es: Seq<BufferEvent<R>>)
    requires
        s is Done,
        admitted(s, es),
    ensures
        es.len() == 0,
        run(s, es) == s,
        actions(s, es).len() == 0,
{
}

/// Ownership of a native buffer, over every sequence of events that a call
/// admits until it is finished: the records returned are as many as the
/// native side reported; the buffer is freed exactly once, with that count,
/// where the reply handed one over and never otherwise; and no copy is asked
/// for after the free.
pub proof fn lemma_buffer_ownership<R>(es: Seq<BufferEvent<R>>)
    requires
        admitted(BufferPhase::<R>::AwaitingReply, es),
        run(BufferPhase::<R>::AwaitingReply, es) is Done,
    ensures
        es.len() > 0,
        es[0] is Replied,
        ({
            let reply = es[0]->Replied_0;
            let acts = actions(BufferPhase::<R>::AwaitingReply, es);
            let out = run(BufferPhase::<R>::AwaitingReply, es)->Done_0;
            &&& frees(acts) == (if hands_over(reply) { 1nat } else { 0nat })
            &&& forall|i: int| 0 <= i < acts.len() && #[trigger] acts[i] is Free
                ==> acts[i]->Free_0 == reply.count
            &&& forall|i: int, j: int|
                0 <= i < j < acts.len() && #[trigger] acts[i] is Free ==> !(#[trigger] acts[j] is Copy)
            &&& out is Ok ==> out->Ok_0.len() == reply.count
        }),
{
    let s0 = BufferPhase::<R>::AwaitingReply;
    assert(es.len() > 0);
    let reply = es[0]->Replied_0;
    let s1 = step(s0, es[0]);
    let r1 = es.drop_first();
    match reply_outcome::<R>(reply) {
        Some(out) => {
            lemma_done_admits_nothing(s1, r1);
            assert(actions(s0, es) =~= seq![BufferAction::Finish]);
            assert(frees(seq![BufferAction::Finish]) == 0) by {
                assert(seq![BufferAction::Finish].drop_first() =~= Seq::<BufferAction>::empty());
                assert(frees(Seq::<BufferAction>::empty()) == 0);
            }
        },
        None => {
            assert(s1 == BufferPhase::<R>::Copying(reply.count));
            assert(admitted(s1, r1));
            assert(r1.len() > 0);
            assert(fits(s1, r1[0]));
            let s2 = step(s1, r1[0]);
            let r2 = r1.drop_first();
            assert(run(s0, es) == run(s1, r1));
            assert(run(s1, r1) == run(s2, r2));
            assert(s2 is Freeing);
            assert(admitted(s2, r2));
            assert(r2.len() > 0);
            let s3 = step(s2, r2[0]);
            let r3 = r2.drop_first();
            assert(fits(s2, r2[0]));
            assert(admitted(s3, r3));
            assert(run(s2, r2) == run(s3, r3));
            lemma_done_admits_nothing(s3, r3);
            let acts = seq![
                BufferAction::Copy(reply.count),
                BufferAction::Free(reply.count),
                BufferAction::Finish
            ];
            assert(actions(s2, r2) =~= seq![BufferAction::Finish]);
            assert(actions(s1, r1) =~= acts.drop_first());
            assert(actions(s0, es) =~= acts);
            assert(frees(acts) == 1) by {
                let t1 = acts.drop_first();
                let t2 = t1.drop_first();
                let t3 = t2.drop_first();
                assert(t3 =~= Seq::<BufferAction>::empty());
                assert(frees(t3) == 0);
                assert(frees(t2) == 0);
                assert(frees(t1) == 1);
            }
        },
    }
}

impl<R> BufferCall<R> {
    /// A call whose native invocation is still to be made.
    pub fn new() -> (c: BufferCall<R>)
        ensures
            c@ == BufferPhase::<R>::AwaitingReply,
    {
        BufferCall::AwaitingReply
    }

    /// What the caller must do next.
    pub fn next_action(&self) -> (a: BufferAction)
        ensures
            a == action(self@),
    {
        match self {
            BufferCall::AwaitingReply => BufferAction::Invoke,
            BufferCall::Copying(n) => BufferAction::Copy(*n),
            BufferCall::Freeing(n, _) => BufferAction::Free(*n),
            BufferCall::Done(_) => BufferAction::Finish,
        }
    }

    /// Takes the native reply, after it has passed through no other hands:
    /// an error or a null payload ends the call without a buffer to free.
    pub fn on_reply(&mut self, reply: BufferReply)
        requires
            old(self)@ is AwaitingReply,
        ensures
            final(self)@ == step(old(self)@, BufferEvent::Replied(reply)),
    {
        let count = reply.count;
        let null_payload = reply.null_payload;
        *self = match reply.error {
            Some(m) => BufferCall::Done(Err(FastTextError::Native(m))),
            None => if !null_payload {
                BufferCall::Copying(count)
            } else if count == 0 {
                BufferCall::Done(Ok(Vec::new()))
            } else {
                BufferCall::Done(
                    Err(FastTextError::Protocol(ProtocolViolation::NullBufferWithCount(count))),
                )
            },
        };
        proof {
            if self@ is Done {
                if let BufferPhase::Done(Ok(v)) = self@ {
                    assert(v =~= Seq::<R>::empty());
                }
            }
        }
    }

    /// Takes the copies of every element of the native buffer, in order.
    pub fn on_copied(&mut self, copies: Vec<R>)
        requires
            fits(old(self)@, BufferEvent::Copied(copies@)),
        ensures
            final(self)@ == step(old(self)@, BufferEvent::Copied(copies@)),
    {
        let n = match self {
            BufferCall::Copying(n) => *n,
            _ => 0,
        };
        *self = BufferCall::Freeing(n, copies);
    }

    /// Records that the native buffer has been freed.
    pub fn on_freed(&mut self)
        requires
            old(self)@ is Freeing,
        ensures
            final(self)@ == step(old(self)@, BufferEvent::<R>::Freed),
    {
        let mut old_call = BufferCall::AwaitingReply;
        core::mem::swap(self, &mut old_call);
        *self = match old_call {
            BufferCall::Freeing(_, v) => BufferCall::Done(Ok(v)),
            other => other,
        };
    }

    /// The result of a finished call.
    pub fn into_result(self) -> (r: Result<Vec<R>, FastTextError>)
        requires
            self@ is Done,
        ensures
            self@ == BufferPhase::Done(
                match r {
                    Ok(v) => Ok(v@),
                    Err(e) => Err(e),
                },
            ),
    {
        match self {
            BufferCall::Done(r) => r,
            _ => Ok(Vec::new()),
        }
    }
}

} // verus!
