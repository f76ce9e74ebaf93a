//! What holds of the driver on every script of replies.

use vstd::prelude::*;

use crate::driver::{Driver, Interest, Op, Phase, Reply, Request};
use crate::error::{drained, message_of, ErrorStack, QueueEntry, SslError};
use crate::sys::{
    Call, Convention, SSL_ERROR_WANT_READ, SSL_ERROR_WANT_WRITE, SSL_ERROR_ZERO_RETURN,
};

verus! {

/// One round of waiting: the primitive returns `ret`, the foreign library classifies
/// that as a retry signal for `interest`, and the transport becomes ready.
pub struct Want {
    pub ret: i64,
    pub interest: Interest,
}

/// The code by which the foreign library signals a retry for `interest`.
pub open spec fn want_code(interest: Interest) -> i32 {
    match interest {
        Interest::Readable => SSL_ERROR_WANT_READ,
        Interest::Writable => SSL_ERROR_WANT_WRITE,
    }
}

/// The replies of a front end that meets the rounds `wants`, in order.
pub open spec fn want_replies(wants: Seq<Want>) -> Seq<Reply>
    decreases wants.len(),
{
    if wants.len() == 0 {
        Seq::empty()
    } else {
        want_replies(wants.drop_last()).push(Reply::Returned(wants.last().ret)).push(
            Reply::ErrorCode(want_code(wants.last().interest)),
        ).push(Reply::Ready)
    }
}

/// What the driver asks for over the rounds `wants`: for each round the
/// classification of the result, one wait in the direction of the round, and the same
/// call on the same object again.
pub open spec fn want_requests(target: usize, call: Call, wants: Seq<Want>) -> Seq<Request>
    decreases wants.len(),
{
    if wants.len() == 0 {
        Seq::empty()
    } else {
        want_requests(target, call, wants.drop_last()).push(
            Request::GetError { target, ret: wants.last().ret },
        ).push(Request::Wait(wants.last().interest)).push(Request::Invoke { target, call })
    }
}

/// Whether `op` consists of one call that is retried on a signal of the foreign
/// library: a handshake, a shutdown, or a transfer of at least one byte.
pub open spec fn retried(op: Op) -> bool {
    match op {
        Op::Connect => true,
        Op::Accept => true,
        Op::Shutdown => true,
        Op::Read { len } => len > 0,
        Op::Write { len } => len > 0,
        _ => false,
    }
}

/// Whether the result `ret` of `call` is one that has to be classified.
pub open spec fn unfinished(call: Call, ret: i64) -> bool {
    match call.convention() {
        Convention::Handshake => ret != 1,
        Convention::Transfer => ret <= 0,
        Convention::Shutdown => ret != 1 && ret != 0,
        _ => false,
    }
}

/// Whether the result `ret` of `call` is its completion.
pub open spec fn completes(call: Call, ret: i64) -> bool {
    match call.convention() {
        Convention::Handshake => ret == 1,
        Convention::Transfer => 0 < ret <= call.limit(),
        Convention::Shutdown => ret == 1,
        _ => false,
    }
}

/// The result of an operation whose one call completed with `ret`: the byte count of
/// a transfer, zero otherwise.
pub open spec fn outcome(call: Call, ret: i64) -> usize {
    if call.convention() is Transfer {
        ret as usize
    } else {
        0
    }
}

/// How many of `requests` ask for a call that frees a foreign object.
pub open spec fn frees(requests: Seq<Request>) -> nat
    decreases requests.len(),
{
    if requests.len() == 0 {
        0
    } else {
        frees(requests.drop_last()) + if requests.last() matches Request::Invoke { call, .. }
            && call.frees() {
            1nat
        } else {
            0nat
        }
    }
}

proof fn lemma_run_push(d: Driver, replies: Seq<Reply>, reply: Reply)
    ensures
        d.run(replies.push(reply)) == (
            d.run(replies).0.step(reply).0,
            d.run(replies).1.push(d.run(replies).0.step(reply).1),
        ),
{
    assert(replies.push(reply).drop_last() =~= replies);
}

proof fn lemma_waits(handle: usize, op: Op, wants: Seq<Want>)
    requires
        handle != 0,
        retried(op),
        forall|i: int| 0 <= i < wants.len() ==> unfinished(op.plan()[0], #[trigger] wants[i].ret),
    ensures
        Driver::begin(handle, op).0.run(want_replies(wants)) == (
            Driver::begin(handle, op).0,
            want_requests(handle, op.plan()[0], wants),
        ),
        Driver::begin(handle, op) == (
            Driver { op, index: 0, phase: Phase::Invoking, value: 0, handle, diagnostics: None },
            Request::Invoke { target: handle, call: op.plan()[0] },
        ),
    decreases wants.len(),
{
    let start = Driver::begin(handle, op).0;
    if wants.len() > 0 {
        let want = wants.last();
        let earlier = wants.drop_last();
        lemma_waits(handle, op, earlier);
        let r0 = want_replies(earlier);
        let r1 = r0.push(Reply::Returned(want.ret));
        let r2 = r1.push(Reply::ErrorCode(want_code(want.interest)));
        lemma_run_push(start, r0, Reply::Returned(want.ret));
        lemma_run_push(start, r1, Reply::ErrorCode(want_code(want.interest)));
        lemma_run_push(start, r2, Reply::Ready);
    }
}

/// A call that signals a retry any number of times and then completes: the operation
/// waits exactly once for each signal, in the direction that the signal names, invokes
/// the same primitive again after each wait, and ends with the result of the
/// completion.
pub proof fn law_waits_then_succeeds(handle: usize, op: Op, wants: Seq<Want>, last: i64)
    requires
        handle != 0,
        retried(op),
        forall|i: int| 0 <= i < wants.len() ==> unfinished(op.plan()[0], #[trigger] wants[i].ret),
        completes(op.plan()[0], last),
    ensures
        Driver::begin(handle, op).1 == (Request::Invoke { target: handle, call: op.plan()[0] }),
        Driver::begin(handle, op).0.run(want_replies(wants).push(Reply::Returned(last))) == (
            Driver { op, index: 1, phase: Phase::Idle, value: outcome(op.plan()[0], last), handle, diagnostics: None },
            want_requests(handle, op.plan()[0], wants).push(
                Request::Done(Ok(outcome(op.plan()[0], last))),
            ),
        ),
{
    let start = Driver::begin(handle, op).0;
    lemma_waits(handle, op, wants);
    lemma_run_push(start, want_replies(wants), Reply::Returned(last));
}

/// A shutdown that is "in progress" any number of times and then complete: the
/// primitive is invoked again each time, with no wait and no classification in
/// between, and the shutdown ends without an error.
pub proof fn law_shutdown_converges(handle: usize, retries: nat)
    requires
        handle != 0,
    ensures
        Driver::begin(handle, Op::Shutdown).1 == (
            Request::Invoke { target: handle, call: Call::Shutdown }
        ),
        Driver::begin(handle, Op::Shutdown).0.run(
            Seq::new(retries, |i: int| Reply::Returned(0)).push(Reply::Returned(1)),
        ) == (
            Driver { op: Op::Shutdown, index: 1, phase: Phase::Idle, value: 0, handle, diagnostics: None },
            Seq::new(retries, |i: int| Request::Invoke { target: handle, call: Call::Shutdown }).push(
                Request::Done(Ok(0)),
            ),
        ),
{
    let start = Driver::begin(handle, Op::Shutdown).0;
    lemma_in_progress(handle, retries);
    lemma_run_push(start, Seq::new(retries, |i: int| Reply::Returned(0)), Reply::Returned(1));
}

proof fn lemma_in_progress(handle: usize, retries: nat)
    requires
        handle != 0,
    ensures
        Driver::begin(handle, Op::Shutdown) == (
            Driver { op: Op::Shutdown, index: 0, phase: Phase::Invoking, value: 0, handle, diagnostics: None },
            Request::Invoke { target: handle, call: Call::Shutdown },
        ),
        Driver::begin(handle, Op::Shutdown).0.run(Seq::new(retries, |i: int| Reply::Returned(0)))
            == (
            Driver::begin(handle, Op::Shutdown).0,
            Seq::new(retries, |i: int| Request::Invoke { target: handle, call: Call::Shutdown }),
        ),
    decreases retries,
{
    let start = Driver::begin(handle, Op::Shutdown).0;
    let replies = Seq::new(retries, |i: int| Reply::Returned(0));
    if retries > 0 {
        let fewer = (retries - 1) as nat;
        lemma_in_progress(handle, fewer);
        let shorter = Seq::new(fewer, |i: int| Reply::Returned(0));
        assert(replies =~= shorter.push(Reply::Returned(0)));
        lemma_run_push(start, shorter, Reply::Returned(0));
    }
}

/// Whether `op` releases a foreign object: gracefully, as a connection is released
/// that is used on its own thread, or at once.
pub open spec fn releases(op: Op) -> bool {
    op is Close || op is Free || op is CtxFree
}

/// The state of a release, and the number of frees asked for so far.
spec fn releasing(d: Driver, op: Op, handle: usize, freed: nat) -> bool {
    &&& d.op == op
    &&& !(d.phase is Abandoning)
    &&& if d.phase is Idle {
        d.handle == 0 && freed == 1
    } else if op is Close && d.index == 0 {
        d.handle == handle && freed == 0
    } else {
        &&& d.index == if op is Close { 1int } else { 0int }
        &&& d.phase is Invoking
        &&& d.handle == 0
        &&& freed == 1
    }
}

proof fn lemma_release_step(d: Driver, op: Op, handle: usize, freed: nat, reply: Reply)
    requires
        handle != 0,
        releases(op),
        releasing(d, op, handle, freed),
    ensures
        releasing(d.step(reply).0, op, handle, freed + frees(seq![d.step(reply).1])),
{
    let request = d.step(reply).1;
    assert(frees(seq![request].drop_last()) == 0);
    assert(op.call_at(0) == Some(op.plan()[0]));
}

proof fn lemma_frees_push(requests: Seq<Request>, request: Request)
    ensures
        frees(requests.push(request)) == frees(requests) + frees(seq![request]),
{
    assert(requests.push(request).drop_last() =~= requests);
    assert(frees(seq![request].drop_last()) == 0);
}

proof fn lemma_release_run(op: Op, handle: usize, replies: Seq<Reply>)
    requires
        handle != 0,
        releases(op),
    ensures
        releasing(
            Driver::begin(handle, op).0.run(replies).0,
            op,
            handle,
            frees(seq![Driver::begin(handle, op).1] + Driver::begin(handle, op).0.run(replies).1),
        ),
    decreases replies.len(),
{
    let (start, first) = Driver::begin(handle, op);
    assert(frees(seq![first].drop_last()) == 0);
    assert(op.call_at(0) == Some(op.plan()[0]));
    if replies.len() > 0 {
        let earlier = replies.drop_last();
        lemma_release_run(op, handle, earlier);
        let (before, requests) = start.run(earlier);
        let request = before.step(replies.last()).1;
        lemma_release_step(before, op, handle, frees(seq![first] + requests), replies.last());
        lemma_frees_push(seq![first] + requests, request);
    }
}

/// A release asks for the free of the foreign object exactly once, whatever the
/// foreign library answers on the way: never twice, and once by the time the release
/// is over. For the graceful release of a connection that holds also where the
/// shutdown before the free failed. The address is given up with the request for the
/// free, so that nothing can be asked of the object afterwards.
pub proof fn law_release_frees_once(op: Op, handle: usize, replies: Seq<Reply>)
    requires
        handle != 0,
        releases(op),
    ensures
        ({
            let (start, first) = Driver::begin(handle, op);
            let (end, requests) = start.run(replies);
            &&& frees(seq![first] + requests) <= 1
            &&& end.phase is Idle ==> frees(seq![first] + requests) == 1
            &&& frees(seq![first] + requests) == 1 <==> end.handle == 0
        }),
{
    lemma_release_run(op, handle, replies);
}

/// After its release an object takes no operation but the creation of a new one:
/// whatever else is started ends at once with an error and asks for no foreign call.
pub proof fn law_nothing_follows_a_release(op: Op)
    requires
        op.plan().len() > 0,
        !(op.undo() is Some),
    ensures
        Driver::begin(0, op).1 == Request::Done(Err(SslError::Other)),
        Driver::begin(0, op).0.phase is Idle,
{
}

/// How many of `requests` report the success of an operation.
pub open spec fn successes(requests: Seq<Request>) -> nat
    decreases requests.len(),
{
    if requests.len() == 0 {
        0
    } else {
        successes(requests.drop_last()) + if requests.last() matches Request::Done(Ok(_)) {
            1nat
        } else {
            0nat
        }
    }
}

/// The state of a creation, after the requests so far.
spec fn creating(d: Driver, op: Op, requests: Seq<Request>) -> bool {
    &&& d.op == op
    &&& frees(requests) + successes(requests) <= 1
    &&& match d.phase {
        Phase::Idle => successes(requests) == 1 <==> d.handle != 0,
        Phase::Abandoning => d.handle == 0 && frees(requests) == 1,
        Phase::Invoking => frees(requests) + successes(requests) == 0 && (d.index == 0
            <==> d.handle == 0),
        Phase::Draining => frees(requests) + successes(requests) == 0,
        _ => false,
    }
}

proof fn lemma_creation_run(op: Op, replies: Seq<Reply>)
    requires
        op.undo() is Some,
        op.ready(0),
    ensures
        creating(Driver::begin(0, op).0.run(replies).0, op, Driver::begin(0, op).0.run(replies).1),
    decreases replies.len(),
{
    let start = Driver::begin(0, op).0;
    if replies.len() > 0 {
        lemma_creation_run(op, replies.drop_last());
        let (before, requests) = start.run(replies.drop_last());
        let request = before.step(replies.last()).1;
        assert(requests.push(request).drop_last() =~= requests);
    }
}

/// A creation leaves a usable object or none. Whatever the foreign library answers,
/// once the creation is over the object exists exactly if the creation has succeeded;
/// an object that was allocated before a later step failed has been freed, once.
pub proof fn law_creation_is_all_or_nothing(op: Op, replies: Seq<Reply>)
    requires
        op.undo() is Some,
        op.ready(0),
    ensures
        ({
            let (end, requests) = Driver::begin(0, op).0.run(replies);
            &&& frees(requests) + successes(requests) <= 1
            &&& end.phase is Idle ==> (successes(requests) == 1 <==> end.handle != 0)
            &&& frees(requests) == 1 ==> end.handle == 0
        }),
{
    lemma_creation_run(op, replies);
}

/// The release of a connection under a scheduler asks for the free at once: no
/// shutdown is attempted.
pub proof fn law_async_release_skips_shutdown(handle: usize)
    requires
        handle != 0,
    ensures
        Driver::begin(handle, Op::Free) == (
            Driver { op: Op::Free, index: 0, phase: Phase::Invoking, value: 0, handle: 0, diagnostics: None },
            Request::Invoke { target: handle, call: Call::Free },
        ),
{
}

/// An orderly close by the peer ends a read with no byte and no error, and ends a
/// write with the error.
pub proof fn law_zero_return_asymmetry(handle: usize, len: usize, ret: i64)
    requires
        handle != 0,
        len > 0,
        ret <= 0,
    ensures
        Driver::begin(handle, Op::Read { len }).0.step(Reply::Returned(ret)).0.step(
            Reply::ErrorCode(SSL_ERROR_ZERO_RETURN),
        ).1 == Request::Done(Ok(0)),
        Driver::begin(handle, Op::Write { len }).0.step(Reply::Returned(ret)).0.step(
            Reply::ErrorCode(SSL_ERROR_ZERO_RETURN),
        ).1 == Request::Done(Err(SslError::ZeroReturn)),
{
}

/// A transfer of no bytes is over at once with a count of zero, on any object and in
/// any state, and asks for no foreign call.
pub proof fn law_empty_transfer_is_immediate(handle: usize)
    ensures
        Driver::begin(handle, Op::Read { len: 0 }).1 == Request::Done(Ok(0)),
        Driver::begin(handle, Op::Write { len: 0 }).1 == Request::Done(Ok(0)),
        Driver::begin(handle, Op::Read { len: 0 }).0.phase is Idle,
        Driver::begin(handle, Op::Write { len: 0 }).0.phase is Idle,
{
}

/// The driver asks for a wait exactly where the failure of a call has been classified
/// as a retry signal, and then in the direction that the signal names.
pub proof fn law_waits_only_on_signals(d: Driver, reply: Reply, interest: Interest)
    ensures
        d.step(reply).1 == Request::Wait(interest) <==> d.phase is Classifying && reply
            == Reply::ErrorCode(want_code(interest)),
{
}

/// An operation that is over stays over: the request that ends it leaves nothing in
/// flight, and with nothing in flight no reply makes the driver ask for anything.
pub proof fn law_done_is_final(d: Driver, reply: Reply)
    ensures
        d.step(reply).1 is Done ==> d.step(reply).0.phase is Idle,
        d.phase is Idle ==> d.step(reply) == (d, Request::Done(Err(SslError::Other))),
{
}

/// Loading a certificate chain takes all three steps in order and succeeds only if
/// each of them does. The first step that the foreign library rejects is the last
/// call made: the diagnostics are drained and become the error.
pub proof fn law_certificate_chain_needs_every_step(
    handle: usize,
    certificate: String,
    key: String,
    a: i64,
    b: i64,
    c: i64,
    stack: ErrorStack,
)
    requires
        handle != 0,
    ensures
        ({
            let op = Op::CtxLoadCertificateChain { certificate, key };
            let (start, first) = Driver::begin(handle, op);
            let load_key = Request::Invoke { target: handle, call: op.plan()[1] };
            let check = Request::Invoke { target: handle, call: Call::CtxCheckPrivateKey };
            let failure = Request::Done(Err(SslError::Ssl(stack)));
            &&& first == Request::Invoke { target: handle, call: op.plan()[0] }
            &&& a != 0 && b != 0 && c != 0 ==> start.run(
                seq![Reply::Returned(a), Reply::Returned(b), Reply::Returned(c)],
            ).1 == seq![load_key, check, Request::Done(Ok(0))]
            &&& a == 0 ==> start.run(seq![Reply::Returned(a), Reply::Errors(stack)]).1
                == seq![Request::DrainErrors, failure]
            &&& a != 0 && b == 0 ==> start.run(
                seq![Reply::Returned(a), Reply::Returned(b), Reply::Errors(stack)],
            ).1 == seq![load_key, Request::DrainErrors, failure]
            &&& a != 0 && b != 0 && c == 0 ==> start.run(
                seq![
                    Reply::Returned(a),
                    Reply::Returned(b),
                    Reply::Returned(c),
                    Reply::Errors(stack),
                ],
            ).1 == seq![load_key, check, Request::DrainErrors, failure]
        }),
{
    let op = Op::CtxLoadCertificateChain { certificate, key };
    let start = Driver::begin(handle, op).0;
    let ra = Reply::Returned(a);
    let rb = Reply::Returned(b);
    let rc = Reply::Returned(c);
    let re = Reply::Errors(stack);
    lemma_run_push(start, Seq::empty(), ra);
    lemma_run_push(start, seq![ra], rb);
    assert(seq![ra, rb] =~= seq![ra].push(rb));
    lemma_run_push(start, seq![ra], re);
    assert(seq![ra, re] =~= seq![ra].push(re));
    lemma_run_push(start, seq![ra, rb], rc);
    assert(seq![ra, rb, rc] =~= seq![ra, rb].push(rc));
    lemma_run_push(start, seq![ra, rb], re);
    assert(seq![ra, rb, re] =~= seq![ra, rb].push(re));
    lemma_run_push(start, seq![ra, rb, rc], re);
    assert(seq![ra, rb, rc, re] =~= seq![ra, rb, rc].push(re));
}

/// Draining only appends: one more entry popped before the queue is empty adds its
/// message at the end of the stack and changes nothing before it.
pub proof fn law_drain_appends(queue: Seq<QueueEntry>, entry: QueueEntry)
    requires
        forall|i: int| 0 <= i < queue.len() ==> (#[trigger] queue[i]).code != 0,
        entry.code != 0,
    ensures
        drained(queue.push(entry)) == drained(queue).push(message_of(entry.text@)),
    decreases queue.len(),
{
    if queue.len() == 0 {
        assert(queue.push(entry).drop_first() =~= queue);
    } else {
        let rest = queue.drop_first();
        law_drain_appends(rest, entry);
        assert(queue.push(entry).drop_first() =~= rest.push(entry));
    }
}

/// A retry signal never ends an operation: no request reports one as an error.
pub proof fn law_retry_signals_are_absorbed(d: Driver, reply: Reply)
    ensures
        d.step(reply).1 matches Request::Done(Err(err)) ==> !err.is_retry(),
{
}

} // verus!
