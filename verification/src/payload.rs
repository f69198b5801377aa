//! Payloads on their way between a socket and a data channel.
use vstd::prelude::*;

verus! {

#[verifier::external_type_specification]
#[verifier::external_body]
pub struct ExBytes(bytes::Bytes);

/// The bytes of a payload.
pub uninterp spec fn content(bytes: bytes::Bytes) -> Seq<u8>;

/// `<Bytes as From<Vec<u8>>>::from`: a payload of exactly these bytes.
#[verifier::external_body]
fn bytes_from(v: Vec<u8>) -> (bytes: bytes::Bytes)
    ensures
        content(bytes) == v@,
{
    bytes::Bytes::from(v)
}

/// `Bytes::len`: the number of bytes.
#[verifier::external_body]
fn bytes_len(bytes: &bytes::Bytes) -> (n: usize)
    ensures
        n == content(*bytes).len(),
{
    bytes.len()
}

/// `Bytes::slice` with a range that is open at its end: the bytes from `begin` on.
#[verifier::external_body]
fn bytes_from_index(bytes: &bytes::Bytes, begin: usize) -> (rest: bytes::Bytes)
    requires
        begin <= content(*bytes).len(),
    ensures
        content(rest) == content(*bytes).skip(begin as int),
{
    bytes.slice(begin..)
}

/// The payload that a read of `n` bytes leaves at the front of `buf`.
pub fn payload_of(buf: &[u8], n: usize) -> (payload: bytes::Bytes)
    requires
        n <= buf@.len(),
    ensures
        content(payload) == buf@.take(n as int),
{
    let (front, _) = buf.split_at(n);
    let mut v: Vec<u8> = Vec::new();
    v.extend_from_slice(front);
    assert(v@ =~= buf@.take(n as int));
    bytes_from(v)
}

/// A payload of which a part has been sent.
pub struct Sending {
    pub payload: bytes::Bytes,
    /// How many bytes the receiver says it has taken.
    pub sent: usize,
}

impl Sending {
    /// The receiver has taken at least as many bytes as there are.
    pub open spec fn done(self) -> bool {
        self.sent >= content(self.payload).len()
    }

    /// A payload of which nothing has been sent.
    pub fn new(payload: bytes::Bytes) -> (sending: Sending)
        ensures
            sending == (Sending { payload, sent: 0 }),
    {
        Sending { payload, sent: 0 }
    }

    /// What is left to send, if anything is.
    pub fn rest(&self) -> (rest: Option<bytes::Bytes>)
        ensures
            self.done() ==> rest is None,
            !self.done() ==> rest is Some && content(rest->Some_0) == content(self.payload).skip(
                self.sent as int,
            ),
    {
        if self.sent < bytes_len(&self.payload) {
            Some(bytes_from_index(&self.payload, self.sent))
        } else {
            None
        }
    }

    /// What is handed to the channel of a TCP connection as long as the payload is not done: the
    /// bytes behind its end, of which there are none.
    pub fn behind(&self) -> (behind: Option<bytes::Bytes>)
        ensures
            self.done() ==> behind is None,
            !self.done() ==> behind is Some && content(behind->Some_0) == Seq::<u8>::empty(),
    {
        let n: usize = bytes_len(&self.payload);
        if self.sent < n {
            let behind = bytes_from_index(&self.payload, n);
            assert(content(behind) =~= Seq::<u8>::empty());
            Some(behind)
        } else {
            None
        }
    }

    /// Whether the count stays in range when the receiver takes `n` more bytes.
    pub fn can_advance(&self, n: usize) -> (r: bool)
        ensures
            r == (self.sent + n <= usize::MAX),
    {
        self.sent <= usize::MAX - n
    }

    /// Notes that the receiver has taken `n` more bytes.
    pub fn advance(&mut self, n: usize)
        requires
            old(self).sent + n <= usize::MAX,
        ensures
            *final(self) == (Sending { sent: (old(self).sent + n) as usize, ..*old(self) }),
    {
        self.sent = self.sent + n;
    }
}

/// What a receiver gets that is offered the rest of `payload` again and again, from `sent` on,
/// and takes the given numbers of bytes.
pub open spec fn taken(payload: Seq<u8>, sent: nat, takes: Seq<nat>) -> Seq<u8>
    decreases takes.len(),
{
    if takes.len() == 0 {
        seq![]
    } else {
        payload.skip(sent as int).take(takes[0] as int) + taken(
            payload,
            sent + takes[0],
            takes.drop_first(),
        )
    }
}

/// How many bytes are taken in all.
pub open spec fn total(takes: Seq<nat>) -> nat
    decreases takes.len(),
{
    if takes.len() == 0 {
        0
    } else {
        takes[0] + total(takes.drop_first())
    }
}

/// However a receiver divides a payload up, it gets its bytes in order, each exactly once; once
/// it has taken as many as there are, it has the whole payload.
pub proof fn rests_make_up_payload(payload: Seq<u8>, takes: Seq<nat>)
    requires
        total(takes) <= payload.len(),
    ensures
        taken(payload, 0, takes) == payload.take(total(takes) as int),
        total(takes) == payload.len() ==> taken(payload, 0, takes) == payload,
{
    taken_is_subrange(payload, 0, takes);
    assert(payload.subrange(0, total(takes) as int) =~= payload.take(total(takes) as int));
    assert(payload.take(payload.len() as int) =~= payload);
}

/// The bytes that are taken are those that come next.
proof fn taken_is_subrange(payload: Seq<u8>, sent: nat, takes: Seq<nat>)
    requires
        sent + total(takes) <= payload.len(),
    ensures
        taken(payload, sent, takes) == payload.subrange(sent as int, (sent + total(takes)) as int),
    decreases takes.len(),
{
    if takes.len() == 0 {
        assert(payload.subrange(sent as int, sent as int) =~= seq![]);
    } else {
        let later = takes.drop_first();
        taken_is_subrange(payload, sent + takes[0], later);
        assert(payload.skip(sent as int).take(takes[0] as int) + payload.subrange(
            (sent + takes[0]) as int,
            (sent + takes[0] + total(later)) as int,
        ) =~= payload.subrange(sent as int, (sent + total(takes)) as int));
    }
}

/// A payload is made of the bytes that were read, all of them and no others.
pub proof fn payload_is_what_was_read(buf: &[u8], n: usize, payload: bytes::Bytes)
    requires
        n <= buf@.len(),
        call_ensures(payload_of, (buf, n), payload),
    ensures
        call_requires(payload_of, (buf, n)),
        content(payload).len() == n,
        forall|i: int| 0 <= i < n ==> #[trigger] content(payload)[i] == buf@[i],
{
}

/// Nothing is left to send exactly when as many bytes were taken as the payload has; otherwise
/// what is left is what is missing behind the bytes that were taken, whatever the length.
pub proof fn rest_is_what_is_missing(sending: Sending, rest: Option<bytes::Bytes>)
    requires
        call_ensures(Sending::rest, (&sending,), rest),
    ensures
        rest is None <==> sending.sent >= content(sending.payload).len(),
        rest is Some ==> content(sending.payload).take(sending.sent as int) + content(rest->Some_0)
            == content(sending.payload),
{
    if rest is Some {
        let all = content(sending.payload);
        assert(all.take(sending.sent as int) + all.skip(sending.sent as int) =~= all);
    }
}

/// There is something to be handed to the channel of a TCP connection exactly as long as fewer
/// bytes were taken than the payload has, and it has no bytes of its own.
pub proof fn nothing_is_behind(sending: Sending, behind: Option<bytes::Bytes>)
    requires
        call_ensures(Sending::behind, (&sending,), behind),
    ensures
        behind is None <==> sending.sent >= content(sending.payload).len(),
        behind is Some ==> content(behind->Some_0).len() == 0,
{
}

/// What a receiver takes counts, as long as it can be counted, and the payload stays as it is.
pub proof fn taken_bytes_count(sending: &mut Sending, n: usize, can: bool)
    requires
        call_ensures(Sending::can_advance, (&*old(sending), n), can),
        can,
        call_ensures(Sending::advance, (sending, n), ()),
    ensures
        call_requires(Sending::advance, (sending, n)),
        final(sending).sent == old(sending).sent + n,
        final(sending).payload == old(sending).payload,
{
}

/// The count can go up as long as a `usize` holds it.
pub proof fn count_has_room(sending: Sending, n: usize, can: bool)
    requires
        call_ensures(Sending::can_advance, (&sending, n), can),
    ensures
        can <==> sending.sent + n <= usize::MAX,
{
}

/// What a receiver has got that was offered `rests` one after the other, and took so many bytes
/// from the front of each.
pub open spec fn handed_over(rests: Seq<Option<bytes::Bytes>>, takes: Seq<nat>) -> Seq<u8>
    decreases takes.len(),
{
    if takes.len() == 0 {
        seq![]
    } else {
        let n = takes.len() - 1;
        handed_over(rests, takes.drop_last()) + content(rests[n]->Some_0).take(takes[n] as int)
    }
}

/// A payload of any length gets across: whatever a receiver takes of each rest, what it has got
/// so far are the first bytes of the payload, and there is a further rest exactly as long as that
/// is not yet all of it.
pub proof fn whole_payload_gets_across(
    payload: bytes::Bytes,
    states: Seq<Sending>,
    rests: Seq<Option<bytes::Bytes>>,
    takes: Seq<nat>,
)
    requires
        states.len() == takes.len() + 1,
        rests.len() == takes.len() + 1,
        call_ensures(Sending::new, (payload,), states[0]),
        forall|i: int|
            0 <= i < rests.len() ==> call_ensures(
                Sending::rest,
                (&#[trigger] states[i],),
                #[trigger] rests[i],
            ),
        forall|i: int| 0 <= i < takes.len() ==> (#[trigger] rests[i]) is Some,
        forall|i: int| 0 <= i < takes.len() ==> #[trigger] takes[i] <= content(rests[i]->Some_0).len(),
        forall|i: int|
            0 <= i < takes.len() ==> states[i + 1].payload == (#[trigger] states[i]).payload
                && states[i + 1].sent == states[i].sent + takes[i],
    ensures
        handed_over(rests, takes) == content(payload).take(
            handed_over(rests, takes).len() as int,
        ),
        states.last().sent == handed_over(rests, takes).len(),
        states.last().payload == payload,
        rests.last() is None <==> handed_over(rests, takes) == content(payload),
    decreases takes.len(),
{
    let all = content(payload);
    let n = takes.len() as int;
    rest_is_what_is_missing(states[n], rests[n]);
    if n == 0 {
        assert(all.take(0) =~= seq![]);
    } else {
        let k = n - 1;
        assert(takes.drop_last().len() == k);
        let (s, r, t) = (states.take(n), rests.take(n), takes.drop_last());
        assert forall|i: int| 0 <= i < t.len() implies #[trigger] t[i] <= content(
            r[i]->Some_0,
        ).len() by {
            assert(t[i] == takes[i]);
        }
        whole_payload_gets_across(payload, s, r, t);
        handed_over_goes_by_front(rests, rests.take(n), takes.drop_last());
        rest_is_what_is_missing(states[k], rests[k]);
        assert(states.take(n).last() == states[k]);
        let before = handed_over(rests, takes.drop_last());
        let rest = content(rests[k]->Some_0);
        assert(takes[k] <= rest.len());
        assert(before == all.take(before.len() as int));
        assert(before + rest == all);
        assert(before + rest.take(takes[k] as int) =~= (before + rest).take(
            before.len() + takes[k] as int,
        ));
    }
    assert(states.last() == states[n]);
    assert(rests.last() == rests[n]);
    let got = handed_over(rests, takes);
    assert(all.take(all.len() as int) =~= all);
    if rests.last() is None {
        assert(got.len() >= all.len());
        assert(all.take(got.len() as int).len() == got.len());
    }
}

/// What was handed over depends on the rests that were taken from alone.
proof fn handed_over_goes_by_front(
    rests: Seq<Option<bytes::Bytes>>,
    others: Seq<Option<bytes::Bytes>>,
    takes: Seq<nat>,
)
    requires
        forall|i: int| 0 <= i < takes.len() ==> rests[i] == #[trigger] others[i],
    ensures
        handed_over(rests, takes) == handed_over(others, takes),
    decreases takes.len(),
{
    if takes.len() > 0 {
        assert(rests[takes.len() - 1] == others[takes.len() - 1]);
        handed_over_goes_by_front(rests, others, takes.drop_last());
    }
}

} // verus!
