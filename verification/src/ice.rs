//! Candidates for a path between the two ends of a connection.
use vstd::prelude::*;

verus! {

/// A candidate as the local end finds it.
///
/// `protocol` and `typ` are written as in session descriptions: `udp` or `tcp`, and `host`,
/// `srflx`, `prflx` or `relay`.
#[derive(Debug)]
pub struct IceCandidate {
    pub stats_id: String,
    pub foundation: String,
    pub priority: u32,
    pub address: String,
    pub protocol: String,
    pub port: u16,
    pub typ: String,
    pub component: u16,
    pub related_address: String,
    pub related_port: u16,
    pub tcp_type: String,
}

/// What an [`IceCandidate`] holds.
pub struct IceCandidateView {
    pub stats_id: Seq<char>,
    pub foundation: Seq<char>,
    pub priority: u32,
    pub address: Seq<char>,
    pub protocol: Seq<char>,
    pub port: u16,
    pub typ: Seq<char>,
    pub component: u16,
    pub related_address: Seq<char>,
    pub related_port: u16,
    pub tcp_type: Seq<char>,
}

impl View for IceCandidate {
    type V = IceCandidateView;

    open spec fn view(&self) -> IceCandidateView {
        IceCandidateView {
            stats_id: self.stats_id@,
            foundation: self.foundation@,
            priority: self.priority,
            address: self.address@,
            protocol: self.protocol@,
            port: self.port,
            typ: self.typ@,
            component: self.component,
            related_address: self.related_address@,
            related_port: self.related_port,
            tcp_type: self.tcp_type@,
        }
    }
}

/// A candidate as the other end takes it.
#[derive(Debug)]
pub struct IceCandidateInit {
    pub candidate: String,
    pub sdp_mid: Option<String>,
    pub sdp_mline_index: Option<u16>,
    pub username_fragment: Option<String>,
}

/// Whether `candidate` can be written out. A candidate without a priority of its own gets one
/// that counts down from 256 by its component, which must not be larger than that.
pub open spec fn renderable(candidate: IceCandidateView) -> bool {
    candidate.priority != 0 || candidate.component <= 256
}

/// Whether `typ` names a kind of candidate.
pub open spec fn is_candidate_type(typ: Seq<char>) -> bool {
    typ == "host"@ || typ == "srflx"@ || typ == "prflx"@ || typ == "relay"@
}

/// The line that a candidate is written out as, or why it cannot be.
pub uninterp spec fn candidate_line(candidate: IceCandidateView) -> Result<
    Seq<char>,
    webrtc::Error,
>;

/// What `init` says of `candidate`: the line that it is written out as, for the first media
/// section, with no name for the section and no user name fragment.
pub open spec fn describes(init: IceCandidateInit, candidate: IceCandidateView) -> bool {
    &&& candidate_line(candidate) == Ok::<Seq<char>, webrtc::Error>(init.candidate@)
    &&& init.sdp_mid is Some
    &&& init.sdp_mid->Some_0@ == Seq::<char>::empty()
    &&& init.sdp_mline_index == Some(0u16)
    &&& init.username_fragment is None
}

/// `RTCIceCandidate::to_json`: writes a candidate out as a line, and fails for a candidate of no
/// known kind. The line, or the error, depends on the candidate alone. Which addresses and
/// protocols it takes is left to `candidate_line`.
#[verifier::external_body]
pub(crate) fn candidate_to_json(candidate: &IceCandidate) -> (r: Result<
    IceCandidateInit,
    webrtc::Error,
>)
    requires
        renderable(candidate@),
    ensures
        match r {
            Ok(init) => describes(init, candidate@) && is_candidate_type(candidate@.typ),
            Err(e) => candidate_line(candidate@) == Err::<Seq<char>, _>(e),
        },
{
    let c = candidate;
    let (id, fd, ad) = (c.stats_id.clone(), c.foundation.clone(), c.address.clone());
    let (protocol, typ) = (c.protocol.as_str().into(), c.typ.as_str().into());
    let (related_address, tcp_type) = (c.related_address.clone(), c.tcp_type.clone());
    let rtc = webrtc::ice_transport::ice_candidate::RTCIceCandidate {
        stats_id: id, foundation: fd, priority: c.priority, address: ad, protocol,
        port: c.port, typ, component: c.component, related_address,
        related_port: c.related_port, tcp_type,
    };
    rtc.to_json().map(|init| IceCandidateInit {
        candidate: init.candidate, sdp_mid: init.sdp_mid,
        sdp_mline_index: init.sdp_mline_index, username_fragment: init.username_fragment,
    })
}

impl IceCandidate {
    /// Whether the candidate can be written out.
    pub fn is_renderable(&self) -> (r: bool)
        ensures
            r == renderable(self@),
    {
        self.priority != 0 || self.component <= 256
    }
}

/// How far the exchange of candidates has come. Each end closes its side with an end mark; the
/// exchange is over when both end marks have passed.
#[derive(Clone, Copy, Debug, PartialEq, Eq, Structural)]
pub struct IceExchange {
    /// This end has sent its end mark.
    pub sent_all: bool,
    /// The end mark of the other end has arrived.
    pub received_all: bool,
}

impl IceExchange {
    /// The exchange before anything was sent or received.
    pub open spec fn begin() -> IceExchange {
        IceExchange { sent_all: false, received_all: false }
    }

    /// Both end marks have passed.
    pub open spec fn over(self) -> bool {
        self.sent_all && self.received_all
    }

    /// The exchange after a candidate was sent, or the end mark, if `last`.
    pub open spec fn sent(self, last: bool) -> IceExchange {
        IceExchange { sent_all: self.sent_all || last, received_all: self.received_all }
    }

    /// The exchange after a candidate has arrived, or the end mark, if `last`.
    pub open spec fn received(self, last: bool) -> IceExchange {
        IceExchange { sent_all: self.sent_all, received_all: self.received_all || last }
    }

    /// The exchange before anything was sent or received.
    pub fn new() -> (exchange: IceExchange)
        ensures
            exchange == IceExchange::begin(),
    {
        IceExchange { sent_all: false, received_all: false }
    }

    /// Whether both end marks have passed.
    pub fn is_over(self) -> (r: bool)
        ensures
            r == self.over(),
    {
        self.sent_all && self.received_all
    }

    /// Notes that a candidate was sent, or the end mark, if `last`.
    pub fn after_sending(self, last: bool) -> (exchange: IceExchange)
        ensures
            exchange == self.sent(last),
    {
        IceExchange { sent_all: self.sent_all || last, received_all: self.received_all }
    }

    /// Notes that the end mark of the other end has arrived.
    pub fn after_last_received(self) -> (exchange: IceExchange)
        ensures
            exchange == self.received(true),
    {
        IceExchange { sent_all: self.sent_all, received_all: true }
    }
}

/// One step of an exchange in which nothing fails: a candidate (or the end mark, `None`) that
/// this end finds and sends, or one that arrives from the other end.
pub enum Passed<L, R> {
    Outgoing(Option<L>),
    Incoming(Option<R>),
}

/// The exchange after the given steps.
pub open spec fn exchange_after<L, R>(start: IceExchange, steps: Seq<Passed<L, R>>) -> IceExchange
    decreases steps.len(),
{
    if steps.len() == 0 {
        start
    } else {
        exchange_after(exchange_step(start, steps[0]), steps.drop_first())
    }
}

/// The exchange after one step.
pub open spec fn exchange_step<L, R>(start: IceExchange, step: Passed<L, R>) -> IceExchange {
    match step {
        Passed::Outgoing(candidate) => start.sent(candidate is None),
        Passed::Incoming(candidate) => start.received(candidate is None),
    }
}

/// The steps can all take place: the exchange is not over before the last one.
pub open spec fn exchange_goes_on<L, R>(start: IceExchange, steps: Seq<Passed<L, R>>) -> bool
    decreases steps.len(),
{
    steps.len() == 0 || (!start.over() && exchange_goes_on(
        exchange_step(start, steps[0]),
        steps.drop_first(),
    ))
}

/// What goes out in the given steps, the end mark included.
pub open spec fn outgoing<L, R>(steps: Seq<Passed<L, R>>) -> Seq<Option<L>>
    decreases steps.len(),
{
    if steps.len() == 0 {
        seq![]
    } else {
        match steps[0] {
            Passed::Outgoing(candidate) => seq![candidate] + outgoing(steps.drop_first()),
            Passed::Incoming(_) => outgoing(steps.drop_first()),
        }
    }
}

/// What comes in during the given steps, the end mark included.
pub open spec fn incoming<L, R>(steps: Seq<Passed<L, R>>) -> Seq<Option<R>>
    decreases steps.len(),
{
    if steps.len() == 0 {
        seq![]
    } else {
        match steps[0] {
            Passed::Outgoing(_) => incoming(steps.drop_first()),
            Passed::Incoming(candidate) => seq![candidate] + incoming(steps.drop_first()),
        }
    }
}

/// The exchange is over exactly when an end mark has gone out and one has come in, in whatever
/// order the steps of the two ends fall.
pub proof fn exchange_ends_with_both_marks<L, R>(steps: Seq<Passed<L, R>>)
    ensures
        exchange_after(IceExchange::begin(), steps).over() <==> outgoing(steps).contains(None)
            && incoming(steps).contains(None),
{
    exchange_counts_marks(IceExchange::begin(), steps);
}

/// Which of the given candidates are end marks.
pub open spec fn marks<T>(candidates: Seq<Option<T>>) -> Seq<bool> {
    candidates.map_values(|candidate: Option<T>| candidate is None)
}

/// Where each end receives what the other end has sent, the two agree on whether the exchange is
/// over, in whatever order either of them sends and receives. (The candidates themselves may take
/// another form on the way.)
pub proof fn ends_finish_together<A, B, C, D>(near: Seq<Passed<A, B>>, far: Seq<Passed<C, D>>)
    requires
        marks(outgoing(near)) == marks(incoming(far)),
        marks(outgoing(far)) == marks(incoming(near)),
    ensures
        exchange_after(IceExchange::begin(), near).over() == exchange_after(
            IceExchange::begin(),
            far,
        ).over(),
{
    exchange_ends_with_both_marks(near);
    exchange_ends_with_both_marks(far);
    marks_tell(outgoing(near));
    marks_tell(incoming(far));
    marks_tell(outgoing(far));
    marks_tell(incoming(near));
}

/// There is an end mark among the candidates where the marks say so.
proof fn marks_tell<T>(candidates: Seq<Option<T>>)
    ensures
        candidates.contains(None) <==> marks(candidates).contains(true),
{
    if candidates.contains(None) {
        let i = choose|i: int| 0 <= i < candidates.len() && candidates[i] is None;
        assert(marks(candidates)[i]);
    }
    if marks(candidates).contains(true) {
        let i = choose|i: int| 0 <= i < marks(candidates).len() && marks(candidates)[i];
        assert(candidates[i] == None::<T>);
    }
}

/// The flags of an exchange say which end marks are among the steps.
proof fn exchange_counts_marks<L, R>(start: IceExchange, steps: Seq<Passed<L, R>>)
    ensures
        exchange_after(start, steps).sent_all <==> start.sent_all || outgoing(steps).contains(None),
        exchange_after(start, steps).received_all <==> start.received_all || incoming(
            steps,
        ).contains(None),
    decreases steps.len(),
{
    if steps.len() > 0 {
        let later = steps.drop_first();
        exchange_counts_marks(exchange_step(start, steps[0]), later);
        match steps[0] {
            Passed::Outgoing(candidate) => {
                let all = seq![candidate] + outgoing(later);
                assert(all[0] == candidate);
                assert forall|i: int| 0 <= i < outgoing(later).len() implies all[i + 1] == outgoing(
                    later,
                )[i] by {}
                if outgoing(later).contains(None) {
                    let i = choose|i: int| 0 <= i < outgoing(later).len() && outgoing(later)[i] is None;
                    assert(all[i + 1] is None);
                }
            },
            Passed::Incoming(candidate) => {
                let all = seq![candidate] + incoming(later);
                assert(all[0] == candidate);
                if incoming(later).contains(None) {
                    let i = choose|i: int| 0 <= i < incoming(later).len() && incoming(later)[i] is None;
                    assert(all[i + 1] is None);
                }
            },
        }
    }
}

/// The candidates among what came in, without the end marks.
pub open spec fn arrived<T>(candidates: Seq<Option<T>>) -> Seq<T>
    decreases candidates.len(),
{
    if candidates.len() == 0 {
        seq![]
    } else {
        let front = arrived(candidates.drop_last());
        match candidates.last() {
            Some(candidate) => front.push(candidate),
            None => front,
        }
    }
}

/// Where the steps end as soon as both end marks have passed, each of them can take place, and the
/// exchange is over behind the last one.
pub proof fn exchange_until_both_marks<L, R>(steps: Seq<Passed<L, R>>)
    requires
        outgoing(steps).contains(None),
        incoming(steps).contains(None),
        forall|k: int|
            0 <= k < steps.len() ==> !(outgoing(#[trigger] steps.take(k)).contains(None)
                && incoming(steps.take(k)).contains(None)),
    ensures
        exchange_goes_on(IceExchange::begin(), steps),
        exchange_after(IceExchange::begin(), steps).over(),
{
    exchange_ends_with_both_marks(steps);
    assert forall|k: int| 0 <= k < steps.len() implies !exchange_after(
        IceExchange::begin(),
        #[trigger] steps.take(k),
    ).over() by {
        exchange_ends_with_both_marks(steps.take(k));
    }
    exchange_can_go_on(IceExchange::begin(), steps);
}

/// An exchange that is not over before the last step goes on until then.
proof fn exchange_can_go_on<L, R>(start: IceExchange, steps: Seq<Passed<L, R>>)
    requires
        forall|k: int|
            0 <= k < steps.len() ==> !exchange_after(start, #[trigger] steps.take(k)).over(),
    ensures
        exchange_goes_on(start, steps),
    decreases steps.len(),
{
    if steps.len() > 0 {
        let later = steps.drop_first();
        let next = exchange_step(start, steps[0]);
        assert(exchange_after(start, steps.take(0)) == start);
        assert(!start.over());
        assert forall|k: int| 0 <= k < later.len() implies !exchange_after(
            next,
            #[trigger] later.take(k),
        ).over() by {
            let upto = steps.take(k + 1);
            assert(upto[0] == steps[0]);
            assert(upto.drop_first() =~= later.take(k));
            assert(exchange_after(start, upto) == exchange_after(next, later.take(k)));
        }
        exchange_can_go_on(next, later);
    }
}

/// An exchange begins with no end mark having passed, is over exactly when both have, and each of
/// them is noted when it passes and at no other time.
pub proof fn end_marks_are_noted(
    begin: IceExchange,
    exchange: IceExchange,
    last: bool,
    over: bool,
    sent: IceExchange,
    received: IceExchange,
)
    requires
        call_ensures(IceExchange::new, (), begin),
        call_ensures(IceExchange::is_over, (exchange,), over),
        call_ensures(IceExchange::after_sending, (exchange, last), sent),
        call_ensures(IceExchange::after_last_received, (exchange,), received),
    ensures
        !begin.sent_all && !begin.received_all,
        over <==> exchange.sent_all && exchange.received_all,
        sent.sent_all <==> exchange.sent_all || last,
        sent.received_all == exchange.received_all,
        received.sent_all == exchange.sent_all,
        received.received_all,
{
}

/// A candidate can be written out if it has a priority of its own, or a component up to 256.
pub proof fn candidates_can_be_written_out(candidate: IceCandidate, r: bool)
    requires
        call_ensures(IceCandidate::is_renderable, (&candidate,), r),
    ensures
        r <==> candidate.priority != 0 || candidate.component <= 256,
        r <==> renderable(candidate@),
{
}

/// What arrives behind something else adds to it.
pub proof fn arrivals_add_up<T>(first: Seq<Option<T>>, later: Seq<Option<T>>)
    ensures
        arrived(first + later) == arrived(first) + arrived(later),
    decreases later.len(),
{
    if later.len() == 0 {
        assert(first + later =~= first);
        assert(arrived(first) + arrived(later) =~= arrived(first));
    } else {
        arrivals_add_up(first, later.drop_last());
        assert((first + later).drop_last() =~= first + later.drop_last());
        assert((first + later).last() == later.last());
        assert(arrived(first + later) =~= arrived(first) + arrived(later));
    }
}

} // verus!
