use vstd::prelude::*;
use vstd::string::*;
use crate::placeholder;
use crate::placeholder::lookup_url;
use crate::reply;
use crate::reply::{Reply, ReplyView};

verus! {

/// How the location service answered a lookup.
#[derive(Clone, Copy, Debug, PartialEq, Eq)]
pub enum IspLookup {
    /// The service could not be reached.
    Unreachable,
    /// The service answered with something that is not a location.
    Unreadable,
    /// The service answered with a location.
    Found,
}

/// Where the answer to a request for the client's own location stands.
#[derive(Clone, Copy, Debug, PartialEq, Eq)]
pub enum IspStep {
    /// The client's address has not been read yet.
    AwaitPeer,
    /// The client is this host: its public address is being looked up.
    AwaitPublicAddress,
    /// The location service is being asked.
    AwaitLookup,
    /// The location is being stored.
    AwaitStored,
    /// The reply has been given.
    Done,
}

/// What the caller reports back after doing what the last action asked.
#[derive(Debug, PartialEq, Eq)]
pub enum IspEvent {
    /// The client's IP address as text, if the connection has one.
    PeerAddress(Option<String>),
    /// This host's public IPv4 address as text, if it could be found.
    PublicAddress(Option<String>),
    /// How the location service answered.
    Lookup(IspLookup),
    /// The stored member, or why storing failed.
    Stored(Result<String, String>),
}

/// What the caller is asked to do next.
#[derive(Clone, Debug, PartialEq, Eq)]
pub enum IspAction {
    LookupPublicAddress,
    /// Ask the location service at this URL.
    FetchLocation(String),
    Store,
    Respond(Reply),
}

pub enum IspEventView {
    PeerAddress(Option<Seq<char>>),
    PublicAddress(Option<Seq<char>>),
    Lookup(IspLookup),
    Stored(Result<Seq<char>, Seq<char>>),
}

pub enum IspActionView {
    LookupPublicAddress,
    FetchLocation(Seq<char>),
    Store,
    Respond(ReplyView),
}

impl View for IspEvent {
    type V = IspEventView;

    open spec fn view(&self) -> IspEventView {
        match self {
            IspEvent::PeerAddress(None) => IspEventView::PeerAddress(None),
            IspEvent::PeerAddress(Some(a)) => IspEventView::PeerAddress(Some(a@)),
            IspEvent::PublicAddress(None) => IspEventView::PublicAddress(None),
            IspEvent::PublicAddress(Some(a)) => IspEventView::PublicAddress(Some(a@)),
            IspEvent::Lookup(l) => IspEventView::Lookup(*l),
            IspEvent::Stored(Ok(m)) => IspEventView::Stored(Ok(m@)),
            IspEvent::Stored(Err(e)) => IspEventView::Stored(Err(e@)),
        }
    }
}

impl View for IspAction {
    type V = IspActionView;

    open spec fn view(&self) -> IspActionView {
        match self {
            IspAction::LookupPublicAddress => IspActionView::LookupPublicAddress,
            IspAction::FetchLocation(url) => IspActionView::FetchLocation(url@),
            IspAction::Store => IspActionView::Store,
            IspAction::Respond(r) => IspActionView::Respond(r@),
        }
    }
}

/// The address under which a client on this very host is seen.
pub open spec fn loopback_address() -> Seq<char> {
    "127.0.0.1"@
}

/// Whether `event` is the report that `step` waits for.
pub open spec fn isp_accepts(step: IspStep, event: IspEventView) -> bool {
    match step {
        IspStep::AwaitPeer => event is PeerAddress,
        IspStep::AwaitPublicAddress => event is PublicAddress,
        IspStep::AwaitLookup => event is Lookup,
        IspStep::AwaitStored => event is Stored,
        IspStep::Done => false,
    }
}

/// The next step and the action that follow `event` at `step`. A connection
/// without an address is answered with 500. A client on this host is located
/// by this host's public address. The location service is asked at the
/// configured URL with the address put in place of each `{}`. A lookup that
/// fails either way, or a public address that cannot be found, is answered
/// with its message; a failed store with 500; a stored location with the
/// stored member.
pub open spec fn isp_next(api_url: Seq<char>, step: IspStep, event: IspEventView) -> (
    IspStep,
    IspActionView,
) {
    match event {
        IspEventView::PeerAddress(None) => (
            IspStep::Done,
            IspActionView::Respond(ReplyView::InternalServerError),
        ),
        IspEventView::PeerAddress(Some(address)) => if address == loopback_address() {
            (IspStep::AwaitPublicAddress, IspActionView::LookupPublicAddress)
        } else {
            (
                IspStep::AwaitLookup,
                IspActionView::FetchLocation(placeholder::fill_placeholders(api_url, address)),
            )
        },
        IspEventView::PublicAddress(None) => (
            IspStep::Done,
            IspActionView::Respond(reply::error_reply(reply::no_public_address_message())),
        ),
        IspEventView::PublicAddress(Some(address)) => (
            IspStep::AwaitLookup,
            IspActionView::FetchLocation(placeholder::fill_placeholders(api_url, address)),
        ),
        IspEventView::Lookup(lookup) => if lookup == IspLookup::Found {
            (IspStep::AwaitStored, IspActionView::Store)
        } else {
            (
                IspStep::Done,
                IspActionView::Respond(reply::error_reply(reply::no_isp_location_message())),
            )
        },
        IspEventView::Stored(Err(_)) => (
            IspStep::Done,
            IspActionView::Respond(ReplyView::InternalServerError),
        ),
        IspEventView::Stored(Ok(member)) => (
            IspStep::Done,
            IspActionView::Respond(ReplyView::Json { ok: true, response: member }),
        ),
    }
}

/// Whether `address` is the loopback address.
pub fn is_loopback(address: &String) -> (b: bool)
    ensures
        b == (address@ == loopback_address()),
{
    let loopback = String::from_str("127.0.0.1");
    *address == loopback
}

impl IspStep {
    /// The step a request for the client's own location starts from.
    pub fn start() -> (step: IspStep)
        ensures
            step == IspStep::AwaitPeer,
    {
        IspStep::AwaitPeer
    }

    pub fn is_done(&self) -> (b: bool)
        ensures
            b == (*self == IspStep::Done),
    {
        match self {
            IspStep::Done => true,
            _ => false,
        }
    }

    /// Whether `event` is the report this step waits for.
    pub fn accepts(&self, event: &IspEvent) -> (b: bool)
        ensures
            b == isp_accepts(*self, event@),
    {
        match self {
            IspStep::AwaitPeer => matches!(event, IspEvent::PeerAddress(_)),
            IspStep::AwaitPublicAddress => matches!(event, IspEvent::PublicAddress(_)),
            IspStep::AwaitLookup => matches!(event, IspEvent::Lookup(_)),
            IspStep::AwaitStored => matches!(event, IspEvent::Stored(_)),
            IspStep::Done => false,
        }
    }

    /// Takes the report of the last action and decides what comes next;
    /// `api_url` is the configured URL of the location service.
    pub fn next(self, api_url: &str, event: IspEvent) -> (res: (IspStep, IspAction))
        requires
            isp_accepts(self, event@),
        ensures
            (res.0, res.1@) == isp_next(api_url@, self, event@),
    {
        match event {
            IspEvent::PeerAddress(None) => (
                IspStep::Done,
                IspAction::Respond(Reply::InternalServerError),
            ),
            IspEvent::PeerAddress(Some(address)) => {
                if is_loopback(&address) {
                    (IspStep::AwaitPublicAddress, IspAction::LookupPublicAddress)
                } else {
                    (
                        IspStep::AwaitLookup,
                        IspAction::FetchLocation(lookup_url(api_url, address.as_str())),
                    )
                }
            },
            IspEvent::PublicAddress(None) => (
                IspStep::Done,
                IspAction::Respond(Reply::error("Host public IP address could not be determined")),
            ),
            IspEvent::PublicAddress(Some(address)) => (
                IspStep::AwaitLookup,
                IspAction::FetchLocation(lookup_url(api_url, address.as_str())),
            ),
            IspEvent::Lookup(lookup) => {
                match lookup {
                    IspLookup::Found => (IspStep::AwaitStored, IspAction::Store),
                    _ => (
                        IspStep::Done,
                        IspAction::Respond(Reply::error("ISP location could not be determined")),
                    ),
                }
            },
            IspEvent::Stored(Err(_)) => (
                IspStep::Done,
                IspAction::Respond(Reply::InternalServerError),
            ),
            IspEvent::Stored(Ok(member)) => (
                IspStep::Done,
                IspAction::Respond(Reply::success(member)),
            ),
        }
    }
}

} // verus!

verus! {

/// The step reached and the actions asked for when the reports `events`
/// arrive one after another from `step`; `None` once a report comes that the
/// step does not wait for.
pub open spec fn isp_run(api_url: Seq<char>, step: IspStep, events: Seq<IspEventView>) -> Option<
    (IspStep, Seq<IspActionView>),
>
    decreases events.len(),
{
    if events.len() == 0 {
        Some((step, Seq::empty()))
    } else if !isp_accepts(step, events[0]) {
        None
    } else {
        let (next, action) = isp_next(api_url, step, events[0]);
        match isp_run(api_url, next, events.drop_first()) {
            Some((last, actions)) => Some((last, seq![action] + actions)),
            None => None,
        }
    }
}

/// How many reports `step` still waits for, at most.
pub open spec fn isp_remaining(step: IspStep) -> nat {
    match step {
        IspStep::AwaitPeer => 4,
        IspStep::AwaitPublicAddress => 3,
        IspStep::AwaitLookup => 2,
        IspStep::AwaitStored => 1,
        IspStep::Done => 0,
    }
}

proof fn lemma_isp_run_unfold(api_url: Seq<char>, step: IspStep, events: Seq<IspEventView>)
    requires
        events.len() > 0,
        isp_run(api_url, step, events) is Some,
    ensures
        isp_accepts(step, events[0]),
        isp_run(api_url, isp_next(api_url, step, events[0]).0, events.drop_first()) is Some,
        (isp_run(api_url, step, events)->0).0 == (isp_run(
            api_url,
            isp_next(api_url, step, events[0]).0,
            events.drop_first(),
        )->0).0,
        (isp_run(api_url, step, events)->0).1 == seq![isp_next(api_url, step, events[0]).1] + (
        isp_run(api_url, isp_next(api_url, step, events[0]).0, events.drop_first())->0).1,
{
}

/// Every run asks for one action per report, takes at most as many reports
/// as the step still waits for, answers at most once and only with its last
/// action, and is finished exactly when it has answered: every request for
/// the client's own location is answered exactly once.
pub proof fn lemma_isp_run_answers_once(api_url: Seq<char>, step: IspStep, events: Seq<IspEventView>)
    requires
        isp_run(api_url, step, events) is Some,
    ensures
        ({
            let (last, actions) = isp_run(api_url, step, events)->0;
            &&& actions.len() == events.len()
            &&& events.len() <= isp_remaining(step)
            &&& forall|k: int| 0 <= k < actions.len() - 1 ==> !(#[trigger] actions[k] is Respond)
            &&& (last == IspStep::Done <==> ((step == IspStep::Done && events.len() == 0) || (
            actions.len() > 0 && actions.last() is Respond)))
        }),
    decreases events.len(),
{
    if events.len() > 0 {
        lemma_isp_run_unfold(api_url, step, events);
        let (next, action) = isp_next(api_url, step, events[0]);
        let rest = events.drop_first();
        lemma_isp_run_answers_once(api_url, next, rest);
        let (last, actions) = isp_run(api_url, step, events)->0;
        let tail = (isp_run(api_url, next, rest)->0).1;
        assert(actions == seq![action] + tail);
        if next == IspStep::Done {
            assert(rest.len() == 0);
        }
        assert forall|k: int| 0 <= k < actions.len() - 1 implies !(#[trigger] actions[k] is Respond) by {
            if k > 0 {
                assert(actions[k] == tail[k - 1]);
            }
        }
        if tail.len() > 0 {
            assert(actions.last() == tail.last());
        }
    }
}

/// Once the location service is being asked, nothing is fetched or looked
/// up any more.
proof fn lemma_isp_no_address_work_after_lookup(
    api_url: Seq<char>,
    step: IspStep,
    events: Seq<IspEventView>,
    k: int,
)
    requires
        step == IspStep::AwaitLookup || step == IspStep::AwaitStored || step == IspStep::Done,
        isp_run(api_url, step, events) is Some,
        0 <= k < events.len(),
    ensures
        !((isp_run(api_url, step, events)->0).1[k] is FetchLocation),
        !((isp_run(api_url, step, events)->0).1[k] is LookupPublicAddress),
    decreases events.len(),
{
    lemma_isp_run_unfold(api_url, step, events);
    lemma_isp_run_answers_once(api_url, step, events);
    let next = isp_next(api_url, step, events[0]).0;
    let rest = events.drop_first();
    lemma_isp_run_answers_once(api_url, next, rest);
    if k > 0 {
        lemma_isp_no_address_work_after_lookup(api_url, next, rest, k - 1);
        assert((isp_run(api_url, step, events)->0).1[k] == (isp_run(api_url, next, rest)->0).1[k
            - 1]);
    }
}

/// The location service is asked about the client's own address, put in
/// place of each `{}` in the configured URL; when the client is this host,
/// it is asked about this host's public address instead, found first.
pub proof fn lemma_isp_fetches_client_address(
    api_url: Seq<char>,
    events: Seq<IspEventView>,
    k: int,
    url: Seq<char>,
)
    requires
        isp_run(api_url, IspStep::AwaitPeer, events) is Some,
        0 <= k < events.len(),
        (isp_run(api_url, IspStep::AwaitPeer, events)->0).1[k] == IspActionView::FetchLocation(
            url,
        ),
    ensures
        events[0] matches IspEventView::PeerAddress(Some(address)) && if address
            == loopback_address() {
            &&& k == 1
            &&& events[1] matches IspEventView::PublicAddress(Some(public))
                && url == placeholder::fill_placeholders(api_url, public)
        } else {
            k == 0 && url == placeholder::fill_placeholders(api_url, address)
        },
{
    let step = IspStep::AwaitPeer;
    lemma_isp_run_unfold(api_url, step, events);
    lemma_isp_run_answers_once(api_url, step, events);
    let next = isp_next(api_url, step, events[0]).0;
    let rest = events.drop_first();
    lemma_isp_run_answers_once(api_url, next, rest);
    let actions = (isp_run(api_url, step, events)->0).1;
    let tail = (isp_run(api_url, next, rest)->0).1;
    if k > 0 {
        assert(actions[k] == tail[k - 1]);
        if next == IspStep::AwaitPublicAddress {
            lemma_isp_run_unfold(api_url, next, rest);
            let next2 = isp_next(api_url, next, rest[0]).0;
            let rest2 = rest.drop_first();
            lemma_isp_run_answers_once(api_url, next2, rest2);
            if k > 1 {
                assert(tail[k - 1] == (isp_run(api_url, next2, rest2)->0).1[k - 2]);
                lemma_isp_no_address_work_after_lookup(api_url, next2, rest2, k - 2);
            }
            assert(rest[0] == events[1]);
        } else {
            lemma_isp_no_address_work_after_lookup(api_url, next, rest, k - 1);
        }
    }
}

proof fn lemma_isp_success_path(
    api_url: Seq<char>,
    step: IspStep,
    events: Seq<IspEventView>,
    k: int,
    member: Seq<char>,
)
    requires
        isp_run(api_url, step, events) is Some,
        0 <= k < events.len(),
        (isp_run(api_url, step, events)->0).1[k] == IspActionView::Respond(
            ReplyView::Json { ok: true, response: member },
        ),
    ensures
        events[k] == IspEventView::Stored(Ok(member)),
        (k >= 1 && events[k - 1] == IspEventView::Lookup(IspLookup::Found)) || (k == 0 && step
            == IspStep::AwaitStored),
    decreases events.len(),
{
    lemma_isp_run_unfold(api_url, step, events);
    lemma_isp_run_answers_once(api_url, step, events);
    let next = isp_next(api_url, step, events[0]).0;
    let rest = events.drop_first();
    lemma_isp_run_answers_once(api_url, next, rest);
    if k > 0 {
        assert((isp_run(api_url, step, events)->0).1[k] == (isp_run(api_url, next, rest)->0).1[k
            - 1]);
        lemma_isp_success_path(api_url, next, rest, k - 1, member);
        assert(events[k] == rest[k - 1]);
        if k > 1 {
            assert(events[k - 1] == rest[k - 2]);
        }
    }
}

/// A request for the client's own location is answered with status "ok"
/// only right after the location service found a location and the store
/// reported the member, and the answer is that member.
pub proof fn lemma_isp_success_reports_stored_member(
    api_url: Seq<char>,
    events: Seq<IspEventView>,
    k: int,
    member: Seq<char>,
)
    requires
        isp_run(api_url, IspStep::AwaitPeer, events) is Some,
        0 <= k < events.len(),
        (isp_run(api_url, IspStep::AwaitPeer, events)->0).1[k] == IspActionView::Respond(
            ReplyView::Json { ok: true, response: member },
        ),
    ensures
        k >= 2,
        events[k - 1] == IspEventView::Lookup(IspLookup::Found),
        events[k] == IspEventView::Stored(Ok(member)),
{
    lemma_isp_success_path(api_url, IspStep::AwaitPeer, events, k, member);
    lemma_isp_run_unfold(api_url, IspStep::AwaitPeer, events);
    if k == 1 {
        assert(events[0] is PeerAddress);
    }
}

} // verus!

verus! {

/// This host's public address is looked up only for a client seen under the
/// loopback address, and only as the first thing asked for.
pub proof fn lemma_isp_public_address_only_for_loopback(
    api_url: Seq<char>,
    events: Seq<IspEventView>,
    k: int,
)
    requires
        isp_run(api_url, IspStep::AwaitPeer, events) is Some,
        0 <= k < events.len(),
        (isp_run(api_url, IspStep::AwaitPeer, events)->0).1[k]
            == IspActionView::LookupPublicAddress,
    ensures
        k == 0,
        events[0] == IspEventView::PeerAddress(Some(loopback_address())),
{
    let step = IspStep::AwaitPeer;
    lemma_isp_run_unfold(api_url, step, events);
    lemma_isp_run_answers_once(api_url, step, events);
    let next = isp_next(api_url, step, events[0]).0;
    let rest = events.drop_first();
    lemma_isp_run_answers_once(api_url, next, rest);
    let tail = (isp_run(api_url, next, rest)->0).1;
    if k > 0 {
        assert((isp_run(api_url, step, events)->0).1[k] == tail[k - 1]);
        if next == IspStep::AwaitPublicAddress {
            lemma_isp_run_unfold(api_url, next, rest);
            let next2 = isp_next(api_url, next, rest[0]).0;
            let rest2 = rest.drop_first();
            lemma_isp_run_answers_once(api_url, next2, rest2);
            if k > 1 {
                assert(tail[k - 1] == (isp_run(api_url, next2, rest2)->0).1[k - 2]);
                lemma_isp_no_address_work_after_lookup(api_url, next2, rest2, k - 2);
            }
        } else {
            lemma_isp_no_address_work_after_lookup(api_url, next, rest, k - 1);
        }
    }
}

} // verus!

verus! {

/// Once the location is being stored, or the exchange is over, nothing is
/// stored again.
proof fn lemma_isp_no_store_after_store(
    api_url: Seq<char>,
    step: IspStep,
    events: Seq<IspEventView>,
    k: int,
)
    requires
        step == IspStep::AwaitStored || step == IspStep::Done,
        isp_run(api_url, step, events) is Some,
        0 <= k < events.len(),
    ensures
        (isp_run(api_url, step, events)->0).1[k] != IspActionView::Store,
    decreases events.len(),
{
    lemma_isp_run_unfold(api_url, step, events);
    lemma_isp_run_answers_once(api_url, step, events);
    let next = isp_next(api_url, step, events[0]).0;
    let rest = events.drop_first();
    lemma_isp_run_answers_once(api_url, next, rest);
    if k > 0 {
        lemma_isp_no_store_after_store(api_url, next, rest, k - 1);
        assert((isp_run(api_url, step, events)->0).1[k] == (isp_run(api_url, next, rest)->0).1[k
            - 1]);
    }
}

proof fn lemma_isp_store_once_from(
    api_url: Seq<char>,
    step: IspStep,
    events: Seq<IspEventView>,
    k1: int,
    k2: int,
)
    requires
        isp_run(api_url, step, events) is Some,
        0 <= k1 < k2 < events.len(),
        (isp_run(api_url, step, events)->0).1[k1] == IspActionView::Store,
    ensures
        (isp_run(api_url, step, events)->0).1[k2] != IspActionView::Store,
    decreases events.len(),
{
    lemma_isp_run_unfold(api_url, step, events);
    lemma_isp_run_answers_once(api_url, step, events);
    let next = isp_next(api_url, step, events[0]).0;
    let rest = events.drop_first();
    lemma_isp_run_answers_once(api_url, next, rest);
    let actions = (isp_run(api_url, step, events)->0).1;
    let tail = (isp_run(api_url, next, rest)->0).1;
    assert(actions[k2] == tail[k2 - 1]);
    if k1 == 0 {
        assert(next == IspStep::AwaitStored);
        lemma_isp_no_store_after_store(api_url, next, rest, k2 - 1);
    } else {
        assert(actions[k1] == tail[k1 - 1]);
        lemma_isp_store_once_from(api_url, next, rest, k1 - 1, k2 - 1);
    }
}

/// A run asks to store at most once: the client's location is stored at
/// most once per request.
pub proof fn lemma_isp_stores_at_most_once(
    api_url: Seq<char>,
    events: Seq<IspEventView>,
    k1: int,
    k2: int,
)
    requires
        isp_run(api_url, IspStep::AwaitPeer, events) is Some,
        0 <= k1 < events.len(),
        0 <= k2 < events.len(),
        (isp_run(api_url, IspStep::AwaitPeer, events)->0).1[k1] == IspActionView::Store,
        (isp_run(api_url, IspStep::AwaitPeer, events)->0).1[k2] == IspActionView::Store,
    ensures
        k1 == k2,
{
    if k1 < k2 {
        lemma_isp_store_once_from(api_url, IspStep::AwaitPeer, events, k1, k2);
    } else if k2 < k1 {
        lemma_isp_store_once_from(api_url, IspStep::AwaitPeer, events, k2, k1);
    }
}

} // verus!

verus! {

/// Each report decides the exchange on its own, whatever the texts are: a
/// client seen under any address other than 127.0.0.1 is looked up at the
/// configured URL with its address put in place of the placeholder; a
/// client seen under 127.0.0.1 first has this host's public address looked
/// up, and is then looked up under that address; a connection without an
/// address is answered with 500, a missing public address and a failed
/// lookup with their messages; a found location is stored; a stored member
/// is the "ok" answer and a failed store is answered with 500.
pub proof fn lemma_isp_each_report(
    api_url: Seq<char>,
    address: Seq<char>,
    member: Seq<char>,
    cause: Seq<char>,
)
    ensures
        address != "127.0.0.1"@ ==> isp_next(
            api_url,
            IspStep::AwaitPeer,
            IspEventView::PeerAddress(Some(address)),
        ) == (
            IspStep::AwaitLookup,
            IspActionView::FetchLocation(placeholder::fill_placeholders(api_url, address)),
        ),
        isp_next(api_url, IspStep::AwaitPeer, IspEventView::PeerAddress(Some("127.0.0.1"@))) == (
            IspStep::AwaitPublicAddress,
            IspActionView::LookupPublicAddress,
        ),
        isp_next(api_url, IspStep::AwaitPeer, IspEventView::PeerAddress(None)) == (
            IspStep::Done,
            IspActionView::Respond(ReplyView::InternalServerError),
        ),
        isp_next(api_url, IspStep::AwaitPublicAddress, IspEventView::PublicAddress(Some(address)))
            == (
            IspStep::AwaitLookup,
            IspActionView::FetchLocation(placeholder::fill_placeholders(api_url, address)),
        ),
        isp_next(api_url, IspStep::AwaitPublicAddress, IspEventView::PublicAddress(None)) == (
            IspStep::Done,
            IspActionView::Respond(
                ReplyView::Json {
                    ok: false,
                    response: "Host public IP address could not be determined"@,
                },
            ),
        ),
        isp_next(api_url, IspStep::AwaitLookup, IspEventView::Lookup(IspLookup::Found)) == (
            IspStep::AwaitStored,
            IspActionView::Store,
        ),
        isp_next(api_url, IspStep::AwaitLookup, IspEventView::Lookup(IspLookup::Unreachable)) == (
            IspStep::Done,
            IspActionView::Respond(
                ReplyView::Json { ok: false, response: "ISP location could not be determined"@ },
            ),
        ),
        isp_next(api_url, IspStep::AwaitLookup, IspEventView::Lookup(IspLookup::Unreadable)) == (
            IspStep::Done,
            IspActionView::Respond(
                ReplyView::Json { ok: false, response: "ISP location could not be determined"@ },
            ),
        ),
        isp_next(api_url, IspStep::AwaitStored, IspEventView::Stored(Ok(member))) == (
            IspStep::Done,
            IspActionView::Respond(ReplyView::Json { ok: true, response: member }),
        ),
        isp_next(api_url, IspStep::AwaitStored, IspEventView::Stored(Err(cause))) == (
            IspStep::Done,
            IspActionView::Respond(ReplyView::InternalServerError),
        ),
{
}

/// A client seen under any address other than 127.0.0.1, whose location
/// the service finds and the store accepts, is looked up under its own
/// address and answered with status "ok" and the stored member.
pub proof fn lemma_isp_remote_client_is_located(
    api_url: Seq<char>,
    address: Seq<char>,
    member: Seq<char>,
)
    requires
        address != "127.0.0.1"@,
    ensures
        isp_run(
            api_url,
            IspStep::AwaitPeer,
            seq![
                IspEventView::PeerAddress(Some(address)),
                IspEventView::Lookup(IspLookup::Found),
                IspEventView::Stored(Ok(member)),
            ],
        ) == Some(
            (
                IspStep::Done,
                seq![
                    IspActionView::FetchLocation(placeholder::fill_placeholders(api_url, address)),
                    IspActionView::Store,
                    IspActionView::Respond(ReplyView::Json { ok: true, response: member }),
                ],
            ),
        ),
{
    let e0 = IspEventView::PeerAddress(Some(address));
    let e1 = IspEventView::Lookup(IspLookup::Found);
    let e2 = IspEventView::Stored(Ok(member));
    let fetch = IspActionView::FetchLocation(placeholder::fill_placeholders(api_url, address));
    let reply = IspActionView::Respond(ReplyView::Json { ok: true, response: member });
    let s2 = seq![e2];
    let s1 = seq![e1, e2];
    let s0 = seq![e0, e1, e2];
    assert(s0.drop_first() =~= s1);
    assert(s1.drop_first() =~= s2);
    assert(s2.drop_first() =~= Seq::<IspEventView>::empty());
    assert(isp_run(api_url, IspStep::AwaitStored, s2) == Some((IspStep::Done, seq![reply]))) by {
        assert(isp_run(api_url, IspStep::Done, Seq::empty()) == Some(
            (IspStep::Done, Seq::<IspActionView>::empty()),
        ));
        assert(seq![reply] + Seq::<IspActionView>::empty() =~= seq![reply]);
    }
    assert(isp_run(api_url, IspStep::AwaitLookup, s1) == Some(
        (IspStep::Done, seq![IspActionView::Store, reply]),
    )) by {
        assert(seq![IspActionView::Store] + seq![reply] =~= seq![IspActionView::Store, reply]);
    }
    assert(seq![fetch] + seq![IspActionView::Store, reply] =~= seq![
        fetch,
        IspActionView::Store,
        reply,
    ]);
}

/// A client seen under 127.0.0.1 is located under this host's public
/// address: that address is looked up first, then the service is asked
/// about it, and the stored member is the "ok" answer.
pub proof fn lemma_isp_local_client_is_located_by_public_address(
    api_url: Seq<char>,
    public: Seq<char>,
    member: Seq<char>,
)
    ensures
        isp_run(
            api_url,
            IspStep::AwaitPeer,
            seq![
                IspEventView::PeerAddress(Some("127.0.0.1"@)),
                IspEventView::PublicAddress(Some(public)),
                IspEventView::Lookup(IspLookup::Found),
                IspEventView::Stored(Ok(member)),
            ],
        ) == Some(
            (
                IspStep::Done,
                seq![
                    IspActionView::LookupPublicAddress,
                    IspActionView::FetchLocation(placeholder::fill_placeholders(api_url, public)),
                    IspActionView::Store,
                    IspActionView::Respond(ReplyView::Json { ok: true, response: member }),
                ],
            ),
        ),
{
    let e0 = IspEventView::PeerAddress(Some("127.0.0.1"@));
    let e1 = IspEventView::PublicAddress(Some(public));
    let e2 = IspEventView::Lookup(IspLookup::Found);
    let e3 = IspEventView::Stored(Ok(member));
    let fetch = IspActionView::FetchLocation(placeholder::fill_placeholders(api_url, public));
    let reply = IspActionView::Respond(ReplyView::Json { ok: true, response: member });
    let s3 = seq![e3];
    let s2 = seq![e2, e3];
    let s1 = seq![e1, e2, e3];
    let s0 = seq![e0, e1, e2, e3];
    assert(s0.drop_first() =~= s1);
    assert(s1.drop_first() =~= s2);
    assert(s2.drop_first() =~= s3);
    assert(s3.drop_first() =~= Seq::<IspEventView>::empty());
    assert(isp_run(api_url, IspStep::AwaitStored, s3) == Some((IspStep::Done, seq![reply]))) by {
        assert(isp_run(api_url, IspStep::Done, Seq::empty()) == Some(
            (IspStep::Done, Seq::<IspActionView>::empty()),
        ));
        assert(seq![reply] + Seq::<IspActionView>::empty() =~= seq![reply]);
    }
    assert(isp_run(api_url, IspStep::AwaitLookup, s2) == Some(
        (IspStep::Done, seq![IspActionView::Store, reply]),
    )) by {
        assert(seq![IspActionView::Store] + seq![reply] =~= seq![IspActionView::Store, reply]);
    }
    assert(isp_run(api_url, IspStep::AwaitPublicAddress, s1) == Some(
        (IspStep::Done, seq![fetch, IspActionView::Store, reply]),
    )) by {
        assert(seq![fetch] + seq![IspActionView::Store, reply] =~= seq![
            fetch,
            IspActionView::Store,
            reply,
        ]);
    }
    assert(seq![IspActionView::LookupPublicAddress] + seq![fetch, IspActionView::Store, reply]
        =~= seq![IspActionView::LookupPublicAddress, fetch, IspActionView::Store, reply]);
}

} // verus!
