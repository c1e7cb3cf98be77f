use vstd::prelude::*;
use crate::reply;
use crate::reply::{Reply, ReplyView};

verus! {

/// A location posted by a client: the latitude and longitude exactly as the
/// client wrote them in its JSON body.
#[derive(Clone, Debug, PartialEq, Eq)]
pub struct ExactLocation {
    pub lat: String,
    pub lon: String,
}

/// Where the answer to a posted location stands.
#[derive(Clone, Debug, PartialEq, Eq)]
pub enum ExactStep {
    /// The body has not been read yet.
    AwaitBody,
    /// The longitude text is being parsed; the latitude text waits.
    AwaitLongitude { lat: String },
    /// The latitude text is being parsed.
    AwaitLatitude,
    /// Both numbers are being held against their ranges.
    AwaitRange,
    /// The location is being stored.
    AwaitStored,
    /// The reply has been given.
    Done,
}

/// What the caller reports back after doing what the last action asked.
#[derive(Debug, PartialEq, Eq)]
pub enum ExactEvent {
    /// The body parsed as a location, or did not.
    BodyParsed(Option<ExactLocation>),
    /// The longitude text parsed as a number, or did not.
    LongitudeParsed(bool),
    /// The latitude text parsed as a number, or did not.
    LatitudeParsed(bool),
    /// Whether the latitude lies in [-90, 90] and the longitude in [-180, 180].
    RangeChecked { lat_in_range: bool, lon_in_range: bool },
    /// The stored member, or why storing failed.
    Stored(Result<String, String>),
}

/// What the caller is asked to do next.
#[derive(Clone, Debug, PartialEq, Eq)]
pub enum ExactAction {
    ParseLongitude(String),
    ParseLatitude(String),
    CheckRange,
    Store,
    Respond(Reply),
}

pub enum ExactStepView {
    AwaitBody,
    AwaitLongitude { lat: Seq<char> },
    AwaitLatitude,
    AwaitRange,
    AwaitStored,
    Done,
}

pub enum ExactEventView {
    /// The latitude text and the longitude text, when the body parsed.
    BodyParsed(Option<(Seq<char>, Seq<char>)>),
    LongitudeParsed(bool),
    LatitudeParsed(bool),
    RangeChecked { lat_in_range: bool, lon_in_range: bool },
    Stored(Result<Seq<char>, Seq<char>>),
}

pub enum ExactActionView {
    ParseLongitude(Seq<char>),
    ParseLatitude(Seq<char>),
    CheckRange,
    Store,
    Respond(ReplyView),
}

impl View for ExactStep {
    type V = ExactStepView;

    open spec fn view(&self) -> ExactStepView {
        match self {
            ExactStep::AwaitBody => ExactStepView::AwaitBody,
            ExactStep::AwaitLongitude { lat } => ExactStepView::AwaitLongitude { lat: lat@ },
            ExactStep::AwaitLatitude => ExactStepView::AwaitLatitude,
            ExactStep::AwaitRange => ExactStepView::AwaitRange,
            ExactStep::AwaitStored => ExactStepView::AwaitStored,
            ExactStep::Done => ExactStepView::Done,
        }
    }
}

impl View for ExactEvent {
    type V = ExactEventView;

    open spec fn view(&self) -> ExactEventView {
        match self {
            ExactEvent::BodyParsed(None) => ExactEventView::BodyParsed(None),
            ExactEvent::BodyParsed(Some(loc)) => ExactEventView::BodyParsed(
                Some((loc.lat@, loc.lon@)),
            ),
            ExactEvent::LongitudeParsed(b) => ExactEventView::LongitudeParsed(*b),
            ExactEvent::LatitudeParsed(b) => ExactEventView::LatitudeParsed(*b),
            ExactEvent::RangeChecked { lat_in_range, lon_in_range } => ExactEventView::RangeChecked {
                lat_in_range: *lat_in_range,
                lon_in_range: *lon_in_range,
            },
            ExactEvent::Stored(Ok(m)) => ExactEventView::Stored(Ok(m@)),
            ExactEvent::Stored(Err(e)) => ExactEventView::Stored(Err(e@)),
        }
    }
}

impl View for ExactAction {
    type V = ExactActionView;

    open spec fn view(&self) -> ExactActionView {
        match self {
            ExactAction::ParseLongitude(s) => ExactActionView::ParseLongitude(s@),
            ExactAction::ParseLatitude(s) => ExactActionView::ParseLatitude(s@),
            ExactAction::CheckRange => ExactActionView::CheckRange,
            ExactAction::Store => ExactActionView::Store,
            ExactAction::Respond(r) => ExactActionView::Respond(r@),
        }
    }
}

/// Whether `event` is the report that `step` waits for.
pub open spec fn exact_accepts(step: ExactStepView, event: ExactEventView) -> bool {
    match step {
        ExactStepView::AwaitBody => event is BodyParsed,
        ExactStepView::AwaitLongitude { .. } => event is LongitudeParsed,
        ExactStepView::AwaitLatitude => event is LatitudeParsed,
        ExactStepView::AwaitRange => event is RangeChecked,
        ExactStepView::AwaitStored => event is Stored,
        ExactStepView::Done => false,
    }
}

/// The next step and the action that follow `event` at `step`: the checks
/// come in the order body, longitude, latitude, ranges, and the first that
/// fails is answered with its message; a failed store is answered with 500;
/// a stored location is answered with the stored member.
pub open spec fn exact_next(step: ExactStepView, event: ExactEventView) -> (
    ExactStepView,
    ExactActionView,
) {
    match event {
        ExactEventView::BodyParsed(None) => (
            ExactStepView::Done,
            ExactActionView::Respond(reply::error_reply(reply::malformed_json_message())),
        ),
        ExactEventView::BodyParsed(Some((lat, lon))) => (
            ExactStepView::AwaitLongitude { lat },
            ExactActionView::ParseLongitude(lon),
        ),
        ExactEventView::LongitudeParsed(ok) => if ok {
            match step {
                ExactStepView::AwaitLongitude { lat } => (
                    ExactStepView::AwaitLatitude,
                    ExactActionView::ParseLatitude(lat),
                ),
                _ => (step, ExactActionView::CheckRange),
            }
        } else {
            (
                ExactStepView::Done,
                ExactActionView::Respond(reply::error_reply(reply::invalid_longitude_message())),
            )
        },
        ExactEventView::LatitudeParsed(ok) => if ok {
            (ExactStepView::AwaitRange, ExactActionView::CheckRange)
        } else {
            (
                ExactStepView::Done,
                ExactActionView::Respond(reply::error_reply(reply::invalid_latitude_message())),
            )
        },
        ExactEventView::RangeChecked { lat_in_range, lon_in_range } => if lat_in_range
            && lon_in_range {
            (ExactStepView::AwaitStored, ExactActionView::Store)
        } else {
            (
                ExactStepView::Done,
                ExactActionView::Respond(reply::error_reply(reply::malformed_json_message())),
            )
        },
        ExactEventView::Stored(Err(_)) => (
            ExactStepView::Done,
            ExactActionView::Respond(ReplyView::InternalServerError),
        ),
        ExactEventView::Stored(Ok(member)) => (
            ExactStepView::Done,
            ExactActionView::Respond(ReplyView::Json { ok: true, response: member }),
        ),
    }
}

impl ExactStep {
    /// The step a posted location starts from.
    pub fn start() -> (step: ExactStep)
        ensures
            step@ == ExactStepView::AwaitBody,
    {
        ExactStep::AwaitBody
    }

    pub fn is_done(&self) -> (b: bool)
        ensures
            b == (self@ is Done),
    {
        match self {
            ExactStep::Done => true,
            _ => false,
        }
    }

    /// Whether `event` is the report this step waits for.
    pub fn accepts(&self, event: &ExactEvent) -> (b: bool)
        ensures
            b == exact_accepts(self@, event@),
    {
        match self {
            ExactStep::AwaitBody => matches!(event, ExactEvent::BodyParsed(_)),
            ExactStep::AwaitLongitude { .. } => matches!(event, ExactEvent::LongitudeParsed(_)),
            ExactStep::AwaitLatitude => matches!(event, ExactEvent::LatitudeParsed(_)),
            ExactStep::AwaitRange => matches!(event, ExactEvent::RangeChecked { .. }),
            ExactStep::AwaitStored => matches!(event, ExactEvent::Stored(_)),
            ExactStep::Done => false,
        }
    }

    /// Takes the report of the last action and decides what comes next.
    pub fn next(self, event: ExactEvent) -> (res: (ExactStep, ExactAction))
        requires
            exact_accepts(self@, event@),
        ensures
            (res.0@, res.1@) == exact_next(self@, event@),
    {
        match event {
            ExactEvent::BodyParsed(None) => (
                ExactStep::Done,
                ExactAction::Respond(Reply::error("Malformed location json")),
            ),
            ExactEvent::BodyParsed(Some(loc)) => (
                ExactStep::AwaitLongitude { lat: loc.lat },
                ExactAction::ParseLongitude(loc.lon),
            ),
            ExactEvent::LongitudeParsed(ok) => {
                if ok {
                    match self {
                        ExactStep::AwaitLongitude { lat } => (
                            ExactStep::AwaitLatitude,
                            ExactAction::ParseLatitude(lat),
                        ),
                        _ => (self, ExactAction::CheckRange),
                    }
                } else {
                    (
                        ExactStep::Done,
                        ExactAction::Respond(Reply::error("Invalid longitude coordinates")),
                    )
                }
            },
            ExactEvent::LatitudeParsed(ok) => {
                if ok {
                    (ExactStep::AwaitRange, ExactAction::CheckRange)
                } else {
                    (
                        ExactStep::Done,
                        ExactAction::Respond(Reply::error("Invalid latitude coordinates")),
                    )
                }
            },
            ExactEvent::RangeChecked { lat_in_range, lon_in_range } => {
                if lat_in_range && lon_in_range {
                    (ExactStep::AwaitStored, ExactAction::Store)
                } else {
                    (
                        ExactStep::Done,
                        ExactAction::Respond(Reply::error("Malformed location json")),
                    )
                }
            },
            ExactEvent::Stored(Err(_)) => (
                ExactStep::Done,
                ExactAction::Respond(Reply::InternalServerError),
            ),
            ExactEvent::Stored(Ok(member)) => (
                ExactStep::Done,
                ExactAction::Respond(Reply::success(member)),
            ),
        }
    }
}

} // verus!

verus! {

/// The step reached and the actions asked for when the reports `events`
/// arrive one after another from `step`; `None` once a report comes that the
/// step does not wait for.
pub open spec fn exact_run(step: ExactStepView, events: Seq<ExactEventView>) -> Option<
    (ExactStepView, Seq<ExactActionView>),
>
    decreases events.len(),
{
    if events.len() == 0 {
        Some((step, Seq::empty()))
    } else if !exact_accepts(step, events[0]) {
        None
    } else {
        let (next, action) = exact_next(step, events[0]);
        match exact_run(next, events.drop_first()) {
            Some((last, actions)) => Some((last, seq![action] + actions)),
            None => None,
        }
    }
}

/// How many reports `step` still waits for, at most.
pub open spec fn exact_remaining(step: ExactStepView) -> nat {
    match step {
        ExactStepView::AwaitBody => 5,
        ExactStepView::AwaitLongitude { .. } => 4,
        ExactStepView::AwaitLatitude => 3,
        ExactStepView::AwaitRange => 2,
        ExactStepView::AwaitStored => 1,
        ExactStepView::Done => 0,
    }
}

/// One step of a run: the first report is accepted, its action comes first,
/// and the rest of the run goes on from the step it leads to.
proof fn lemma_exact_run_unfold(step: ExactStepView, events: Seq<ExactEventView>)
    requires
        events.len() > 0,
        exact_run(step, events) is Some,
    ensures
        exact_accepts(step, events[0]),
        exact_run(exact_next(step, events[0]).0, events.drop_first()) is Some,
        (exact_run(step, events)->0).0 == (exact_run(exact_next(step, events[0]).0, events.drop_first())->0).0,
        (exact_run(step, events)->0).1 == seq![exact_next(step, events[0]).1] + (exact_run(exact_next(step, events[0]).0, events.drop_first())->0).1,
{
}

/// Every run asks for one action per report, takes at most as many reports
/// as the step still waits for, answers at most once and only with its last
/// action, is finished exactly when it has answered, and is finished once it
/// took all the reports the step could wait for: every posted location is
/// answered exactly once.
pub proof fn lemma_exact_run_answers_once(step: ExactStepView, events: Seq<ExactEventView>)
    requires
        exact_run(step, events) is Some,
    ensures
        ({
            let (last, actions) = exact_run(step, events)->0;
            &&& actions.len() == events.len()
            &&& events.len() <= exact_remaining(step)
            &&& forall|k: int| 0 <= k < actions.len() - 1 ==> !(#[trigger] actions[k] is Respond)
            &&& (last is Done <==> ((step is Done && events.len() == 0) || (actions.len() > 0
                && actions.last() is Respond)))
            &&& (events.len() == exact_remaining(step) ==> last is Done)
        }),
    decreases events.len(),
{
    if events.len() > 0 {
        lemma_exact_run_unfold(step, events);
        let (next, action) = exact_next(step, events[0]);
        let rest = events.drop_first();
        lemma_exact_run_answers_once(next, rest);
        let (last, actions) = exact_run(step, events)->0;
        let tail = (exact_run(next, rest)->0).1;
        assert(actions == seq![action] + tail);
        if next is Done {
            assert(rest.len() == 0);
        }
        assert forall|k: int| 0 <= k < actions.len() - 1 implies !(#[trigger] actions[k] is Respond) by {
            if k > 0 {
                assert(actions[k] == tail[k - 1]);
            }
        }
        if tail.len() > 0 {
            assert(actions.last() == tail.last());
        }
    }
}

} // verus!

verus! {

/// How far along the checks `step` stands.
pub open spec fn exact_position(step: ExactStepView) -> int {
    5 - exact_remaining(step)
}

/// Whether `event` is the passing report for the check at `position`: a
/// parsed body, a parsed longitude, a parsed latitude, both numbers in range.
pub open spec fn exact_passes(position: int, event: ExactEventView) -> bool {
    if position == 0 {
        event matches ExactEventView::BodyParsed(Some(_))
    } else if position == 1 {
        event == ExactEventView::LongitudeParsed(true)
    } else if position == 2 {
        event == ExactEventView::LatitudeParsed(true)
    } else if position == 3 {
        event == (ExactEventView::RangeChecked { lat_in_range: true, lon_in_range: true })
    } else {
        false
    }
}

/// A report that does not end the exchange is the passing one for its check,
/// and moves the exchange one check further.
proof fn lemma_exact_next_advances(step: ExactStepView, event: ExactEventView)
    requires
        exact_accepts(step, event),
        !(exact_next(step, event).0 is Done),
    ensures
        exact_position(exact_next(step, event).0) == exact_position(step) + 1,
        exact_passes(exact_position(step), event),
{
}

proof fn lemma_exact_store_path(step: ExactStepView, events: Seq<ExactEventView>, k: int)
    requires
        exact_run(step, events) is Some,
        0 <= k < events.len(),
        (exact_run(step, events)->0).1[k] == ExactActionView::Store,
    ensures
        exact_position(step) + k == 3,
        forall|j: int| 0 <= j <= k ==> exact_passes(exact_position(step) + j, #[trigger] events[j]),
    decreases events.len(),
{
    lemma_exact_run_unfold(step, events);
    let (next, action) = exact_next(step, events[0]);
    let rest = events.drop_first();
    lemma_exact_run_answers_once(step, events);
    lemma_exact_run_answers_once(next, rest);
    if k > 0 {
        let tail = (exact_run(next, rest)->0).1;
        assert(tail[k - 1] == (exact_run(step, events)->0).1[k]);
        assert((exact_run(next, rest)->0).1[k - 1] == ExactActionView::Store);
        lemma_exact_store_path(next, rest, k - 1);
        lemma_exact_next_advances(step, events[0]);
        assert forall|j: int| 0 <= j <= k implies exact_passes(
            exact_position(step) + j,
            #[trigger] events[j],
        ) by {
            if j > 0 {
                assert(events[j] == rest[j - 1]);
            }
        }
    }
}

proof fn lemma_exact_success_path(
    step: ExactStepView,
    events: Seq<ExactEventView>,
    k: int,
    member: Seq<char>,
)
    requires
        exact_run(step, events) is Some,
        0 <= k < events.len(),
        (exact_run(step, events)->0).1[k] == ExactActionView::Respond(
            ReplyView::Json { ok: true, response: member },
        ),
    ensures
        exact_position(step) + k == 4,
        forall|j: int| 0 <= j < k ==> exact_passes(exact_position(step) + j, #[trigger] events[j]),
        events[k] == ExactEventView::Stored(Ok(member)),
    decreases events.len(),
{
    lemma_exact_run_unfold(step, events);
    let (next, action) = exact_next(step, events[0]);
    let rest = events.drop_first();
    lemma_exact_run_answers_once(step, events);
    lemma_exact_run_answers_once(next, rest);
    if k > 0 {
        let tail = (exact_run(next, rest)->0).1;
        assert(tail[k - 1] == (exact_run(step, events)->0).1[k]);
        assert((exact_run(next, rest)->0).1[k - 1] == ExactActionView::Respond(
            ReplyView::Json { ok: true, response: member },
        ));
        lemma_exact_success_path(next, rest, k - 1, member);
        lemma_exact_next_advances(step, events[0]);
        assert forall|j: int| 0 <= j < k implies exact_passes(
            exact_position(step) + j,
            #[trigger] events[j],
        ) by {
            if j > 0 {
                assert(events[j] == rest[j - 1]);
            }
        }
        assert(events[k] == rest[k - 1]);
    }
}

/// A posted location is stored only after its body parsed, its longitude
/// parsed, its latitude parsed and both numbers were found in range, in that
/// order, and it is the fourth thing asked for.
pub proof fn lemma_exact_stores_only_valid_locations(events: Seq<ExactEventView>, k: int)
    requires
        exact_run(ExactStepView::AwaitBody, events) is Some,
        0 <= k < events.len(),
        (exact_run(ExactStepView::AwaitBody, events)->0).1[k] == ExactActionView::Store,
    ensures
        k == 3,
        events[0] matches ExactEventView::BodyParsed(Some(_)),
        events[1] == ExactEventView::LongitudeParsed(true),
        events[2] == ExactEventView::LatitudeParsed(true),
        events[3] == (ExactEventView::RangeChecked { lat_in_range: true, lon_in_range: true }),
{
    lemma_exact_store_path(ExactStepView::AwaitBody, events, k);
    assert(exact_passes(0, events[0]));
    assert(exact_passes(1, events[1]));
    assert(exact_passes(2, events[2]));
    assert(exact_passes(3, events[3]));
}

/// A posted location is answered with status "ok" only after every check
/// passed and the store reported the member, and the answer is that member.
pub proof fn lemma_exact_success_reports_stored_member(
    events: Seq<ExactEventView>,
    k: int,
    member: Seq<char>,
)
    requires
        exact_run(ExactStepView::AwaitBody, events) is Some,
        0 <= k < events.len(),
        (exact_run(ExactStepView::AwaitBody, events)->0).1[k] == ExactActionView::Respond(
            ReplyView::Json { ok: true, response: member },
        ),
    ensures
        k == 4,
        events[0] matches ExactEventView::BodyParsed(Some(_)),
        events[1] == ExactEventView::LongitudeParsed(true),
        events[2] == ExactEventView::LatitudeParsed(true),
        events[3] == (ExactEventView::RangeChecked { lat_in_range: true, lon_in_range: true }),
        events[4] == ExactEventView::Stored(Ok(member)),
{
    lemma_exact_success_path(ExactStepView::AwaitBody, events, k, member);
    assert(exact_passes(0, events[0]));
    assert(exact_passes(1, events[1]));
    assert(exact_passes(2, events[2]));
    assert(exact_passes(3, events[3]));
}

} // verus!

verus! {

/// A run asks to store at most once: the exact location is stored at most
/// once per request.
pub proof fn lemma_exact_stores_at_most_once(events: Seq<ExactEventView>, k1: int, k2: int)
    requires
        exact_run(ExactStepView::AwaitBody, events) is Some,
        0 <= k1 < events.len(),
        0 <= k2 < events.len(),
        (exact_run(ExactStepView::AwaitBody, events)->0).1[k1] == ExactActionView::Store,
        (exact_run(ExactStepView::AwaitBody, events)->0).1[k2] == ExactActionView::Store,
    ensures
        k1 == k2,
{
    lemma_exact_stores_only_valid_locations(events, k1);
    lemma_exact_stores_only_valid_locations(events, k2);
}

} // verus!

verus! {

/// A location whose body parses, whose longitude and latitude parse and lie
/// in range, and which the store accepts, goes through every check in order
/// (longitude first) and is answered with status "ok" and the stored
/// member, whatever its coordinates are.
pub proof fn lemma_exact_valid_location_is_stored(
    lat: Seq<char>,
    lon: Seq<char>,
    member: Seq<char>,
)
    ensures
        exact_run(
            ExactStepView::AwaitBody,
            seq![
                ExactEventView::BodyParsed(Some((lat, lon))),
                ExactEventView::LongitudeParsed(true),
                ExactEventView::LatitudeParsed(true),
                ExactEventView::RangeChecked { lat_in_range: true, lon_in_range: true },
                ExactEventView::Stored(Ok(member)),
            ],
        ) == Some(
            (
                ExactStepView::Done,
                seq![
                    ExactActionView::ParseLongitude(lon),
                    ExactActionView::ParseLatitude(lat),
                    ExactActionView::CheckRange,
                    ExactActionView::Store,
                    ExactActionView::Respond(ReplyView::Json { ok: true, response: member }),
                ],
            ),
        ),
{
    let e0 = ExactEventView::BodyParsed(Some((lat, lon)));
    let e1 = ExactEventView::LongitudeParsed(true);
    let e2 = ExactEventView::LatitudeParsed(true);
    let e3 = ExactEventView::RangeChecked { lat_in_range: true, lon_in_range: true };
    let e4 = ExactEventView::Stored(Ok(member));
    let s4 = seq![e4];
    let s3 = seq![e3, e4];
    let s2 = seq![e2, e3, e4];
    let s1 = seq![e1, e2, e3, e4];
    let s0 = seq![e0, e1, e2, e3, e4];
    assert(s0.drop_first() =~= s1);
    assert(s1.drop_first() =~= s2);
    assert(s2.drop_first() =~= s3);
    assert(s3.drop_first() =~= s4);
    assert(s4.drop_first() =~= Seq::<ExactEventView>::empty());
    let reply = ExactActionView::Respond(ReplyView::Json { ok: true, response: member });
    assert(exact_run(ExactStepView::Done, Seq::empty()) == Some(
        (ExactStepView::Done, Seq::<ExactActionView>::empty()),
    ));
    assert(exact_run(ExactStepView::AwaitStored, s4) == Some(
        (ExactStepView::Done, seq![reply]),
    )) by {
        assert(seq![reply] + Seq::<ExactActionView>::empty() =~= seq![reply]);
    }
    assert(exact_run(ExactStepView::AwaitRange, s3) == Some(
        (ExactStepView::Done, seq![ExactActionView::Store, reply]),
    )) by {
        assert(seq![ExactActionView::Store] + seq![reply] =~= seq![ExactActionView::Store, reply]);
    }
    assert(exact_run(ExactStepView::AwaitLatitude, s2) == Some(
        (ExactStepView::Done, seq![ExactActionView::CheckRange, ExactActionView::Store, reply]),
    )) by {
        assert(seq![ExactActionView::CheckRange] + seq![ExactActionView::Store, reply] =~= seq![
            ExactActionView::CheckRange,
            ExactActionView::Store,
            reply,
        ]);
    }
    assert(exact_run(ExactStepView::AwaitLongitude { lat }, s1) == Some(
        (
            ExactStepView::Done,
            seq![
                ExactActionView::ParseLatitude(lat),
                ExactActionView::CheckRange,
                ExactActionView::Store,
                reply,
            ],
        ),
    )) by {
        assert(seq![ExactActionView::ParseLatitude(lat)] + seq![
            ExactActionView::CheckRange,
            ExactActionView::Store,
            reply,
        ] =~= seq![
            ExactActionView::ParseLatitude(lat),
            ExactActionView::CheckRange,
            ExactActionView::Store,
            reply,
        ]);
    }
    assert(seq![ExactActionView::ParseLongitude(lon)] + seq![
        ExactActionView::ParseLatitude(lat),
        ExactActionView::CheckRange,
        ExactActionView::Store,
        reply,
    ] =~= seq![
        ExactActionView::ParseLongitude(lon),
        ExactActionView::ParseLatitude(lat),
        ExactActionView::CheckRange,
        ExactActionView::Store,
        reply,
    ]);
}

/// Each report decides the exchange on its own: a parsed body always asks
/// for its longitude text to be parsed, a parsed longitude for the latitude
/// text, a parsed latitude for the range check, coordinates in range for the
/// store, and a stored member is the "ok" answer; each failing report ends
/// the exchange with its own answer, whatever the texts are.
pub proof fn lemma_exact_each_report(lat: Seq<char>, lon: Seq<char>, member: Seq<char>, cause: Seq<char>, lat_in_range: bool, lon_in_range: bool)
    ensures
        exact_next(ExactStepView::AwaitBody, ExactEventView::BodyParsed(Some((lat, lon))))
            == (ExactStepView::AwaitLongitude { lat }, ExactActionView::ParseLongitude(lon)),
        exact_next(ExactStepView::AwaitBody, ExactEventView::BodyParsed(None)) == (
            ExactStepView::Done,
            ExactActionView::Respond(ReplyView::Json { ok: false, response: "Malformed location json"@ }),
        ),
        exact_next(ExactStepView::AwaitLongitude { lat }, ExactEventView::LongitudeParsed(true))
            == (ExactStepView::AwaitLatitude, ExactActionView::ParseLatitude(lat)),
        exact_next(ExactStepView::AwaitLongitude { lat }, ExactEventView::LongitudeParsed(false))
            == (
            ExactStepView::Done,
            ExactActionView::Respond(ReplyView::Json { ok: false, response: "Invalid longitude coordinates"@ }),
        ),
        exact_next(ExactStepView::AwaitLatitude, ExactEventView::LatitudeParsed(true)) == (
            ExactStepView::AwaitRange,
            ExactActionView::CheckRange,
        ),
        exact_next(ExactStepView::AwaitLatitude, ExactEventView::LatitudeParsed(false)) == (
            ExactStepView::Done,
            ExactActionView::Respond(ReplyView::Json { ok: false, response: "Invalid latitude coordinates"@ }),
        ),
        exact_next(
            ExactStepView::AwaitRange,
            ExactEventView::RangeChecked { lat_in_range, lon_in_range },
        ) == if lat_in_range && lon_in_range {
            (ExactStepView::AwaitStored, ExactActionView::Store)
        } else {
            (
                ExactStepView::Done,
                ExactActionView::Respond(ReplyView::Json { ok: false, response: "Malformed location json"@ }),
            )
        },
        exact_next(ExactStepView::AwaitStored, ExactEventView::Stored(Ok(member))) == (
            ExactStepView::Done,
            ExactActionView::Respond(ReplyView::Json { ok: true, response: member }),
        ),
        exact_next(ExactStepView::AwaitStored, ExactEventView::Stored(Err(cause))) == (
            ExactStepView::Done,
            ExactActionView::Respond(ReplyView::InternalServerError),
        ),
{
}

} // verus!
