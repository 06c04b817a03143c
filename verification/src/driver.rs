//! The scan-filter-connect driver, written as an explicit state machine.
//!
//! The driver never performs a platform call itself. Each state asks for
//! exactly one next action ([`spec_action`] / [`action_of`]); the caller
//! performs it against the Bluetooth stack and hands the result back as
//! an [`Event`]; [`step`] then moves the driver to its next state. A full
//! run is therefore a sequence of events, and the laws below speak of the
//! sequence of states such a run passes through ([`state_trace`]).

use crate::properties::{extract_properties, spec_extract, PeripheralProperties, RawProperties};
use vstd::prelude::*;

verus! {

/// How long discovery runs before the peripheral list is read, in seconds.
pub const SCAN_DURATION_SECS: u64 = 10;

/// How long a connection is held before disconnecting, in seconds.
pub const CONNECT_HOLD_SECS: u64 = 5;

/// How a run that reached its end without a platform failure came out.
#[derive(Debug, Clone, Copy, PartialEq, Eq)]
pub enum Outcome {
    /// The scan discovered no peripherals at all.
    NoDevices,
    /// Every peripheral was examined and none advertised the vendor key.
    NoMatch,
    /// A matching peripheral was connected, held, and disconnected.
    Completed,
}

/// Which platform call failed. Any failure ends the whole run at once;
/// nothing is retried or partially recovered.
#[derive(Debug, Clone, Copy, PartialEq, Eq)]
pub enum Failure {
    /// No Bluetooth adapter exists.
    NoAdapter,
    /// Discovery could not be started.
    ScanFailed,
    /// A peripheral's property fetch failed.
    FetchFailed,
    /// A peripheral's property fetch succeeded but reported no data.
    NoProperties,
    /// Connecting to the matched peripheral failed.
    ConnectFailed,
    /// Disconnecting from the matched peripheral failed.
    DisconnectFailed,
}

/// The result of one property fetch, handed back by the platform layer.
#[derive(Debug, Clone, PartialEq, Eq)]
pub enum FetchOutcome {
    /// The platform call itself failed.
    Error,
    /// The call succeeded but reported no properties.
    Missing,
    /// The fetched properties.
    Ready(RawProperties),
}

/// An external happening the driver reacts to: the result of the action
/// it last asked for.
#[derive(Debug, Clone, PartialEq, Eq)]
pub enum Event {
    AdapterFound,
    AdapterMissing,
    ScanStarted,
    ScanFailed,
    PeripheralsListed { count: usize },
    PropertiesFetched(FetchOutcome),
    ConnectOk,
    ConnectErr,
    DisconnectOk,
    DisconnectErr,
}

/// What the driver asks the platform layer to do next.
#[derive(Debug, Clone, Copy, PartialEq, Eq)]
pub enum Action {
    /// Take the first available Bluetooth adapter.
    AcquireAdapter,
    /// Start discovery with no filter.
    StartScan,
    /// Wait out the scan window, then list the discovered peripherals.
    AwaitScanAndList,
    /// Fetch the properties of the peripheral at this discovery index.
    FetchProperties { index: usize },
    /// Report the matched snapshot and connect to this peripheral.
    Connect { index: usize },
    /// Hold the connection for the fixed delay, then disconnect.
    HoldAndDisconnect { index: usize },
    /// The run is over; the state carries its outcome or failure.
    Halt,
}

/// Where the driver stands in its single forward pass:
/// acquire adapter, scan, filter in discovery order, then either a single
/// connect-hold-disconnect or a no-match report.
#[derive(Debug, Clone, PartialEq, Eq)]
pub enum DriverState {
    /// Nothing has happened yet; an adapter is wanted.
    Init,
    /// An adapter is at hand; discovery has not started.
    AdapterReady,
    /// Discovery is running; the peripheral list is wanted.
    Scanning,
    /// Peripherals `0..next` were examined without a match; the
    /// properties of peripheral `next` (of `total`) are wanted.
    Filtering { next: usize, total: usize },
    /// Peripheral `index` matched; its snapshot is to be reported and a
    /// connection attempted.
    Connecting { index: usize, total: usize, snapshot: PeripheralProperties },
    /// Peripheral `index` is connected; the hold delay and disconnect
    /// are wanted.
    Holding { index: usize, total: usize },
    /// The run ended without a platform failure.
    Done(Outcome),
    /// The run was aborted by a platform failure.
    Failed(Failure),
}

/// Indices carried by a state stay within the discovered list.
pub open spec fn wf(s: DriverState) -> bool {
    match s {
        DriverState::Filtering { next, total } => next < total,
        DriverState::Connecting { index, total, .. } => index < total,
        DriverState::Holding { index, total } => index < total,
        _ => true,
    }
}

/// A state from which no event moves the driver: the run is over.
pub open spec fn is_terminal(s: DriverState) -> bool {
    s is Done || s is Failed
}

/// The transition function of the driver. An event that does not answer
/// the state's pending action leaves the state unchanged; in particular
/// terminal states absorb every event.
pub open spec fn spec_step(s: DriverState, e: Event) -> DriverState {
    match (s, e) {
        (DriverState::Init, Event::AdapterFound) => DriverState::AdapterReady,
        (DriverState::Init, Event::AdapterMissing) => DriverState::Failed(Failure::NoAdapter),
        (DriverState::AdapterReady, Event::ScanStarted) => DriverState::Scanning,
        (DriverState::AdapterReady, Event::ScanFailed) => DriverState::Failed(Failure::ScanFailed),
        (DriverState::Scanning, Event::PeripheralsListed { count }) => if count == 0 {
            DriverState::Done(Outcome::NoDevices)
        } else {
            DriverState::Filtering { next: 0, total: count }
        },
        (DriverState::Filtering { next, total }, Event::PropertiesFetched(outcome)) => match outcome {
            FetchOutcome::Error => DriverState::Failed(Failure::FetchFailed),
            FetchOutcome::Missing => DriverState::Failed(Failure::NoProperties),
            FetchOutcome::Ready(raw) => {
                let snapshot = spec_extract(raw);
                if snapshot.manufacturer_data.is_match() {
                    DriverState::Connecting { index: next, total, snapshot }
                } else if next + 1 < total {
                    DriverState::Filtering { next: (next + 1) as usize, total }
                } else {
                    DriverState::Done(Outcome::NoMatch)
                }
            },
        },
        (DriverState::Connecting { index, total, .. }, Event::ConnectOk) => DriverState::Holding {
            index,
            total,
        },
        (DriverState::Connecting { .. }, Event::ConnectErr) => DriverState::Failed(
            Failure::ConnectFailed,
        ),
        (DriverState::Holding { .. }, Event::DisconnectOk) => DriverState::Done(Outcome::Completed),
        (DriverState::Holding { .. }, Event::DisconnectErr) => DriverState::Failed(
            Failure::DisconnectFailed,
        ),
        (other, _) => other,
    }
}

/// The one action pending in a state.
pub open spec fn spec_action(s: DriverState) -> Action {
    match s {
        DriverState::Init => Action::AcquireAdapter,
        DriverState::AdapterReady => Action::StartScan,
        DriverState::Scanning => Action::AwaitScanAndList,
        DriverState::Filtering { next, .. } => Action::FetchProperties { index: next },
        DriverState::Connecting { index, .. } => Action::Connect { index },
        DriverState::Holding { index, .. } => Action::HoldAndDisconnect { index },
        DriverState::Done(_) => Action::Halt,
        DriverState::Failed(_) => Action::Halt,
    }
}

/// Advance the driver by one event.
pub fn step(s: DriverState, e: Event) -> (r: DriverState)
    requires
        wf(s),
    ensures
        r == spec_step(s, e),
        wf(r),
{
    match (s, e) {
        (DriverState::Init, Event::AdapterFound) => DriverState::AdapterReady,
        (DriverState::Init, Event::AdapterMissing) => DriverState::Failed(Failure::NoAdapter),
        (DriverState::AdapterReady, Event::ScanStarted) => DriverState::Scanning,
        (DriverState::AdapterReady, Event::ScanFailed) => DriverState::Failed(Failure::ScanFailed),
        (DriverState::Scanning, Event::PeripheralsListed { count }) => if count == 0 {
            DriverState::Done(Outcome::NoDevices)
        } else {
            DriverState::Filtering { next: 0, total: count }
        },
        (DriverState::Filtering { next, total }, Event::PropertiesFetched(outcome)) => match outcome {
            FetchOutcome::Error => DriverState::Failed(Failure::FetchFailed),
            FetchOutcome::Missing => DriverState::Failed(Failure::NoProperties),
            FetchOutcome::Ready(raw) => {
                let snapshot = extract_properties(raw);
                if snapshot.manufacturer_data.vendor_id.is_some() {
                    DriverState::Connecting { index: next, total, snapshot }
                } else if next + 1 < total {
                    DriverState::Filtering { next: next + 1, total }
                } else {
                    DriverState::Done(Outcome::NoMatch)
                }
            },
        },
        (DriverState::Connecting { index, total, .. }, Event::ConnectOk) => DriverState::Holding {
            index,
            total,
        },
        (DriverState::Connecting { .. }, Event::ConnectErr) => DriverState::Failed(
            Failure::ConnectFailed,
        ),
        (DriverState::Holding { .. }, Event::DisconnectOk) => DriverState::Done(Outcome::Completed),
        (DriverState::Holding { .. }, Event::DisconnectErr) => DriverState::Failed(
            Failure::DisconnectFailed,
        ),
        (other, _) => other,
    }
}

/// The action the platform layer should perform next.
pub fn action_of(s: &DriverState) -> (a: Action)
    ensures
        a == spec_action(*s),
{
    match s {
        DriverState::Init => Action::AcquireAdapter,
        DriverState::AdapterReady => Action::StartScan,
        DriverState::Scanning => Action::AwaitScanAndList,
        DriverState::Filtering { next, .. } => Action::FetchProperties { index: *next },
        DriverState::Connecting { index, .. } => Action::Connect { index: *index },
        DriverState::Holding { index, .. } => Action::HoldAndDisconnect { index: *index },
        DriverState::Done(_) => Action::Halt,
        DriverState::Failed(_) => Action::Halt,
    }
}

/// Every state a run passes through: the start state, then the state
/// after each event in turn. A trace over `es` has `es.len() + 1` states.
pub open spec fn state_trace(s: DriverState, es: Seq<Event>) -> Seq<DriverState>
    decreases es.len(),
{
    if es.len() == 0 {
        seq![s]
    } else {
        seq![s] + state_trace(spec_step(s, es[0]), es.drop_first())
    }
}

/// The state a run ends in.
pub open spec fn run_events(s: DriverState, es: Seq<Event>) -> DriverState {
    state_trace(s, es).last()
}

/// No state reached during the run asks for a connection.
pub open spec fn never_connects(s: DriverState, es: Seq<Event>) -> bool {
    forall|i: int|
        0 <= i < state_trace(s, es).len() ==> !(#[trigger] state_trace(s, es)[i] is Connecting)
}

/// No state reached during the run asks for a property fetch.
pub open spec fn never_fetches(s: DriverState, es: Seq<Event>) -> bool {
    forall|i: int|
        0 <= i < state_trace(s, es).len() ==> !(#[trigger] state_trace(s, es)[i] is Filtering)
}

/// The event the platform layer hands back for a fetch that returned
/// these properties.
pub open spec fn fetch_event(raw: RawProperties) -> Event {
    Event::PropertiesFetched(FetchOutcome::Ready(raw))
}

/// Whether fetched properties advertise the target vendor key.
pub open spec fn vendor_matches(raw: RawProperties) -> bool {
    spec_extract(raw).manufacturer_data.is_match()
}

/// An event reporting a successful fetch of non-matching properties.
pub open spec fn nonmatching_fetch(e: Event) -> bool {
    e matches Event::PropertiesFetched(FetchOutcome::Ready(raw)) && !vendor_matches(raw)
}

/// A trace always holds one more state than there are events.
pub proof fn lemma_trace_len(s: DriverState, es: Seq<Event>)
    ensures
        state_trace(s, es).len() == es.len() + 1,
        state_trace(s, es)[0] == s,
    decreases es.len(),
{
    if es.len() > 0 {
        lemma_trace_len(spec_step(s, es[0]), es.drop_first());
    }
}

/// Law: a finished run stays finished. From a terminal state no event
/// moves the driver, so every later state equals it, and neither a
/// connection nor a property fetch is ever asked for again.
pub proof fn lemma_terminal_absorbing(s: DriverState, es: Seq<Event>)
    requires
        is_terminal(s),
    ensures
        run_events(s, es) == s,
        forall|i: int| 0 <= i < state_trace(s, es).len() ==> #[trigger] state_trace(s, es)[i] == s,
        never_connects(s, es),
        never_fetches(s, es),
    decreases es.len(),
{
    if es.len() > 0 {
        assert(spec_step(s, es[0]) == s);
        lemma_terminal_absorbing(s, es.drop_first());
    }
}

/// Law: an empty peripheral list ends the run at once with the
/// "no devices" outcome, and whatever happens afterwards, the driver
/// never attempts a connection or another fetch.
pub proof fn lemma_empty_list_terminates(es: Seq<Event>)
    ensures
        spec_step(DriverState::Scanning, (Event::PeripheralsListed { count: 0 })) == DriverState::Done(
            Outcome::NoDevices,
        ),
        run_events(DriverState::Done(Outcome::NoDevices), es) == DriverState::Done(
            Outcome::NoDevices,
        ),
        never_connects(DriverState::Done(Outcome::NoDevices), es),
        never_fetches(DriverState::Done(Outcome::NoDevices), es),
{
    lemma_terminal_absorbing(DriverState::Done(Outcome::NoDevices), es);
}

/// Law: when none of the remaining peripherals advertises the vendor
/// key, the driver examines every one of them in discovery order, never
/// asks for a connection, and ends with the "no match" outcome. A scan
/// that listed `total` peripherals enters this situation at
/// `Filtering { next: 0, total }`.
pub proof fn lemma_no_match_examines_all(next: usize, total: usize, es: Seq<Event>)
    requires
        next < total,
        es.len() == total - next,
        forall|j: int| 0 <= j < es.len() ==> nonmatching_fetch(#[trigger] es[j]),
    ensures
        forall|n: usize|
            0 < n ==> spec_step(DriverState::Scanning, (Event::PeripheralsListed { count: n }))
                == (DriverState::Filtering { next: 0, total: n }),
        forall|j: int|
            0 <= j < es.len() ==> #[trigger] state_trace(
                (DriverState::Filtering { next, total }),
                es,
            )[j] == (DriverState::Filtering { next: (next + j) as usize, total }),
        run_events((DriverState::Filtering { next, total }), es) == DriverState::Done(
            Outcome::NoMatch,
        ),
        never_connects((DriverState::Filtering { next, total }), es),
    decreases es.len(),
{
    let s0 = DriverState::Filtering { next, total };
    let trace = state_trace(s0, es);
    lemma_trace_len(s0, es);
    if let Event::PropertiesFetched(FetchOutcome::Ready(raw)) = es[0] {
        let s1 = spec_step(s0, es[0]);
        if next + 1 < total {
            lemma_no_match_examines_all((next + 1) as usize, total, es.drop_first());
            assert forall|j: int| 0 <= j < es.len() implies #[trigger] trace[j]
                == (DriverState::Filtering { next: (next + j) as usize, total }) by {
                if j > 0 {
                    assert(trace[j] == state_trace(s1, es.drop_first())[j - 1]);
                }
            }
            assert(trace.last() == state_trace(s1, es.drop_first()).last());
        } else {
            assert(s1 == DriverState::Done(Outcome::NoMatch));
            assert(es.drop_first().len() == 0);
            assert(state_trace(s1, es.drop_first()) =~= seq![s1]);
            assert(trace =~= seq![s0, s1]);
        }
    }
}

/// Law: when the first peripheral does not match and the second does,
/// the run from the moment the list arrives passes through exactly these
/// states: filter the first, filter the second, connect to it, hold, and
/// finish. No peripheral after the match is ever examined, and exactly
/// one connect-hold-disconnect sequence is performed.
pub proof fn lemma_second_match_connects_once(
    total: usize,
    raw0: RawProperties,
    raw1: RawProperties,
)
    requires
        2 <= total,
        !vendor_matches(raw0),
        vendor_matches(raw1),
    ensures
        state_trace(
            DriverState::Scanning,
            seq![
                Event::PeripheralsListed { count: total },
                fetch_event(raw0),
                fetch_event(raw1),
                Event::ConnectOk,
                Event::DisconnectOk,
            ],
        ) =~= seq![
            DriverState::Scanning,
            (DriverState::Filtering { next: 0, total }),
            (DriverState::Filtering { next: 1, total }),
            (DriverState::Connecting { index: 1, total, snapshot: spec_extract(raw1) }),
            (DriverState::Holding { index: 1, total }),
            DriverState::Done(Outcome::Completed),
        ],
{
    let es = seq![
        Event::PeripheralsListed { count: total },
        fetch_event(raw0),
        fetch_event(raw1),
        Event::ConnectOk,
        Event::DisconnectOk,
    ];
    let s0 = DriverState::Scanning;
    let s1 = DriverState::Filtering { next: 0, total };
    let s2 = DriverState::Filtering { next: 1, total };
    let s3 = DriverState::Connecting { index: 1, total, snapshot: spec_extract(raw1) };
    let s4 = DriverState::Holding { index: 1, total };
    let s5 = DriverState::Done(Outcome::Completed);
    let es1 = es.drop_first();
    let es2 = es1.drop_first();
    let es3 = es2.drop_first();
    let es4 = es3.drop_first();
    let es5 = es4.drop_first();
    assert(spec_step(s0, es[0]) == s1);
    assert(es1[0] == fetch_event(raw0) && spec_step(s1, es1[0]) == s2);
    assert(es2[0] == fetch_event(raw1) && spec_step(s2, es2[0]) == s3);
    assert(es3[0] == Event::ConnectOk && spec_step(s3, es3[0]) == s4);
    assert(es4[0] == Event::DisconnectOk && spec_step(s4, es4[0]) == s5);
    assert(es5.len() == 0);
    assert(state_trace(s5, es5) =~= seq![s5]);
    assert(state_trace(s4, es4) =~= seq![s4] + state_trace(s5, es5));
    assert(state_trace(s3, es3) =~= seq![s3] + state_trace(s4, es4));
    assert(state_trace(s2, es2) =~= seq![s2] + state_trace(s3, es3));
    assert(state_trace(s1, es1) =~= seq![s1] + state_trace(s2, es2));
    assert(state_trace(s0, es) =~= seq![s0] + state_trace(s1, es1));
}

/// Law: a failed property fetch — the platform call erring, or answering
/// with no data — aborts the whole run at once from any filtering
/// position, and afterwards no further peripheral is examined and no
/// connection is ever attempted.
pub proof fn lemma_fetch_failure_aborts(next: usize, total: usize, es: Seq<Event>)
    requires
        next < total,
    ensures
        spec_step((DriverState::Filtering { next, total }), Event::PropertiesFetched(
            FetchOutcome::Error,
        )) == DriverState::Failed(Failure::FetchFailed),
        spec_step((DriverState::Filtering { next, total }), Event::PropertiesFetched(
            FetchOutcome::Missing,
        )) == DriverState::Failed(Failure::NoProperties),
        run_events(DriverState::Failed(Failure::FetchFailed), es) == DriverState::Failed(
            Failure::FetchFailed,
        ),
        never_fetches(DriverState::Failed(Failure::FetchFailed), es),
        never_connects(DriverState::Failed(Failure::FetchFailed), es),
        never_fetches(DriverState::Failed(Failure::NoProperties), es),
        never_connects(DriverState::Failed(Failure::NoProperties), es),
{
    lemma_terminal_absorbing(DriverState::Failed(Failure::FetchFailed), es);
    lemma_terminal_absorbing(DriverState::Failed(Failure::NoProperties), es);
}

} // verus!
