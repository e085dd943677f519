//! The emulation engine: translates controller events into keyboard events.
//!
//! Buttons pass through the key mapping. A stick pushed past the threshold
//! becomes one tap (press, then release) of an arrow key, at most once per
//! debounce window and axis.
use vstd::prelude::*;

use crate::keys::{
    lemma_lookup_finds_pair, lookup, supported_key_seq, KeyCode, KeyMapping, KEY_DOWN, KEY_LEFT,
    KEY_RIGHT, KEY_UP,
};

verus! {

/// Deflection that an axis reading must exceed, in magnitude, to count.
pub const AXIS_THRESHOLD: i32 = 30000;

/// Milliseconds that must pass between two taps of the same axis.
pub const DEBOUNCE_MS: u64 = 150;

/// One of the two monitored stick axes.
#[derive(Clone, Copy, PartialEq, Eq, Debug, Structural)]
pub enum Axis {
    Horizontal,
    Vertical,
}

/// What a raw controller event reports.
#[derive(Clone, Copy, PartialEq, Eq, Debug, Structural)]
pub enum EventKind {
    /// A digital button, by its code.
    Button(KeyCode),
    /// A reading of one of the monitored axes.
    Axis(Axis),
    /// Anything else: other axes, sync reports, misc events.
    Other,
}

/// A raw controller event, with its own timestamp in microseconds.
#[derive(Clone, Copy, PartialEq, Eq, Debug, Structural)]
pub struct InputEvent {
    pub kind: EventKind,
    pub value: i32,
    pub time_us: u64,
}

/// A key transition for the virtual keyboard: 0 releases, 1 presses.
#[derive(Clone, Copy, PartialEq, Eq, Debug, Structural)]
pub struct KeyEmission {
    pub key: KeyCode,
    pub value: i32,
}

/// Time of the last accepted tap of each axis, in microseconds.
#[derive(Clone, Copy, PartialEq, Eq, Debug, Structural)]
pub struct AxisDebounceState {
    pub horizontal_us: u64,
    pub vertical_us: u64,
}

impl AxisDebounceState {
    /// Both axes start at the engine's start time.
    pub fn new(start_us: u64) -> (r: AxisDebounceState)
        ensures
            r.horizontal_us == start_us,
            r.vertical_us == start_us,
    {
        AxisDebounceState { horizontal_us: start_us, vertical_us: start_us }
    }

    pub open spec fn last_fire(self, axis: Axis) -> u64 {
        match axis {
            Axis::Horizontal => self.horizontal_us,
            Axis::Vertical => self.vertical_us,
        }
    }

    pub open spec fn with_fire(self, axis: Axis, t: u64) -> AxisDebounceState {
        match axis {
            Axis::Horizontal => AxisDebounceState { horizontal_us: t, ..self },
            Axis::Vertical => AxisDebounceState { vertical_us: t, ..self },
        }
    }

    fn last_fire_exec(&self, axis: Axis) -> (r: u64)
        ensures
            r == self.last_fire(axis),
    {
        match axis {
            Axis::Horizontal => self.horizontal_us,
            Axis::Vertical => self.vertical_us,
        }
    }
}

pub open spec fn abs(v: i32) -> int {
    if v < 0 {
        -(v as int)
    } else {
        v as int
    }
}

/// The reading is deflected beyond the threshold.
pub open spec fn exceeds_threshold(value: i32) -> bool {
    abs(value) > AXIS_THRESHOLD
}

/// More than the debounce window lies between the last tap at `last_us` and
/// an event at `t_us`: an event exactly one window later does not pass. An event stamped before
/// the last tap never passes.
pub open spec fn window_passed(last_us: u64, t_us: u64) -> bool {
    t_us >= last_us && t_us - last_us > DEBOUNCE_MS * 1000
}

/// An axis event that produces a tap, given the debounce state.
pub open spec fn axis_fires(st: AxisDebounceState, axis: Axis, ev: InputEvent) -> bool {
    exceeds_threshold(ev.value) && window_passed(st.last_fire(axis), ev.time_us)
}

/// The arrow key for a deflection: left and up for negative readings, right
/// and down for positive ones.
pub open spec fn direction_key(axis: Axis, value: i32) -> KeyCode {
    match axis {
        Axis::Horizontal => if value < 0 { KEY_LEFT } else { KEY_RIGHT },
        Axis::Vertical => if value < 0 { KEY_UP } else { KEY_DOWN },
    }
}

/// A press immediately followed by a release.
pub open spec fn tap(key: KeyCode) -> Seq<KeyEmission> {
    seq![KeyEmission { key, value: 1 }, KeyEmission { key, value: 0 }]
}

/// What the engine emits for one event.
pub open spec fn event_emissions(
    mapping: Seq<(KeyCode, KeyCode)>,
    st: AxisDebounceState,
    ev: InputEvent,
) -> Seq<KeyEmission> {
    match ev.kind {
        EventKind::Button(code) => match lookup(mapping, code) {
            Some(key) => seq![KeyEmission { key, value: ev.value }],
            None => Seq::empty(),
        },
        EventKind::Axis(axis) => if axis_fires(st, axis, ev) {
            tap(direction_key(axis, ev.value))
        } else {
            Seq::empty()
        },
        EventKind::Other => Seq::empty(),
    }
}

/// The debounce state after one event.
pub open spec fn next_debounce(st: AxisDebounceState, ev: InputEvent) -> AxisDebounceState {
    match ev.kind {
        EventKind::Axis(axis) => if axis_fires(st, axis, ev) {
            st.with_fire(axis, ev.time_us)
        } else {
            st
        },
        _ => st,
    }
}

/// The debounce state and the emissions after a sequence of events.
pub open spec fn run_events(
    mapping: Seq<(KeyCode, KeyCode)>,
    st: AxisDebounceState,
    evs: Seq<InputEvent>,
) -> (AxisDebounceState, Seq<KeyEmission>)
    decreases evs.len(),
{
    if evs.len() == 0 {
        (st, Seq::empty())
    } else {
        let prev = run_events(mapping, st, evs.drop_last());
        (
            next_debounce(prev.0, evs.last()),
            prev.1 + event_emissions(mapping, prev.0, evs.last()),
        )
    }
}

/// The state of one emulation run: its mapping and its axis debounce state.
pub struct Engine {
    pub mapping: KeyMapping,
    pub debounce: AxisDebounceState,
}

impl Engine {
    /// An engine that started at `start_us`.
    pub fn new(mapping: KeyMapping, start_us: u64) -> (r: Engine)
        ensures
            r.mapping@ == mapping@,
            r.debounce.horizontal_us == start_us,
            r.debounce.vertical_us == start_us,
    {
        Engine { mapping, debounce: AxisDebounceState::new(start_us) }
    }

    /// Handles one event: returns the key transitions to emit, in order, and
    /// updates the debounce state.
    pub fn process_event(&mut self, ev: InputEvent) -> (out: Vec<KeyEmission>)
        ensures
            out@ == event_emissions(old(self).mapping@, old(self).debounce, ev),
            final(self).debounce == next_debounce(old(self).debounce, ev),
            final(self).mapping@ == old(self).mapping@,
    {
        let mut out: Vec<KeyEmission> = Vec::new();
        match ev.kind {
            EventKind::Button(code) => {
                if let Some(key) = self.mapping.lookup(code) {
                    out.push(KeyEmission { key, value: ev.value });
                }
            },
            EventKind::Axis(axis) => {
                let deflected = ev.value > AXIS_THRESHOLD || ev.value < -AXIS_THRESHOLD;
                let last = self.debounce.last_fire_exec(axis);
                if deflected && ev.time_us >= last && ev.time_us - last > DEBOUNCE_MS * 1000 {
                    match axis {
                        Axis::Horizontal => self.debounce.horizontal_us = ev.time_us,
                        Axis::Vertical => self.debounce.vertical_us = ev.time_us,
                    }
                    let key = match axis {
                        Axis::Horizontal => if ev.value < 0 { KEY_LEFT } else { KEY_RIGHT },
                        Axis::Vertical => if ev.value < 0 { KEY_UP } else { KEY_DOWN },
                    };
                    out.push(KeyEmission { key, value: 1 });
                    out.push(KeyEmission { key, value: 0 });
                }
            },
            EventKind::Other => {},
        }
        assert(out@ =~= event_emissions(old(self).mapping@, old(self).debounce, ev));
        out
    }

    /// Handles a fetched batch of events in order: returns all key transitions
    /// to emit, in order.
    pub fn process_batch(&mut self, events: &Vec<InputEvent>) -> (out: Vec<KeyEmission>)
        ensures
            out@ == run_events(old(self).mapping@, old(self).debounce, events@).1,
            final(self).debounce == run_events(old(self).mapping@, old(self).debounce, events@).0,
            final(self).mapping@ == old(self).mapping@,
    {
        let ghost m = self.mapping@;
        let ghost st0 = self.debounce;
        let mut out: Vec<KeyEmission> = Vec::new();
        let mut i: usize = 0;
        assert(events@.subrange(0, 0) =~= Seq::<InputEvent>::empty());
        while i < events.len()
            invariant
                0 <= i <= events@.len(),
                self.mapping@ == m,
                self.debounce == run_events(m, st0, events@.subrange(0, i as int)).0,
                out@ == run_events(m, st0, events@.subrange(0, i as int)).1,
            decreases events@.len() - i,
        {
            let ev = events[i];
            let mut step = self.process_event(ev);
            out.append(&mut step);
            proof {
                let pre = events@.subrange(0, i + 1);
                assert(pre.drop_last() =~= events@.subrange(0, i as int));
                assert(pre.last() == ev);
            }
            i = i + 1;
        }
        assert(events@.subrange(0, events@.len() as int) =~= events@);
        out
    }
}

/// A deflection within the threshold emits nothing and leaves the debounce
/// state as it was.
pub proof fn lemma_small_deflection_is_silent(
    mapping: Seq<(KeyCode, KeyCode)>,
    st: AxisDebounceState,
    axis: Axis,
    ev: InputEvent,
)
    requires
        ev.kind == EventKind::Axis(axis),
        abs(ev.value) <= AXIS_THRESHOLD,
    ensures
        event_emissions(mapping, st, ev) == Seq::<KeyEmission>::empty(),
        next_debounce(st, ev) == st,
{
}

/// A deflection past the threshold that comes less than the debounce window
/// after the axis's last tap emits nothing and leaves the state as it was.
pub proof fn lemma_tap_within_window_is_silent(
    mapping: Seq<(KeyCode, KeyCode)>,
    st: AxisDebounceState,
    axis: Axis,
    ev: InputEvent,
)
    requires
        ev.kind == EventKind::Axis(axis),
        abs(ev.value) > AXIS_THRESHOLD,
        (ev.time_us as int) - (st.last_fire(axis) as int) < DEBOUNCE_MS * 1000,
    ensures
        event_emissions(mapping, st, ev) == Seq::<KeyEmission>::empty(),
        next_debounce(st, ev) == st,
{
}

/// A deflection past the threshold that comes more than the debounce window
/// after the axis's last tap emits one press and one release of the arrow key for its sign, and moves that axis's last tap, and
/// only that one, to the event's time.
pub proof fn lemma_tap_after_window(
    mapping: Seq<(KeyCode, KeyCode)>,
    st: AxisDebounceState,
    axis: Axis,
    ev: InputEvent,
)
    requires
        ev.kind == EventKind::Axis(axis),
        abs(ev.value) > AXIS_THRESHOLD,
        ev.time_us >= st.last_fire(axis),
        ev.time_us - st.last_fire(axis) > DEBOUNCE_MS * 1000,
    ensures
        ({
            let key = if ev.value < 0 {
                if axis == Axis::Horizontal { KEY_LEFT } else { KEY_UP }
            } else {
                if axis == Axis::Horizontal { KEY_RIGHT } else { KEY_DOWN }
            };
            event_emissions(mapping, st, ev) == seq![
                KeyEmission { key, value: 1 },
                KeyEmission { key, value: 0 },
            ]
        }),
        next_debounce(st, ev).last_fire(axis) == ev.time_us,
        forall|other: Axis| other != axis ==> next_debounce(st, ev).last_fire(other) == st.last_fire(other),
{
}

/// A button that the mapping knows emits exactly one transition: the mapped
/// key, with the button's raw value unchanged, whatever that value is.
pub proof fn lemma_mapped_button_passes_through(
    mapping: Seq<(KeyCode, KeyCode)>,
    st: AxisDebounceState,
    code: KeyCode,
    ev: InputEvent,
)
    requires
        ev.kind == EventKind::Button(code),
        exists|i: int| 0 <= i < mapping.len() && mapping[i].0 == code,
    ensures
        event_emissions(mapping, st, ev).len() == 1,
        event_emissions(mapping, st, ev)[0].value == ev.value,
        exists|i: int|
            0 <= i < mapping.len() && mapping[i] == (code, event_emissions(mapping, st, ev)[0].key),
        forall|i: int|
            0 <= i < mapping.len() && mapping[i].0 == code && (forall|j: int|
                0 <= j < mapping.len() && mapping[j].0 == code ==> j == i) ==> event_emissions(
                mapping,
                st,
                ev,
            )[0].key == mapping[i].1,
        next_debounce(st, ev) == st,
{
    lemma_lookup_finds_pair(mapping, code);
}

/// A button that the mapping does not know emits nothing.
pub proof fn lemma_unmapped_button_is_silent(
    mapping: Seq<(KeyCode, KeyCode)>,
    st: AxisDebounceState,
    code: KeyCode,
    ev: InputEvent,
)
    requires
        ev.kind == EventKind::Button(code),
        forall|i: int| 0 <= i < mapping.len() ==> mapping[i].0 != code,
    ensures
        event_emissions(mapping, st, ev) == Seq::<KeyEmission>::empty(),
        next_debounce(st, ev) == st,
{
    lemma_lookup_finds_pair(mapping, code);
}

/// Where one emulation run stands.
#[derive(Clone, Copy, PartialEq, Eq, Debug, Structural)]
pub enum EngineStatus {
    /// Creating the virtual keyboard and looking for the controller.
    Starting,
    /// Reading and translating events.
    Running,
    /// Ended by a cancellation signal.
    Stopped,
    /// Ended by a device error.
    Failed,
}

/// What happens to an emulation run.
#[derive(Clone, Copy, PartialEq, Eq, Debug, Structural)]
pub enum LifecycleEvent {
    /// The virtual keyboard was created and the controller found.
    Started,
    /// The virtual keyboard could not be created, or no controller was found.
    StartFailed,
    /// A cancellation signal was seen before fetching the next batch.
    CancelSeen,
    /// The next batch of events could not be fetched.
    FetchFailed,
}

impl EngineStatus {
    /// The transition table of an emulation run. An event that the table does
    /// not list for a status leaves it unchanged: a run never comes back to
    /// `Running` once it has ended.
    pub open spec fn next_spec(self, ev: LifecycleEvent) -> EngineStatus {
        match (self, ev) {
            (EngineStatus::Starting, LifecycleEvent::Started) => EngineStatus::Running,
            (EngineStatus::Starting, LifecycleEvent::StartFailed) => EngineStatus::Failed,
            (EngineStatus::Running, LifecycleEvent::CancelSeen) => EngineStatus::Stopped,
            (EngineStatus::Running, LifecycleEvent::FetchFailed) => EngineStatus::Failed,
            _ => self,
        }
    }

    /// The status after `ev`.
    pub fn next(self, ev: LifecycleEvent) -> (r: EngineStatus)
        ensures
            r == self.next_spec(ev),
    {
        match (self, ev) {
            (EngineStatus::Starting, LifecycleEvent::Started) => EngineStatus::Running,
            (EngineStatus::Starting, LifecycleEvent::StartFailed) => EngineStatus::Failed,
            (EngineStatus::Running, LifecycleEvent::CancelSeen) => EngineStatus::Stopped,
            (EngineStatus::Running, LifecycleEvent::FetchFailed) => EngineStatus::Failed,
            _ => self,
        }
    }

    /// The run has ended, by cancellation or by failure.
    pub open spec fn is_terminal_spec(self) -> bool {
        self == EngineStatus::Stopped || self == EngineStatus::Failed
    }

    /// Whether the run loop should fetch another batch.
    pub fn is_running(self) -> (r: bool)
        ensures
            r == (self == EngineStatus::Running),
    {
        match self {
            EngineStatus::Running => true,
            _ => false,
        }
    }
}

/// A second cancellation signal has no effect beyond the first, and a run
/// that has ended stays as it is whatever happens to it.
pub proof fn lemma_cancel_idempotent(s: EngineStatus, ev: LifecycleEvent)
    ensures
        s.next_spec(LifecycleEvent::CancelSeen).next_spec(LifecycleEvent::CancelSeen)
            == s.next_spec(LifecycleEvent::CancelSeen),
        s.is_terminal_spec() ==> s.next_spec(ev) == s,
        s.next_spec(ev) == EngineStatus::Running ==> s == EngineStatus::Running || s
            == EngineStatus::Starting,
{
}

/// The name under which the controller registers with the input subsystem.
pub const CONTROLLER_NAME: &'static str = "Generic X-Box pad";

/// The device name is exactly `CONTROLLER_NAME`.
pub open spec fn names_controller(name: Option<String>) -> bool {
    match name {
        Some(n) => n@ == CONTROLLER_NAME@,
        None => false,
    }
}

/// The index of the first device whose name is exactly `CONTROLLER_NAME`, or
/// `None` when no device has that name. A device without a name never matches.
pub fn find_controller(names: &Vec<Option<String>>) -> (r: Option<usize>)
    ensures
        match r {
            Some(i) => i < names@.len() && names_controller(names@[i as int]) && forall|j: int|
                0 <= j < i ==> !names_controller(#[trigger] names@[j]),
            None => forall|j: int| 0 <= j < names@.len() ==> !names_controller(#[trigger] names@[j]),
        },
{
    let target = String::from_str(CONTROLLER_NAME);
    let mut i: usize = 0;
    while i < names.len()
        invariant
            0 <= i <= names@.len(),
            target@ == CONTROLLER_NAME@,
            forall|j: int| 0 <= j < i ==> !names_controller(#[trigger] names@[j]),
        decreases names@.len() - i,
    {
        if let Some(n) = &names[i] {
            if n.eq(&target) {
                return Some(i);
            }
        }
        i = i + 1;
    }
    None
}

/// How a key transition value reads in the log.
pub open spec fn transition_name_spec(value: i32) -> Seq<char> {
    if value == 0 {
        "Released"@
    } else if value == 1 {
        "Pressed"@
    } else {
        "Unknown"@
    }
}

impl KeyEmission {
    /// "Released" for 0, "Pressed" for 1, "Unknown" for any other value.
    pub fn transition_name(&self) -> (r: &'static str)
        ensures
            r@ == transition_name_spec(self.value),
    {
        if self.value == 0 {
            "Released"
        } else if self.value == 1 {
            "Pressed"
        } else {
            "Unknown"
        }
    }
}

/// When every key that the mapping produces is one that the virtual keyboard
/// advertises, so is every key that the engine emits.
pub proof fn lemma_emissions_stay_supported(
    mapping: Seq<(KeyCode, KeyCode)>,
    st: AxisDebounceState,
    ev: InputEvent,
)
    requires
        forall|i: int| 0 <= i < mapping.len() ==> supported_key_seq().contains(#[trigger] mapping[i].1),
    ensures
        forall|k: int|
            0 <= k < event_emissions(mapping, st, ev).len() ==> supported_key_seq().contains(
                #[trigger] event_emissions(mapping, st, ev)[k].key,
            ),
{
    assert(supported_key_seq()[5] == KEY_UP);
    assert(supported_key_seq()[6] == KEY_LEFT);
    assert(supported_key_seq()[7] == KEY_RIGHT);
    assert(supported_key_seq()[8] == KEY_DOWN);
    if let EventKind::Button(code) = ev.kind {
        lemma_lookup_finds_pair(mapping, code);
        if let Some(key) = lookup(mapping, code) {
            let i = choose|i: int| 0 <= i < mapping.len() && mapping[i] == (code, key);
            assert(supported_key_seq().contains(mapping[i].1));
            assert(event_emissions(mapping, st, ev)[0].key == key);
        }
    }
}

} // verus!
