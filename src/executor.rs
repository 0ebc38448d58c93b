//! Decisions behind input-triggered actions: which edge of a button fires an
//! action, and the per-action debounce. Running the actions themselves
//! (shell, HTTP, WebSocket) is left to the caller.

use vstd::prelude::*;

use crate::text::{lower_of, lowercase, same_text};

verus! {

/// Event types for action triggering
#[derive(Debug, Clone, Copy, PartialEq, Eq, Structural)]
pub enum EventType {
    Press,
    Release,
    Hold,
    Change,
}

/// Event named by a lowercased trigger name; anything unknown is a press.
pub open spec fn event_named(s: Seq<char>) -> EventType {
    if s == "release"@ {
        EventType::Release
    } else if s == "hold"@ {
        EventType::Hold
    } else if s == "change"@ {
        EventType::Change
    } else {
        EventType::Press
    }
}

/// Whether an event of this type fires for a button going from `prev` to
/// `current`.
pub open spec fn fires(e: EventType, prev: bool, current: bool) -> bool {
    match e {
        EventType::Press => !prev && current,
        EventType::Release => prev && !current,
        EventType::Hold => current,
        EventType::Change => prev != current,
    }
}

impl EventType {
    /// Event type of a trigger name, matched without regard to case.
    pub fn from_str(s: &str) -> (r: Self)
        ensures
            r == event_named(lower_of(s@)),
    {
        let lowered = lowercase(s);
        Self::from_lowered(lowered.as_str())
    }

    /// Event type of an already lowercased trigger name.
    pub fn from_lowered(k: &str) -> (r: Self)
        ensures
            r == event_named(k@),
    {
        proof {
            reveal_strlit("release");
            reveal_strlit("hold");
            reveal_strlit("change");
            assert("release"@.len() == 7 && "hold"@.len() == 4 && "change"@.len() == 6);
        }
        if same_text(k, "release") {
            EventType::Release
        } else if same_text(k, "hold") {
            EventType::Hold
        } else if same_text(k, "change") {
            EventType::Change
        } else {
            EventType::Press
        }
    }

    /// Whether this event fires for a button going from `prev` to `current`.
    pub fn should_trigger(&self, prev: bool, current: bool) -> (r: bool)
        ensures
            r == fires(*self, prev, current),
    {
        match self {
            EventType::Press => !prev && current,
            EventType::Release => prev && !current,
            EventType::Hold => current,
            EventType::Change => prev != current,
        }
    }
}

/// Commands to send to the controller
#[derive(Debug, Clone, Copy, PartialEq, Eq, Structural)]
pub enum ControllerCommand {
    SetLed(u8, u8, u8),
    /// left, right, duration in ms
    SetRumble(u8, u8, u64),
}

/// Milliseconds from `last` to `now`; zero if `now` is earlier.
pub open spec fn elapsed(last: u64, now: u64) -> u64 {
    if now >= last {
        (now - last) as u64
    } else {
        0
    }
}

/// Debounce tracker: the time at which each action key last fired.
///
/// Kept as a list of distinct keys rather than a `HashMap<String, _>`:
/// vstd's hash-map model only covers key types for which it establishes
/// `obeys_key_model` (integers, `bool`), not `String`, so lookups in such a
/// map could not be reasoned about. `wf` states that keys are unique.
pub struct DebounceState {
    last_trigger: Vec<(String, u64)>,
}

impl DebounceState {
    /// Whether the key is recorded.
    pub closed spec fn has(&self, key: Seq<char>) -> bool {
        exists|i: int| 0 <= i < self.last_trigger@.len() && self.last_trigger@[i].0@ == key
    }

    /// Time at which each key last fired.
    pub closed spec fn view(&self) -> Map<Seq<char>, u64> {
        Map::new(
            |k: Seq<char>| self.has(k),
            |k: Seq<char>|
                self.last_trigger@[choose|i: int|
                    0 <= i < self.last_trigger@.len() && self.last_trigger@[i].0@ == k].1,
        )
    }

    /// Each key is recorded once.
    pub closed spec fn wf(&self) -> bool {
        forall|i: int, j: int|
            0 <= i < self.last_trigger@.len() && 0 <= j < self.last_trigger@.len() && i != j
                ==> self.last_trigger@[i].0@ != self.last_trigger@[j].0@
    }

    pub fn new() -> (r: Self)
        ensures
            r.wf(),
            r@ == Map::<Seq<char>, u64>::empty(),
    {
        let r = DebounceState { last_trigger: Vec::new() };
        assert(r@ =~= Map::<Seq<char>, u64>::empty());
        r
    }

    /// Position of a key, if recorded.
    fn find(&self, key: &str) -> (r: Option<usize>)
        ensures
            r matches Some(i) ==> i < self.last_trigger@.len() && self.last_trigger@[i as int].0@
                == key@,
            r is None ==> !self.has(key@),
    {
        let mut i: usize = 0;
        while i < self.last_trigger.len()
            invariant
                i <= self.last_trigger@.len(),
                forall|j: int| 0 <= j < i ==> self.last_trigger@[j].0@ != key@,
            decreases self.last_trigger@.len() - i,
        {
            if same_text(self.last_trigger[i].0.as_str(), key) {
                return Some(i);
            }
            i = i + 1;
        }
        None
    }

    /// Whether the action under `key` may fire at `now_ms`; if it may, the
    /// time is recorded. With no debounce interval it always may; otherwise
    /// not while less than `debounce_ms` has passed since it last fired.
    pub fn can_trigger(&mut self, key: &str, debounce_ms: u64, now_ms: u64) -> (r: bool)
        requires
            old(self).wf(),
        ensures
            final(self).wf(),
            debounce_ms == 0 ==> r && final(self)@ == old(self)@,
            debounce_ms > 0 && old(self)@.contains_key(key@) && elapsed(old(self)@[key@], now_ms)
                < debounce_ms ==> !r && final(self)@ == old(self)@,
            debounce_ms > 0 && !(old(self)@.contains_key(key@) && elapsed(old(self)@[key@], now_ms)
                < debounce_ms) ==> r && final(self)@ == old(self)@.insert(key@, now_ms),
    {
        if debounce_ms == 0 {
            return true;
        }
        match self.find(key) {
            Some(i) => {
                proof {
                    assert(self.has(key@));
                    let c = choose|j: int|
                        0 <= j < self.last_trigger@.len() && self.last_trigger@[j].0@ == key@;
                    assert(c == i);
                }
                let last = self.last_trigger[i].1;
                let passed = if now_ms >= last {
                    now_ms - last
                } else {
                    0
                };
                if passed < debounce_ms {
                    return false;
                }
                let ghost before = *self;
                self.last_trigger.set(i, (key.to_owned(), now_ms));
                proof {
                    assert forall|k: Seq<char>| self.has(k) == before.has(k) by {
                        if before.has(k) {
                            let j = choose|j: int|
                                0 <= j < before.last_trigger@.len()
                                    && before.last_trigger@[j].0@ == k;
                            assert(self.last_trigger@[j].0@ == k);
                        }
                        if self.has(k) {
                            let j = choose|j: int|
                                0 <= j < self.last_trigger@.len() && self.last_trigger@[j].0@ == k;
                            assert(before.last_trigger@[j].0@ == k);
                        }
                    }
                    assert(self@ =~= before@.insert(key@, now_ms));
                }
                true
            },
            None => {
                let ghost before = *self;
                self.last_trigger.push((key.to_owned(), now_ms));
                proof {
                    let n = before.last_trigger@.len() as int;
                    assert(self.last_trigger@[n].0@ == key@);
                    assert forall|k: Seq<char>| self.has(k) == (before.has(k) || k == key@) by {
                        if before.has(k) {
                            let j = choose|j: int|
                                0 <= j < before.last_trigger@.len()
                                    && before.last_trigger@[j].0@ == k;
                            assert(self.last_trigger@[j].0@ == k);
                        }
                    }
                    assert(self@ =~= before@.insert(key@, now_ms));
                }
                true
            },
        }
    }
}

} // verus!
