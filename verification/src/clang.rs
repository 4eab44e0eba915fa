//! The library context: a guard for "the native library is loaded on this
//! thread", counted per thread so that nested guards share one load.

use std::marker::PhantomData;
use std::rc::Rc;
use vstd::prelude::*;

verus! {

/// The number of guards a thread currently holds on the native library.
///
/// The count belongs to one thread. The native library is loaded when the
/// count leaves zero and unloaded when it comes back to zero.
#[derive(Debug)]
pub struct LoadCount {
    held: u32,
}

/// One change of a thread's guard count.
pub enum GuardEvent {
    /// A guard was handed out.
    Acquire,
    /// A guard was given back.
    Release,
}

/// The count that follows `count` when `event` happens.
pub open spec fn count_step(count: int, event: GuardEvent) -> int {
    match event {
        GuardEvent::Acquire => count + 1,
        GuardEvent::Release => count - 1,
    }
}

/// The count reached from `start` after `events`, oldest first.
pub open spec fn count_after(start: int, events: Seq<GuardEvent>) -> int
    decreases events.len(),
{
    if events.len() == 0 {
        start
    } else {
        count_step(count_after(start, events.drop_last()), events.last())
    }
}

/// The number of `event`s in `events`.
pub open spec fn occurrences(events: Seq<GuardEvent>, event: GuardEvent) -> int
    decreases events.len(),
{
    if events.len() == 0 {
        0
    } else {
        occurrences(events.drop_last(), event) + if events.last() == event {
            1int
        } else {
            0int
        }
    }
}

/// The guards still held after `events`: those acquired less those released.
pub open spec fn guards_held(events: Seq<GuardEvent>) -> int {
    occurrences(events, GuardEvent::Acquire) - occurrences(events, GuardEvent::Release)
}

/// `n` acquisitions followed by `n` releases.
pub open spec fn nested(n: nat) -> Seq<GuardEvent> {
    Seq::new(n, |i: int| GuardEvent::Acquire) + Seq::new(n, |i: int| GuardEvent::Release)
}

/// After any run of acquisitions and releases the count is the count at the
/// start plus the number of guards still held.
pub proof fn lemma_count_tracks_guards(start: int, events: Seq<GuardEvent>)
    ensures
        count_after(start, events) == start + guards_held(events),
    decreases events.len(),
{
    if events.len() > 0 {
        lemma_count_tracks_guards(start, events.drop_last());
    }
}

/// A run of one event repeated holds that event `n` times and no other.
pub proof fn lemma_occurrences_of_repeat(n: nat, event: GuardEvent, other: GuardEvent)
    ensures
        occurrences(Seq::new(n, |i: int| event), other) == if event == other {
            n as int
        } else {
            0
        },
    decreases n,
{
    let run = Seq::new(n, |i: int| event);
    if n > 0 {
        assert(run.drop_last() =~= Seq::new((n - 1) as nat, |i: int| event));
        lemma_occurrences_of_repeat((n - 1) as nat, event, other);
    }
}

/// Occurrences add up over concatenation.
pub proof fn lemma_occurrences_of_concat(
    left: Seq<GuardEvent>,
    right: Seq<GuardEvent>,
    event: GuardEvent,
)
    ensures
        occurrences(left + right, event) == occurrences(left, event) + occurrences(right, event),
    decreases right.len(),
{
    if right.len() == 0 {
        assert(left + right =~= left);
    } else {
        assert((left + right).drop_last() =~= left + right.drop_last());
        lemma_occurrences_of_concat(left, right.drop_last(), event);
    }
}

/// Acquiring `n` guards and releasing all `n` brings the count back to where
/// it started, and after each of the events in between the count is the start
/// plus the guards held at that moment.
pub proof fn lemma_nested_guards_restore_count(start: int, n: nat)
    ensures
        count_after(start, nested(n)) == start,
        forall|k: int|
            0 <= k <= nested(n).len() ==> #[trigger] count_after(start, nested(n).take(k))
                == start + guards_held(nested(n).take(k)),
{
    let acquires = Seq::new(n, |i: int| GuardEvent::Acquire);
    let releases = Seq::new(n, |i: int| GuardEvent::Release);
    lemma_occurrences_of_repeat(n, GuardEvent::Acquire, GuardEvent::Acquire);
    lemma_occurrences_of_repeat(n, GuardEvent::Acquire, GuardEvent::Release);
    lemma_occurrences_of_repeat(n, GuardEvent::Release, GuardEvent::Acquire);
    lemma_occurrences_of_repeat(n, GuardEvent::Release, GuardEvent::Release);
    lemma_occurrences_of_concat(acquires, releases, GuardEvent::Acquire);
    lemma_occurrences_of_concat(acquires, releases, GuardEvent::Release);
    lemma_count_tracks_guards(start, nested(n));
    assert forall|k: int| 0 <= k <= nested(n).len() implies #[trigger] count_after(
        start,
        nested(n).take(k),
    ) == start + guards_held(nested(n).take(k)) by {
        lemma_count_tracks_guards(start, nested(n).take(k));
    }
}

/// Whether `event`, happening at `count`, is the one for which the native
/// library has to be loaded: the acquisition of a thread's first guard.
pub open spec fn asks_load(count: int, event: GuardEvent) -> bool {
    event is Acquire && count == 0
}

/// Whether `event`, happening at `count`, is the one after which the native
/// library has to be unloaded: the release of a thread's last guard.
pub open spec fn asks_unload(count: int, event: GuardEvent) -> bool {
    event is Release && count == 1
}

/// How often a load is asked for while `events` happen, oldest first, to a
/// count that starts at `start`.
pub open spec fn loads_asked(start: int, events: Seq<GuardEvent>) -> int
    decreases events.len(),
{
    if events.len() == 0 {
        0
    } else {
        loads_asked(start, events.drop_last()) + if asks_load(
            count_after(start, events.drop_last()),
            events.last(),
        ) {
            1int
        } else {
            0int
        }
    }
}

/// How often an unload is asked for while `events` happen, oldest first, to a
/// count that starts at `start`.
pub open spec fn unloads_asked(start: int, events: Seq<GuardEvent>) -> int
    decreases events.len(),
{
    if events.len() == 0 {
        0
    } else {
        unloads_asked(start, events.drop_last()) + if asks_unload(
            count_after(start, events.drop_last()),
            events.last(),
        ) {
            1int
        } else {
            0int
        }
    }
}

/// The first `k` events of `n` nested guards: the count has gone up by the
/// guards acquired and down by those released, a load was asked for by the
/// first event alone and only from a count of zero, and an unload by the last
/// event alone and only when it brings the count back to zero.
pub proof fn lemma_nested_guards_step_by_step(start: int, n: nat, k: int)
    requires
        0 <= start,
        0 <= k <= 2 * n,
    ensures
        count_after(start, nested(n).take(k)) == start + if k <= n {
            k
        } else {
            2 * n - k
        },
        loads_asked(start, nested(n).take(k)) == if start == 0 && k >= 1 {
            1int
        } else {
            0int
        },
        unloads_asked(start, nested(n).take(k)) == if start == 0 && k == 2 * n && n >= 1 {
            1int
        } else {
            0int
        },
    decreases k,
{
    if k > 0 {
        lemma_nested_guards_step_by_step(start, n, k - 1);
        assert(nested(n).take(k).drop_last() =~= nested(n).take(k - 1));
        assert(nested(n).take(k).last() == nested(n)[k - 1]);
    }
}

/// Guards nested on a thread that held none load the native library once,
/// for the first, and unload it once, after the last. Guards nested inside a
/// guard that is already held load and unload nothing.
pub proof fn lemma_nested_guards_load_once(start: int, n: nat)
    requires
        0 <= start,
    ensures
        loads_asked(start, nested(n)) == if start == 0 && n >= 1 {
            1int
        } else {
            0int
        },
        unloads_asked(start, nested(n)) == loads_asked(start, nested(n)),
{
    lemma_nested_guards_step_by_step(start, n, 2 * (n as int));
    assert(nested(n).take(2 * (n as int)) =~= nested(n));
}

impl LoadCount {
    /// The number of guards held.
    pub closed spec fn held(&self) -> int {
        self.held as int
    }

    /// The count of a thread that holds no guard.
    pub fn new() -> (count: Self)
        ensures
            count.held() == 0,
    {
        LoadCount { held: 0 }
    }

    /// The number of guards held.
    pub fn get(&self) -> (n: u32)
        ensures
            n == self.held(),
    {
        self.held
    }

    /// Whether the next guard is the one that has to load the native library.
    pub fn must_load(&self) -> (first: bool)
        ensures
            first == asks_load(self.held(), GuardEvent::Acquire),
    {
        self.held == 0
    }

    /// Counts one more guard.
    pub fn acquire(&mut self)
        requires
            old(self).held() < u32::MAX,
        ensures
            final(self).held() == count_step(old(self).held(), GuardEvent::Acquire),
    {
        self.held = self.held + 1;
    }

    /// Counts one guard less and tells whether it was the last one, after
    /// which the native library is to be unloaded.
    pub fn release(&mut self) -> (last: bool)
        requires
            old(self).held() > 0,
        ensures
            final(self).held() == count_step(old(self).held(), GuardEvent::Release),
            last == asks_unload(old(self).held(), GuardEvent::Release),
    {
        self.held = self.held - 1;
        self.held == 0
    }
}

/// A guard for the loaded native library. It is tied to the thread that made
/// it: it can neither be sent to nor shared with another thread.
#[derive(Debug)]
pub struct Clang {
    _thread_bound: PhantomData<Rc<()>>,
}

impl Clang {
    /// Hands out a guard and counts it in `count`, the calling thread's count.
    ///
    /// Where `count.must_load()` holds the caller has the native library
    /// loaded first, and `loaded` is how that ended; for a nested guard,
    /// which needs no load, `loaded` is `Ok`. After a load that failed no
    /// guard is made, the count stays as it was and the loader's message is
    /// returned.
    pub fn new(count: &mut LoadCount, loaded: Result<(), String>) -> (guard: Result<Clang, String>)
        requires
            old(count).held() < u32::MAX,
        ensures
            guard is Ok <==> loaded is Ok,
            guard is Ok ==> final(count).held() == count_step(
                old(count).held(),
                GuardEvent::Acquire,
            ),
            guard is Err ==> final(count).held() == old(count).held() && guard->Err_0
                == loaded->Err_0,
    {
        match loaded {
            Ok(()) => {
                count.acquire();
                Ok(Clang { _thread_bound: PhantomData })
            },
            Err(message) => Err(message),
        }
    }

    /// Gives the guard back, takes it out of `count` and tells whether it was
    /// the thread's last one, after which the caller has the native library
    /// unloaded.
    pub fn release(self, count: &mut LoadCount) -> (unload: bool)
        requires
            old(count).held() > 0,
        ensures
            final(count).held() == count_step(old(count).held(), GuardEvent::Release),
            unload == asks_unload(old(count).held(), GuardEvent::Release),
    {
        count.release()
    }
}

} // verus!
