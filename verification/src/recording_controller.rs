//! Process-global registry of in-progress video recordings.
//!
//! A recording's capture process must outlive the call that launches it and
//! survive until a later stop request (possibly from a different agent sharing
//! the display), so the live handle lives here rather than in a per-call
//! executor.
//!
//! The registry is modelled as a map from recording id (a character sequence)
//! to the capture handle, plus the flag of an in-flight start.
use vstd::prelude::*;

use crate::text::str_equal;

verus! {

/// Holds the live capture handle for a single in-progress recording.
pub struct RecordingSession<H> {
    handle: H,
}

impl<H> View for RecordingSession<H> {
    type V = H;

    /// A session is seen as the capture handle that it holds.
    closed spec fn view(&self) -> H {
        self.handle
    }
}

impl<H> RecordingSession<H> {
    /// Wraps a live capture handle.
    pub fn new(handle: H) -> (session: Self)
        ensures
            session@ == handle,
    {
        Self { handle }
    }

    /// Gives the capture handle back, consuming the session.
    pub fn into_handle(self) -> (handle: H)
        ensures
            handle == self@,
    {
        self.handle
    }
}

/// The message with which a start is refused while the recording slot is taken.
pub open spec fn recording_in_progress_message() -> Seq<char> {
    "A recording is already in progress on this display."@
}

/// The abstract state of a [`RecordingController`]: the registered recordings
/// by id, and whether a start is in flight.
pub struct RecordingControllerModel<H> {
    pub sessions: Map<Seq<char>, H>,
    pub starting: bool,
}

/// Whether the single recording slot is free: nothing is starting and nothing
/// is registered.
pub open spec fn slot_is_free<H>(m: RecordingControllerModel<H>) -> bool {
    !m.starting && m.sessions == Map::<Seq<char>, H>::empty()
}

/// Outcome of `try_begin_start` on a model: whether it succeeds, and the state after.
pub open spec fn spec_try_begin_start<H>(m: RecordingControllerModel<H>) -> (
    bool,
    RecordingControllerModel<H>,
) {
    if slot_is_free(m) {
        (true, RecordingControllerModel { sessions: m.sessions, starting: true })
    } else {
        (false, m)
    }
}

/// State after `finish_start(id, session)` on a model.
pub open spec fn spec_finish_start<H>(
    m: RecordingControllerModel<H>,
    id: Seq<char>,
    handle: H,
) -> RecordingControllerModel<H> {
    RecordingControllerModel { sessions: m.sessions.insert(id, handle), starting: false }
}

/// State after `abort_start` on a model.
pub open spec fn spec_abort_start<H>(m: RecordingControllerModel<H>) -> RecordingControllerModel<H> {
    RecordingControllerModel { sessions: m.sessions, starting: false }
}

/// Outcome of `take_session(id)` on a model: the handle removed, if any, and
/// the state after.
pub open spec fn spec_take_session<H>(m: RecordingControllerModel<H>, id: Seq<char>) -> (
    Option<H>,
    RecordingControllerModel<H>,
) {
    if m.sessions.contains_key(id) {
        (Some(m.sessions[id]), RecordingControllerModel { sessions: m.sessions.remove(id), starting: m.starting })
    } else {
        (None, m)
    }
}

/// No two entries carry the same recording id.
pub open spec fn ids_unique<H>(entries: Seq<(String, RecordingSession<H>)>) -> bool {
    forall|i: int, j: int|
        0 <= i < entries.len() && 0 <= j < entries.len() && i != j ==> #[trigger] entries[i].0@
            != #[trigger] entries[j].0@
}

/// The map from recording id to handle that a list of entries stands for.
pub open spec fn entries_map<H>(entries: Seq<(String, RecordingSession<H>)>) -> Map<Seq<char>, H> {
    Map::new(
        |k: Seq<char>| exists|i: int| 0 <= i < entries.len() && entries[i].0@ == k,
        |k: Seq<char>| entries[choose|i: int| 0 <= i < entries.len() && entries[i].0@ == k].1@,
    )
}

proof fn lemma_entries_map_lookup<H>(entries: Seq<(String, RecordingSession<H>)>, i: int)
    requires
        ids_unique(entries),
        0 <= i < entries.len(),
    ensures
        entries_map(entries).contains_key(entries[i].0@),
        entries_map(entries)[entries[i].0@] == entries[i].1@,
{
    let k = entries[i].0@;
    assert(0 <= i < entries.len() && entries[i].0@ == k);
    let j = choose|j: int| 0 <= j < entries.len() && entries[j].0@ == k;
    assert(entries[j].0@ == entries[i].0@);
    assert(j == i);
}

proof fn lemma_entries_map_push<H>(
    entries: Seq<(String, RecordingSession<H>)>,
    entry: (String, RecordingSession<H>),
)
    requires
        ids_unique(entries),
        !entries_map(entries).contains_key(entry.0@),
    ensures
        ids_unique(entries.push(entry)),
        entries_map(entries.push(entry)) == entries_map(entries).insert(entry.0@, entry.1@),
{
    let s = entries.push(entry);
    assert forall|i: int, j: int|
        0 <= i < s.len() && 0 <= j < s.len() && i != j implies #[trigger] s[i].0@
        != #[trigger] s[j].0@ by {
        if i == entries.len() as int {
            assert(s[j] == entries[j]);
            assert(0 <= j < entries.len() && entries[j].0@ == entries[j].0@);
        } else if j == entries.len() as int {
            assert(s[i] == entries[i]);
            assert(0 <= i < entries.len() && entries[i].0@ == entries[i].0@);
        } else {
            assert(s[i] == entries[i] && s[j] == entries[j]);
        }
    }
    let m = entries_map(s);
    let expected = entries_map(entries).insert(entry.0@, entry.1@);
    assert forall|k: Seq<char>| #[trigger] m.contains_key(k) <==> expected.contains_key(k) by {
        if m.contains_key(k) {
            let i = choose|i: int| 0 <= i < s.len() && s[i].0@ == k;
            if i < entries.len() {
                assert(s[i] == entries[i]);
            }
        }
        if entries_map(entries).contains_key(k) {
            let i = choose|i: int| 0 <= i < entries.len() && entries[i].0@ == k;
            assert(s[i] == entries[i]);
        }
        if k == entry.0@ {
            assert(s[entries.len() as int] == entry);
        }
    }
    assert forall|k: Seq<char>| #[trigger] m.contains_key(k) implies m[k] == expected[k] by {
        let i = choose|i: int| 0 <= i < s.len() && s[i].0@ == k;
        lemma_entries_map_lookup(s, i);
        if i < entries.len() {
            assert(s[i] == entries[i]);
            lemma_entries_map_lookup(entries, i);
        } else {
            assert(s[i] == entry);
        }
    }
    assert(m =~= expected);
}

proof fn lemma_entries_map_remove<H>(entries: Seq<(String, RecordingSession<H>)>, i: int)
    requires
        ids_unique(entries),
        0 <= i < entries.len(),
    ensures
        ids_unique(entries.remove(i)),
        entries_map(entries.remove(i)) == entries_map(entries).remove(entries[i].0@),
{
    let s = entries.remove(i);
    let key = entries[i].0@;
    assert forall|a: int, b: int|
        0 <= a < s.len() && 0 <= b < s.len() && a != b implies #[trigger] s[a].0@
        != #[trigger] s[b].0@ by {
        let a0 = if a < i { a } else { a + 1 };
        let b0 = if b < i { b } else { b + 1 };
        assert(s[a] == entries[a0] && s[b] == entries[b0]);
    }
    let m = entries_map(s);
    let expected = entries_map(entries).remove(key);
    assert forall|k: Seq<char>| #[trigger] m.contains_key(k) <==> expected.contains_key(k) by {
        if m.contains_key(k) {
            let a = choose|a: int| 0 <= a < s.len() && s[a].0@ == k;
            let a0 = if a < i { a } else { a + 1 };
            assert(s[a] == entries[a0]);
            assert(a0 != i);
            assert(entries[a0].0@ != entries[i].0@);
        }
        if expected.contains_key(k) {
            let a0 = choose|a: int| 0 <= a < entries.len() && entries[a].0@ == k;
            assert(a0 != i);
            let a = if a0 < i { a0 } else { a0 - 1 };
            assert(s[a] == entries[a0]);
        }
    }
    assert forall|k: Seq<char>| #[trigger] m.contains_key(k) implies m[k] == expected[k] by {
        let a = choose|a: int| 0 <= a < s.len() && s[a].0@ == k;
        let a0 = if a < i { a } else { a + 1 };
        assert(s[a] == entries[a0]);
        lemma_entries_map_lookup(s, a);
        lemma_entries_map_lookup(entries, a0);
    }
    assert(m =~= expected);
}

proof fn lemma_entries_map_empty<H>(entries: Seq<(String, RecordingSession<H>)>)
    ensures
        (entries.len() == 0) == (entries_map(entries) == Map::<Seq<char>, H>::empty()),
{
    if entries.len() == 0 {
        assert(entries_map(entries) =~= Map::<Seq<char>, H>::empty());
    } else {
        assert(0 <= 0 < entries.len() && entries[0].0@ == entries[0].0@);
        assert(entries_map(entries).contains_key(entries[0].0@));
        assert(!Map::<Seq<char>, H>::empty().contains_key(entries[0].0@));
    }
}

/// At most one recording occupies the display: a start in flight excludes any
/// registered recording, and at most one recording id is registered.
pub open spec fn single_slot<H>(m: RecordingControllerModel<H>) -> bool {
    &&& m.starting ==> m.sessions == Map::<Seq<char>, H>::empty()
    &&& forall|a: Seq<char>, b: Seq<char>|
        #[trigger] m.sessions.contains_key(a) && #[trigger] m.sessions.contains_key(b) ==> a == b
}

/// Once a start has been reserved, a second start is refused until the first
/// is finished or aborted.
pub proof fn law_reservation_excludes_second_start<H>(m: RecordingControllerModel<H>)
    requires
        spec_try_begin_start(m).0,
    ensures
        !spec_try_begin_start(spec_try_begin_start(m).1).0,
        spec_try_begin_start(spec_try_begin_start(m).1).1 == spec_try_begin_start(m).1,
{
}

/// While any recording is registered, a start is refused and nothing changes.
pub proof fn law_registered_recording_blocks_start<H>(m: RecordingControllerModel<H>, id: Seq<char>)
    requires
        m.sessions.contains_key(id),
    ensures
        !spec_try_begin_start(m).0,
        spec_try_begin_start(m).1 == m,
{
    assert(!Map::<Seq<char>, H>::empty().contains_key(id));
}

/// Aborting a start that was just reserved restores the state before the reservation.
pub proof fn law_abort_undoes_reservation<H>(m: RecordingControllerModel<H>)
    requires
        spec_try_begin_start(m).0,
    ensures
        spec_abort_start(spec_try_begin_start(m).1) == m,
{
}

/// Stopping a recording hands back exactly the handle that was registered
/// under its id, releases the reservation, and forgets that id.
pub proof fn law_take_returns_registered_handle<H>(
    m: RecordingControllerModel<H>,
    id: Seq<char>,
    handle: H,
)
    ensures
        spec_take_session(spec_finish_start(m, id, handle), id).0 == Some(handle),
        spec_take_session(spec_finish_start(m, id, handle), id).1 == (RecordingControllerModel {
            sessions: m.sessions.remove(id),
            starting: false,
        }),
{
    assert(m.sessions.insert(id, handle).remove(id) =~= m.sessions.remove(id));
}

/// Stop is idempotent: an unknown id yields nothing and changes nothing, and
/// stopping the same id twice yields nothing the second time.
pub proof fn law_stop_is_idempotent<H>(m: RecordingControllerModel<H>, id: Seq<char>)
    ensures
        !m.sessions.contains_key(id) ==> spec_take_session(m, id) == (None::<H>, m),
        spec_take_session(spec_take_session(m, id).1, id).0 is None,
        spec_take_session(spec_take_session(m, id).1, id).1 == spec_take_session(m, id).1,
{
}

/// A new registry satisfies the single-slot rule, and every operation keeps
/// it, provided a recording is only registered while its start is reserved.
pub proof fn law_single_slot_is_kept<H>(m: RecordingControllerModel<H>, id: Seq<char>, handle: H)
    requires
        single_slot(m),
    ensures
        single_slot(RecordingControllerModel { sessions: Map::<Seq<char>, H>::empty(), starting: false }),
        single_slot(spec_try_begin_start(m).1),
        single_slot(spec_abort_start(m)),
        single_slot(spec_take_session(m, id).1),
        m.starting ==> single_slot(spec_finish_start(m, id, handle)),
{
    let f = spec_finish_start(m, id, handle);
    if m.starting {
        assert(m.sessions == Map::<Seq<char>, H>::empty());
        assert forall|a: Seq<char>, b: Seq<char>|
            #[trigger] f.sessions.contains_key(a) && #[trigger] f.sessions.contains_key(b) implies a
            == b by {
            assert(!Map::<Seq<char>, H>::empty().contains_key(a));
            assert(!Map::<Seq<char>, H>::empty().contains_key(b));
        }
    }
    let t = spec_take_session(m, id).1;
    assert forall|a: Seq<char>, b: Seq<char>|
        #[trigger] t.sessions.contains_key(a) && #[trigger] t.sessions.contains_key(b) implies a
        == b by {
        assert(m.sessions.contains_key(a) && m.sessions.contains_key(b));
    }
    if t.starting {
        assert(t.sessions =~= Map::<Seq<char>, H>::empty());
    }
}

/// One call on the registry, with its arguments as the model sees them.
pub enum RecordingOp<H> {
    TryBeginStart,
    FinishStart { id: Seq<char>, handle: H },
    AbortStart,
    TakeSession { id: Seq<char> },
}

/// The state after one call.
pub open spec fn spec_apply<H>(m: RecordingControllerModel<H>, op: RecordingOp<H>) -> RecordingControllerModel<H> {
    match op {
        RecordingOp::TryBeginStart => spec_try_begin_start(m).1,
        RecordingOp::FinishStart { id, handle } => spec_finish_start(m, id, handle),
        RecordingOp::AbortStart => spec_abort_start(m),
        RecordingOp::TakeSession { id } => spec_take_session(m, id).1,
    }
}

/// The state after a sequence of calls, in order.
pub open spec fn spec_run<H>(m: RecordingControllerModel<H>, ops: Seq<RecordingOp<H>>) -> RecordingControllerModel<H>
    decreases ops.len(),
{
    if ops.len() == 0 {
        m
    } else {
        spec_run(spec_apply(m, ops[0]), ops.drop_first())
    }
}

/// The calls follow the start protocol: every `finish_start` comes while a
/// start is reserved, that is after a `try_begin_start` that succeeded, with
/// no `abort_start` or `finish_start` in between.
pub open spec fn follows_start_protocol<H>(m: RecordingControllerModel<H>, ops: Seq<RecordingOp<H>>) -> bool
    decreases ops.len(),
{
    if ops.len() == 0 {
        true
    } else {
        &&& (ops[0] is FinishStart ==> m.starting)
        &&& follows_start_protocol(spec_apply(m, ops[0]), ops.drop_first())
    }
}

/// The state of a new registry.
pub open spec fn new_registry<H>() -> RecordingControllerModel<H> {
    RecordingControllerModel { sessions: Map::<Seq<char>, H>::empty(), starting: false }
}

/// How many recordings are active or starting.
pub open spec fn slot_count<H>(m: RecordingControllerModel<H>) -> int {
    m.sessions.dom().len() + if m.starting { 1int } else { 0int }
}

proof fn lemma_single_slot_count<H>(m: RecordingControllerModel<H>)
    requires
        single_slot(m),
    ensures
        slot_count(m) <= 1,
{
    if m.sessions.dom().is_empty() {
        assert(m.sessions.dom() =~= Set::<Seq<char>>::empty());
    } else {
        let k = m.sessions.dom().choose();
        assert(m.sessions.contains_key(k));
        assert(m.sessions.dom() =~= Set::<Seq<char>>::empty().insert(k));
        assert(!m.starting) by {
            if m.starting {
                assert(!Map::<Seq<char>, H>::empty().contains_key(k));
            }
        }
    }
}

proof fn lemma_run_keeps_single_slot<H>(m: RecordingControllerModel<H>, ops: Seq<RecordingOp<H>>)
    requires
        single_slot(m),
        follows_start_protocol(m, ops),
    ensures
        single_slot(spec_run(m, ops)),
    decreases ops.len(),
{
    if ops.len() > 0 {
        match ops[0] {
            RecordingOp::TryBeginStart => law_single_slot_is_kept(m, Seq::empty(), arbitrary()),
            RecordingOp::FinishStart { id, handle } => law_single_slot_is_kept(m, id, handle),
            RecordingOp::AbortStart => law_single_slot_is_kept(m, Seq::empty(), arbitrary()),
            RecordingOp::TakeSession { id } => law_single_slot_is_kept(m, id, arbitrary()),
        }
        lemma_run_keeps_single_slot(spec_apply(m, ops[0]), ops.drop_first());
    }
}

proof fn lemma_protocol_prefix<H>(m: RecordingControllerModel<H>, ops: Seq<RecordingOp<H>>, i: int)
    requires
        follows_start_protocol(m, ops),
        0 <= i <= ops.len(),
    ensures
        follows_start_protocol(m, ops.take(i)),
    decreases ops.len(),
{
    if i > 0 {
        assert(ops.take(i)[0] == ops[0]);
        assert(ops.take(i).drop_first() =~= ops.drop_first().take(i - 1));
        lemma_protocol_prefix(spec_apply(m, ops[0]), ops.drop_first(), i - 1);
    }
}

/// At most one recording is active or starting per display: in every state
/// reached from a new registry by calls that follow the start protocol, the
/// registered recordings and the start in flight number at most one; and a
/// `finish_start` made under a reservation leaves exactly that one recording
/// registered and nothing starting.
pub proof fn law_one_recording_per_display<H>(ops: Seq<RecordingOp<H>>, id: Seq<char>, handle: H)
    requires
        follows_start_protocol(new_registry::<H>(), ops),
    ensures
        forall|i: int|
            0 <= i <= ops.len() ==> #[trigger] slot_count(spec_run(new_registry::<H>(), ops.take(i)))
                <= 1,
        spec_run(new_registry::<H>(), ops).starting ==> ({
            let f = spec_finish_start(spec_run(new_registry::<H>(), ops), id, handle);
            &&& f.sessions.dom() == Set::<Seq<char>>::empty().insert(id)
            &&& slot_count(f) == 1
            &&& !f.starting
        }),
{
    let n = new_registry::<H>();
    assert(single_slot(n));
    assert forall|i: int| 0 <= i <= ops.len() implies #[trigger] slot_count(spec_run(n, ops.take(i))) <= 1 by {
        lemma_protocol_prefix(n, ops, i);
        lemma_run_keeps_single_slot(n, ops.take(i));
        lemma_single_slot_count(spec_run(n, ops.take(i)));
    }
    let m = spec_run(n, ops);
    lemma_run_keeps_single_slot(n, ops);
    if m.starting {
        let f = spec_finish_start(m, id, handle);
        assert(f.sessions.dom() =~= Set::<Seq<char>>::empty().insert(id));
    }
}

/// Tracks recordings keyed by id and enforces a single active recording per
/// display. Stop is idempotent: an unknown id resolves to `None`.
pub struct RecordingController<H> {
    sessions: Vec<(String, RecordingSession<H>)>,
    /// Set while a start is in flight (after reservation, before the session is
    /// registered) so a concurrent start cannot race past the single-slot guard.
    starting: bool,
}

impl<H> View for RecordingController<H> {
    type V = RecordingControllerModel<H>;

    closed spec fn view(&self) -> RecordingControllerModel<H> {
        RecordingControllerModel { sessions: entries_map(self.sessions@), starting: self.starting }
    }
}

impl<H> RecordingController<H> {
    /// The registry never holds two entries for one recording id.
    pub closed spec fn wf(&self) -> bool {
        ids_unique(self.sessions@)
    }

    /// Creates an empty registry with the recording slot free.
    pub fn new() -> (controller: Self)
        ensures
            controller.wf(),
            controller@.sessions == Map::<Seq<char>, H>::empty(),
            !controller@.starting,
    {
        let controller = Self { sessions: Vec::new(), starting: false };
        proof {
            lemma_entries_map_empty(controller.sessions@);
        }
        controller
    }

    /// Position of the entry registered under `id`, if any.
    fn find(&self, id: &str) -> (found: Option<usize>)
        requires
            self.wf(),
        ensures
            match found {
                Some(i) => i < self.sessions@.len() && self.sessions@[i as int].0@ == id@,
                None => !self@.sessions.contains_key(id@),
            },
    {
        let mut i: usize = 0;
        while i < self.sessions.len()
            invariant
                i <= self.sessions@.len(),
                forall|j: int| 0 <= j < i ==> self.sessions@[j].0@ != id@,
            decreases self.sessions@.len() - i,
        {
            if str_equal(self.sessions[i].0.as_str(), id) {
                return Some(i);
            }
            i = i + 1;
        }
        proof {
            if self@.sessions.contains_key(id@) {
                let j = choose|j: int|
                    0 <= j < self.sessions@.len() && self.sessions@[j].0@ == id@;
                assert(self.sessions@[j].0@ != id@);
            }
        }
        None
    }

    /// Reserves the single recording slot, failing if one is already active or
    /// starting.
    pub fn try_begin_start(&mut self) -> (result: Result<(), String>)
        requires
            old(self).wf(),
        ensures
            final(self).wf(),
            result is Ok == spec_try_begin_start(old(self)@).0,
            final(self)@ == spec_try_begin_start(old(self)@).1,
            result matches Err(message) ==> message@ == recording_in_progress_message(),
    {
        proof {
            lemma_entries_map_empty(self.sessions@);
        }
        if self.starting || self.sessions.len() != 0 {
            return Err(String::from_str("A recording is already in progress on this display."));
        }
        self.starting = true;
        Ok(())
    }

    /// Registers a successfully started recording, releasing the start reservation.
    /// A recording already registered under the same id is replaced.
    pub fn finish_start(&mut self, recording_id: String, session: RecordingSession<H>)
        requires
            old(self).wf(),
        ensures
            final(self).wf(),
            final(self)@ == spec_finish_start(old(self)@, recording_id@, session@),
    {
        self.starting = false;
        let ghost before = self.sessions@;
        match self.find(recording_id.as_str()) {
            Some(i) => {
                let _replaced = self.sessions.remove(i);
                proof {
                    lemma_entries_map_remove(before, i as int);
                }
            },
            None => {},
        }
        let ghost mid = self.sessions@;
        proof {
            assert(!entries_map(mid).contains_key(recording_id@));
        }
        let ghost key = recording_id@;
        let ghost handle = session@;
        self.sessions.push((recording_id, session));
        proof {
            lemma_entries_map_push(mid, self.sessions@.last());
            assert(mid.push(self.sessions@.last()) == self.sessions@);
            assert(entries_map(self.sessions@) =~= entries_map(before).insert(key, handle));
        }
    }

    /// Releases the start reservation after a failed start.
    pub fn abort_start(&mut self)
        requires
            old(self).wf(),
        ensures
            final(self).wf(),
            final(self)@ == spec_abort_start(old(self)@),
    {
        self.starting = false;
    }

    /// Removes and returns the session for `recording_id`, if present.
    pub fn take_session(&mut self, recording_id: &str) -> (taken: Option<RecordingSession<H>>)
        requires
            old(self).wf(),
        ensures
            final(self).wf(),
            taken matches Some(s) ==> spec_take_session(old(self)@, recording_id@).0 == Some(
                s@,
            ),
            taken is None ==> spec_take_session(old(self)@, recording_id@).0 is None,
            final(self)@ == spec_take_session(old(self)@, recording_id@).1,
    {
        let ghost before = self.sessions@;
        match self.find(recording_id) {
            Some(i) => {
                proof {
                    lemma_entries_map_lookup(before, i as int);
                    lemma_entries_map_remove(before, i as int);
                }
                let (_id, session) = self.sessions.remove(i);
                Some(session)
            },
            None => None,
        }
    }
}

} // verus!
