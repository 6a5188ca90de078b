//! The provenance ledger (the world line) as an in-memory index: an
//! append-only list of events, each on a named branch, and the branch
//! new events go to. Reading and writing the ledger file is the
//! caller's part; this module decides what is written and what the
//! ledger then holds.
use vstd::prelude::*;
use crate::text::{append_signed, append_str, chars_eq, chars_of, signed_decimal, string_of};

verus! {

/// The branch a fresh ledger appends to.
pub const DEFAULT_BRANCH: &'static str = "main";

/// How an event's patch fared when it was checked.
#[derive(Debug, Clone)]
pub struct ValidationResult {
    pub ok: bool,
    pub notes: Option<String>,
}

impl Default for ValidationResult {
    fn default() -> (r: Self)
        ensures
            !r.ok && r.notes is None,
    {
        ValidationResult { ok: false, notes: None }
    }
}

/// Where an event stands on the way to being applied.
#[derive(Debug, Clone, Copy, PartialEq, Eq, Structural)]
pub enum ApprovalState {
    Pending,
    AutoApproved,
    Approved,
    Rejected,
}

impl Default for ApprovalState {
    fn default() -> (r: Self)
        ensures
            r == ApprovalState::Pending,
    {
        ApprovalState::Pending
    }
}

/// The approval band a patch's risk falls into.
#[derive(Debug, Clone, Copy, PartialEq, Eq, Structural)]
pub enum ApprovalGate {
    Auto,
    HumanRequired,
    SimulationRequired,
}

/// One ledger event, as the ledger's logic reads it: its id, the event
/// it follows, its branch, the intent and approval of its patch, and
/// the patch's risk as the bit pattern of an `f32`.
#[derive(Debug, Clone)]
pub struct LedgerEvent {
    pub id: String,
    pub parent: Option<String>,
    pub branch: String,
    pub intent: String,
    pub validation: ValidationResult,
    pub approval: ApprovalState,
    pub risk_bits: u32,
}

/// Why a ledger operation was refused.
#[derive(Debug, Clone, PartialEq, Eq)]
pub enum LedgerError {
    /// `branch_from` named a parent event the ledger does not hold.
    ParentNotFound(String),
    /// `approve_pending` named an event the ledger does not hold.
    EventNotFound(String),
}

pub open spec fn ledger_error_text(e: LedgerError) -> Seq<char> {
    match e {
        LedgerError::ParentNotFound(id) => "patch apply: branch parent not found: "@ + id@,
        LedgerError::EventNotFound(id) => "patch apply: event not found: "@ + id@,
    }
}

impl LedgerError {
    /// The error's message.
    pub fn to_string(&self) -> (r: String)
        ensures
            r@ == ledger_error_text(*self),
    {
        let mut v: Vec<char>;
        match self {
            LedgerError::ParentNotFound(id) => {
                v = chars_of("patch apply: branch parent not found: ");
                append_str(&mut v, id.as_str());
            },
            LedgerError::EventNotFound(id) => {
                v = chars_of("patch apply: event not found: ");
                append_str(&mut v, id.as_str());
            },
        }
        string_of(&v)
    }
}

/// The append-only ledger and the branch it appends to.
#[derive(Debug)]
pub struct WorldLine {
    events: Vec<LedgerEvent>,
    current_branch: String,
}

/// The ledger as plain values: its events, oldest first, and the
/// current branch.
pub struct LineView {
    pub events: Seq<LedgerEvent>,
    pub current: Seq<char>,
}

impl View for WorldLine {
    type V = LineView;

    closed spec fn view(&self) -> LineView {
        LineView { events: self.events@, current: self.current_branch@ }
    }
}

/// The branch of each event, in order.
pub open spec fn branch_names(evs: Seq<LedgerEvent>) -> Seq<Seq<char>> {
    evs.map_values(|e: LedgerEvent| e.branch@)
}

/// The distinct names of `bs`, in order of first appearance.
pub open spec fn first_seen(bs: Seq<Seq<char>>) -> Seq<Seq<char>>
    decreases bs.len(),
{
    if bs.len() == 0 {
        Seq::empty()
    } else {
        let prev = first_seen(bs.drop_last());
        if prev.contains(bs.last()) {
            prev
        } else {
            prev.push(bs.last())
        }
    }
}

/// Every branch of the ledger in order of first appearance, then the
/// current branch if no event is on it yet.
pub open spec fn branch_list(l: LineView) -> Seq<Seq<char>> {
    let seen = first_seen(branch_names(l.events));
    if seen.contains(l.current) {
        seen
    } else {
        seen.push(l.current)
    }
}

/// How many events of `evs` are on branch `b`.
pub open spec fn count_on_branch(evs: Seq<LedgerEvent>, b: Seq<char>) -> nat
    decreases evs.len(),
{
    if evs.len() == 0 {
        0
    } else {
        count_on_branch(evs.drop_last(), b) + if evs.last().branch@ == b {
            1nat
        } else {
            0nat
        }
    }
}

/// The ids of the events on branch `b`, in order.
pub open spec fn ids_on(evs: Seq<LedgerEvent>, b: Seq<char>) -> Seq<Seq<char>>
    decreases evs.len(),
{
    if evs.len() == 0 {
        Seq::empty()
    } else {
        let prev = ids_on(evs.drop_last(), b);
        if evs.last().branch@ == b {
            prev.push(evs.last().id@)
        } else {
            prev
        }
    }
}

/// The elements of `xs` that `ys` holds (`present`) or lacks, in order.
pub open spec fn keep(xs: Seq<Seq<char>>, ys: Seq<Seq<char>>, present: bool) -> Seq<Seq<char>>
    decreases xs.len(),
{
    if xs.len() == 0 {
        Seq::empty()
    } else {
        let prev = keep(xs.drop_last(), ys, present);
        if ys.contains(xs.last()) == present {
            prev.push(xs.last())
        } else {
            prev
        }
    }
}

/// Whether some event of `evs` has id `id`.
pub open spec fn holds_id(evs: Seq<LedgerEvent>, id: Seq<char>) -> bool {
    exists|i: int| 0 <= i < evs.len() && #[trigger] evs[i].id@ == id
}

/// The first event with id `id`.
pub open spec fn position_of(evs: Seq<LedgerEvent>, id: Seq<char>) -> Option<int>
    decreases evs.len(),
{
    if evs.len() == 0 {
        None
    } else {
        match position_of(evs.drop_last(), id) {
            Some(i) => Some(i),
            None => if evs.last().id@ == id {
                Some(evs.len() - 1)
            } else {
                None
            },
        }
    }
}

/// The id of the newest event, if any.
pub open spec fn head_id(evs: Seq<LedgerEvent>) -> Option<Seq<char>> {
    if evs.len() == 0 {
        None
    } else {
        Some(evs.last().id@)
    }
}

pub open spec fn opt_text(o: Option<String>) -> Option<Seq<char>> {
    match o {
        Some(s) => Some(s@),
        None => None,
    }
}

/// The marker event `branch_from` appends: `ev_branch_<nanos>` on the
/// new branch, after `parent`, automatically approved, of no risk.
pub open spec fn is_branch_marker(e: LedgerEvent, branch: Seq<char>, parent: Option<Seq<char>>, nanos: int) -> bool {
    &&& e.id@ == "ev_branch_"@ + signed_decimal(nanos)
    &&& opt_text(e.parent) == parent
    &&& e.branch@ == branch
    &&& e.intent@ == "branch_from: "@ + branch
    &&& e.validation.ok
    &&& opt_text(e.validation.notes) == Some("branch marker"@)
    &&& e.approval == ApprovalState::AutoApproved
    &&& e.risk_bits == 0
}

fn same_text(a: &str, b: &str) -> (r: bool)
    ensures
        r == (a@ == b@),
{
    chars_eq(&chars_of(a), &chars_of(b))
}

fn copy_text(s: &str) -> (r: String)
    ensures
        r@ == s@,
{
    string_of(&chars_of(s))
}

fn contains_text(v: &Vec<String>, s: &str) -> (r: bool)
    ensures
        r == v@.map_values(|x: String| x@).contains(s@),
{
    let ghost vs = v@.map_values(|x: String| x@);
    for i in 0..v.len()
        invariant
            vs == v@.map_values(|x: String| x@),
            forall|j: int| 0 <= j < i ==> vs[j] != s@,
    {
        if same_text(v[i].as_str(), s) {
            assert(vs[i as int] == s@);
            return true;
        }
    }
    false
}

proof fn lemma_push_view(v: Seq<String>, s: String)
    ensures
        v.push(s).map_values(|x: String| x@) == v.map_values(|x: String| x@).push(s@),
{
    assert(v.push(s).map_values(|x: String| x@) =~= v.map_values(|x: String| x@).push(s@));
}

impl WorldLine {
    /// The ledger holding `events`, oldest first; it appends to the
    /// branch of the newest event, or to `main` when there is none.
    pub fn from_events(events: Vec<LedgerEvent>) -> (r: Self)
        ensures
            r@.events == events@,
            events@.len() == 0 ==> r@.current == "main"@,
            events@.len() > 0 ==> r@.current == events@.last().branch@,
    {
        let current_branch = if events.len() == 0 {
            copy_text(DEFAULT_BRANCH)
        } else {
            copy_text(events[events.len() - 1].branch.as_str())
        };
        WorldLine { events, current_branch }
    }

    /// How many events the ledger holds.
    pub fn len(&self) -> (n: usize)
        ensures
            n == self@.events.len(),
    {
        self.events.len()
    }

    pub fn is_empty(&self) -> (b: bool)
        ensures
            b == (self@.events.len() == 0),
    {
        self.events.len() == 0
    }

    /// The events, oldest first.
    pub fn events(&self) -> (r: &Vec<LedgerEvent>)
        ensures
            r@ == self@.events,
    {
        &self.events
    }

    /// The branch new events go to.
    pub fn current_branch(&self) -> (r: &str)
        ensures
            r@ == self@.current,
    {
        self.current_branch.as_str()
    }

    /// Send future events to `branch`; the events stay as they are.
    pub fn switch_to(&mut self, branch: String)
        ensures
            final(self)@.events == old(self)@.events,
            final(self)@.current == branch@,
    {
        self.current_branch = branch;
    }

    /// Add `event` as the newest event.
    pub fn append(&mut self, event: LedgerEvent)
        ensures
            final(self)@.events == old(self)@.events.push(event),
            final(self)@.current == old(self)@.current,
    {
        self.events.push(event);
    }

    /// Every branch name in order of first appearance, the current
    /// branch included even when no event is on it.
    pub fn branches(&self) -> (r: Vec<String>)
        ensures
            r@.map_values(|x: String| x@) == branch_list(self@),
    {
        let mut out: Vec<String> = Vec::new();
        let ghost evs = self.events@;
        for i in 0..self.events.len()
            invariant
                evs == self.events@,
                out@.map_values(|x: String| x@) == first_seen(branch_names(evs.take(i as int))),
        {
            proof {
                assert(branch_names(evs.take(i + 1)).drop_last() == branch_names(evs.take(i as int)));
                assert(branch_names(evs.take(i + 1)).last() == evs[i as int].branch@);
            }
            let b = self.events[i].branch.as_str();
            if !contains_text(&out, b) {
                let ghost before = out@;
                out.push(copy_text(b));
                proof {
                    lemma_push_view(before, out@.last());
                    assert(before.push(out@.last()) == out@);
                }
            }
        }
        assert(evs.take(evs.len() as int) == evs);
        if !contains_text(&out, self.current_branch.as_str()) {
            let ghost before = out@;
            out.push(copy_text(self.current_branch.as_str()));
            proof {
                lemma_push_view(before, out@.last());
                assert(before.push(out@.last()) == out@);
            }
        }
        out
    }

    /// How many events are on `branch`.
    pub fn count_on(&self, branch: &str) -> (n: usize)
        ensures
            n == count_on_branch(self@.events, branch@),
    {
        let ghost evs = self.events@;
        let mut n: usize = 0;
        for i in 0..self.events.len()
            invariant
                evs == self.events@,
                n == count_on_branch(evs.take(i as int), branch@),
                n <= i,
        {
            proof {
                assert(evs.take(i + 1).drop_last() == evs.take(i as int));
            }
            if same_text(self.events[i].branch.as_str(), branch) {
                n = n + 1;
            }
        }
        assert(evs.take(evs.len() as int) == evs);
        n
    }

    /// The ids of the events on `branch`, oldest first.
    pub fn ids_on(&self, branch: &str) -> (r: Vec<String>)
        ensures
            r@.map_values(|x: String| x@) == ids_on(self@.events, branch@),
    {
        let ghost evs = self.events@;
        let mut out: Vec<String> = Vec::new();
        for i in 0..self.events.len()
            invariant
                evs == self.events@,
                out@.map_values(|x: String| x@) == ids_on(evs.take(i as int), branch@),
        {
            proof {
                assert(evs.take(i + 1).drop_last() == evs.take(i as int));
            }
            if same_text(self.events[i].branch.as_str(), branch) {
                let ghost before = out@;
                out.push(copy_text(self.events[i].id.as_str()));
                proof {
                    lemma_push_view(before, out@.last());
                    assert(before.push(out@.last()) == out@);
                }
            }
        }
        assert(evs.take(evs.len() as int) == evs);
        out
    }

    /// The index of the first event with id `id`.
    pub fn position(&self, id: &str) -> (r: Option<usize>)
        ensures
            match r {
                Some(i) => position_of(self@.events, id@) == Some(i as int) && i < self@.events.len(),
                None => position_of(self@.events, id@) is None,
            },
    {
        let ghost evs = self.events@;
        for i in 0..self.events.len()
            invariant
                evs == self.events@,
                position_of(evs.take(i as int), id@) is None,
        {
            proof {
                assert(evs.take(i + 1).drop_last() == evs.take(i as int));
            }
            if same_text(self.events[i].id.as_str(), id) {
                proof {
                    lemma_position_prefix(evs, id@, i + 1);
                }
                return Some(i);
            }
        }
        assert(evs.take(evs.len() as int) == evs);
        None
    }

    /// The marker event that forks `new_branch` at `nanos`: after event
    /// `from` when given (which must be in the ledger), else after the
    /// newest event.
    pub fn branch_marker(&self, new_branch: &str, from: Option<&str>, nanos: i64) -> (r: Result<LedgerEvent, LedgerError>)
        ensures
            match from {
                Some(id) => if holds_id(self@.events, id@) {
                    r matches Ok(e) && is_branch_marker(e, new_branch@, Some(id@), nanos as int)
                } else {
                    r matches Err(LedgerError::ParentNotFound(x)) && x@ == id@
                },
                None => r matches Ok(e) && is_branch_marker(e, new_branch@, head_id(self@.events), nanos as int),
            },
    {
        let parent = match from {
            Some(id) => {
                match self.position(id) {
                    None => {
                        proof {
                            lemma_position_none(self@.events, id@);
                        }
                        return Err(LedgerError::ParentNotFound(copy_text(id)));
                    },
                    Some(i) => {
                        proof {
                            lemma_position_some(self@.events, id@);
                            assert(self@.events[i as int].id@ == id@);
                        }
                        Some(copy_text(id))
                    },
                }
            },
            None => {
                if self.events.len() == 0 {
                    None
                } else {
                    Some(copy_text(self.events[self.events.len() - 1].id.as_str()))
                }
            },
        };
        let mut idv = chars_of("ev_branch_");
        append_signed(&mut idv, nanos);
        let mut intent = chars_of("branch_from: ");
        append_str(&mut intent, new_branch);
        Ok(LedgerEvent {
            id: string_of(&idv),
            parent,
            branch: copy_text(new_branch),
            intent: string_of(&intent),
            validation: ValidationResult { ok: true, notes: Some(copy_text("branch marker")) },
            approval: ApprovalState::AutoApproved,
            risk_bits: 0,
        })
    }

    /// Fork `new_branch` at `nanos`: append its marker event (see
    /// `branch_marker`) and switch to it; the marker's id.
    pub fn branch_from(&mut self, new_branch: &str, from: Option<&str>, nanos: i64) -> (r: Result<String, LedgerError>)
        ensures
            match from {
                Some(id) => !holds_id(old(self)@.events, id@) ==> (r matches Err(LedgerError::ParentNotFound(x)) && x@
                    == id@ && final(self)@ == old(self)@),
                None => true,
            },
            r is Ok ==> {
                &&& final(self)@.events.len() == old(self)@.events.len() + 1
                &&& final(self)@.events.drop_last() == old(self)@.events
                &&& is_branch_marker(
                    final(self)@.events.last(),
                    new_branch@,
                    match from {
                        Some(id) => Some(id@),
                        None => head_id(old(self)@.events),
                    },
                    nanos as int,
                )
                &&& r->Ok_0@ == final(self)@.events.last().id@
                &&& final(self)@.current == new_branch@
            },
            (from is None || holds_id(old(self)@.events, from->Some_0@)) ==> r is Ok,
    {
        match self.branch_marker(new_branch, from, nanos) {
            Err(e) => Err(e),
            Ok(ev) => {
                let id = copy_text(ev.id.as_str());
                self.events.push(ev);
                self.current_branch = copy_text(new_branch);
                proof {
                    assert(self@.events.drop_last() == old(self)@.events);
                }
                Ok(id)
            },
        }
    }
}

proof fn lemma_position_prefix(evs: Seq<LedgerEvent>, id: Seq<char>, n: int)
    requires
        0 <= n <= evs.len(),
        position_of(evs.take(n), id) is Some,
    ensures
        position_of(evs, id) == position_of(evs.take(n), id),
    decreases evs.len() - n,
{
    if n < evs.len() {
        assert(evs.take(n + 1).drop_last() == evs.take(n));
        lemma_position_prefix(evs, id, n + 1);
    } else {
        assert(evs.take(n) == evs);
    }
}

/// A first position holds an event with that id.
proof fn lemma_position_some(evs: Seq<LedgerEvent>, id: Seq<char>)
    ensures
        position_of(evs, id) matches Some(i) ==> 0 <= i < evs.len() && evs[i].id@ == id,
    decreases evs.len(),
{
    if evs.len() > 0 {
        lemma_position_some(evs.drop_last(), id);
    }
}

/// No first position means no event with that id.
proof fn lemma_position_none(evs: Seq<LedgerEvent>, id: Seq<char>)
    requires
        position_of(evs, id) is None,
    ensures
        !holds_id(evs, id),
    decreases evs.len(),
{
    if evs.len() > 0 {
        lemma_position_none(evs.drop_last(), id);
        assert forall|i: int| 0 <= i < evs.len() implies #[trigger] evs[i].id@ != id by {
            if i < evs.len() - 1 {
                assert(evs.drop_last()[i] == evs[i]);
            }
        }
    }
}


/// The event recording a patch applied with provenance at `nanos`:
/// `ev_<nanos>` after the newest event, on the current branch; when
/// automatically approved it is validated and `AutoApproved`,
/// otherwise unvalidated, noted `pending approval` and `Pending`.
pub open spec fn is_patch_event(
    e: LedgerEvent,
    l: LineView,
    nanos: int,
    intent: Seq<char>,
    auto_approved: bool,
    risk_bits: u32,
) -> bool {
    &&& e.id@ == "ev_"@ + signed_decimal(nanos)
    &&& opt_text(e.parent) == head_id(l.events)
    &&& e.branch@ == l.current
    &&& e.intent@ == intent
    &&& e.risk_bits == risk_bits
    &&& if auto_approved {
        e.validation.ok && e.validation.notes is None && e.approval == ApprovalState::AutoApproved
    } else {
        !e.validation.ok && opt_text(e.validation.notes) == Some("pending approval"@) && e.approval
            == ApprovalState::Pending
    }
}

/// The event recording the approval of event `target` at `nanos`.
pub open spec fn is_approval_event(e: LedgerEvent, l: LineView, target: LedgerEvent, nanos: int) -> bool {
    &&& e.id@ == "ev_"@ + signed_decimal(nanos) + "_approved"@
    &&& opt_text(e.parent) == Some(target.id@)
    &&& e.branch@ == l.current
    &&& e.intent@ == "approve: "@ + target.intent@
    &&& e.validation.ok && opt_text(e.validation.notes) == Some("approved"@)
    &&& e.approval == ApprovalState::Approved
    &&& e.risk_bits == target.risk_bits
}

impl WorldLine {
    /// The event for a patch applied at `nanos` with `intent`, approved
    /// automatically or left pending (see `is_patch_event`).
    pub fn patch_event(&self, nanos: i64, intent: String, auto_approved: bool, risk_bits: u32) -> (e: LedgerEvent)
        ensures
            is_patch_event(e, self@, nanos as int, intent@, auto_approved, risk_bits),
    {
        let mut idv = chars_of("ev_");
        append_signed(&mut idv, nanos);
        let parent = if self.events.len() == 0 {
            None
        } else {
            Some(copy_text(self.events[self.events.len() - 1].id.as_str()))
        };
        let (validation, approval) = if auto_approved {
            (ValidationResult { ok: true, notes: None }, ApprovalState::AutoApproved)
        } else {
            (ValidationResult { ok: false, notes: Some(copy_text("pending approval")) }, ApprovalState::Pending)
        };
        LedgerEvent {
            id: string_of(&idv),
            parent,
            branch: copy_text(self.current_branch.as_str()),
            intent,
            validation,
            approval,
            risk_bits,
        }
    }

    /// Approve event `event_id` at `nanos`: mark the first event with
    /// that id approved and append the event that records it; its id.
    pub fn approve_pending(&mut self, event_id: &str, nanos: i64) -> (r: Result<String, LedgerError>)
        ensures
            match position_of(old(self)@.events, event_id@) {
                None => r matches Err(LedgerError::EventNotFound(x)) && x@ == event_id@ && final(self)@ == old(
                    self,
                )@,
                Some(i) => {
                    let target = old(self)@.events[i];
                    &&& r matches Ok(id) && id@ == final(self)@.events.last().id@
                    &&& final(self)@.events.len() == old(self)@.events.len() + 1
                    &&& final(self)@.events.drop_last() == old(self)@.events.update(
                        i,
                        LedgerEvent { approval: ApprovalState::Approved, ..target },
                    )
                    &&& is_approval_event(final(self)@.events.last(), old(self)@, target, nanos as int)
                    &&& final(self)@.current == old(self)@.current
                },
            },
    {
        match self.position(event_id) {
            None => Err(LedgerError::EventNotFound(copy_text(event_id))),
            Some(i) => {
                proof {
                    lemma_position_some(self@.events, event_id@);
                }
                let ghost target = self.events@[i as int];
                let mut idv = chars_of("ev_");
                append_signed(&mut idv, nanos);
                append_str(&mut idv, "_approved");
                let mut intent = chars_of("approve: ");
                append_str(&mut intent, self.events[i].intent.as_str());
                let ev = LedgerEvent {
                    id: string_of(&idv),
                    parent: Some(copy_text(self.events[i].id.as_str())),
                    branch: copy_text(self.current_branch.as_str()),
                    intent: string_of(&intent),
                    validation: ValidationResult { ok: true, notes: Some(copy_text("approved")) },
                    approval: ApprovalState::Approved,
                    risk_bits: self.events[i].risk_bits,
                };
                let id = copy_text(ev.id.as_str());
                let mut events: Vec<LedgerEvent> = Vec::new();
                std::mem::swap(&mut events, &mut self.events);
                let mut old_ev = events.remove(i);
                old_ev.approval = ApprovalState::Approved;
                events.insert(i, old_ev);
                events.push(ev);
                self.events = events;
                proof {
                    assert(self@.events.drop_last() =~= old(self)@.events.update(
                        i as int,
                        LedgerEvent { approval: ApprovalState::Approved, ..target },
                    ));
                }
                Ok(id)
            },
        }
    }
}

/// The bytes the Merkle root of branch `b` hashes, over the first `n`
/// events: each event on `b`, in order, gives the UTF-8 bytes of its id
/// and then the JSON bytes of its patch when it has them (`patches[i]`
/// belongs to event `i`; an event past the end of `patches` has none).
pub open spec fn merkle_input(evs: Seq<LedgerEvent>, patches: Seq<Option<Seq<u8>>>, b: Seq<char>, n: int) -> Seq<u8>
    decreases n,
{
    if n <= 0 {
        Seq::empty()
    } else {
        let prev = merkle_input(evs, patches, b, n - 1);
        if evs[n - 1].branch@ == b {
            prev + vstd::utf8::encode_utf8(evs[n - 1].id@) + if n - 1 < patches.len() {
                match patches[n - 1] {
                    Some(p) => p,
                    None => Seq::empty(),
                }
            } else {
                Seq::empty()
            }
        } else {
            prev
        }
    }
}

pub open spec fn bytes_view(v: Seq<Option<Vec<u8>>>) -> Seq<Option<Seq<u8>>> {
    v.map_values(
        |o: Option<Vec<u8>>|
            match o {
                Some(b) => Some(b@),
                None => None,
            },
    )
}

fn append_bytes(out: &mut Vec<u8>, b: &[u8])
    ensures
        final(out)@ == old(out)@ + b@,
{
    let ghost start = out@;
    for i in 0..b.len()
        invariant
            out@ == start + b@.take(i as int),
    {
        out.push(b[i]);
        assert(b@.take(i + 1) == b@.take(i as int).push(b@[i as int]));
    }
    assert(b@.take(b@.len() as int) == b@);
}

impl WorldLine {
    /// The rolling Merkle root of `branch`: the SHA-256 digest of, for
    /// each event on it in ledger order, its id's bytes followed by its
    /// patch's JSON bytes (`patch_json[i]` belongs to event `i`; `None`,
    /// or no entry, when the patch could not be serialized).
    pub fn merkle_root(&self, patch_json: &Vec<Option<Vec<u8>>>, branch: &str) -> (r: Vec<u8>)
        ensures
            r@ == crate::cells::sha256_of(
                merkle_input(self@.events, bytes_view(patch_json@), branch@, self@.events.len() as int),
            ),
            r@.len() == 32,
    {
        let ghost evs = self.events@;
        let ghost pv = bytes_view(patch_json@);
        let mut data: Vec<u8> = Vec::new();
        for i in 0..self.events.len()
            invariant
                evs == self.events@,
                pv == bytes_view(patch_json@),
                pv.len() == patch_json@.len(),
                data@ == merkle_input(evs, pv, branch@, i as int),
        {
            let ev = &self.events[i];
            if same_text(ev.branch.as_str(), branch) {
                append_bytes(&mut data, ev.id.as_str().as_bytes());
                if i < patch_json.len() {
                    match &patch_json[i] {
                        Some(p) => {
                            append_bytes(&mut data, p.as_slice());
                        },
                        None => {},
                    }
                    proof {
                        assert(pv[i as int] == match patch_json@[i as int] {
                            Some(b) => Some(b@),
                            None => None,
                        });
                    }
                }
                assert(data@ =~= merkle_input(evs, pv, branch@, i + 1));
            }
        }
        crate::cells::sha256(&data)
    }
}

/// Events on other branches leave a branch's Merkle input unchanged:
/// appending one adds nothing.
pub proof fn lemma_merkle_ignores_other_branches(
    evs: Seq<LedgerEvent>,
    patches: Seq<Option<Seq<u8>>>,
    e: LedgerEvent,
    p: Option<Seq<u8>>,
    b: Seq<char>,
)
    requires
        patches.len() == evs.len(),
        e.branch@ != b,
    ensures
        merkle_input(evs.push(e), patches.push(p), b, evs.len() as int + 1) == merkle_input(evs, patches, b, evs.len() as int),
{
    lemma_merkle_prefix(evs, patches, evs.push(e), patches.push(p), b, evs.len() as int);
}

/// The Merkle input of a prefix depends on that prefix alone.
proof fn lemma_merkle_prefix(
    evs: Seq<LedgerEvent>,
    patches: Seq<Option<Seq<u8>>>,
    evs2: Seq<LedgerEvent>,
    patches2: Seq<Option<Seq<u8>>>,
    b: Seq<char>,
    n: int,
)
    requires
        0 <= n <= evs.len(),
        n <= evs2.len(),
        n <= patches.len(),
        n <= patches2.len(),
        forall|i: int| 0 <= i < n ==> evs[i] == evs2[i] && patches[i] == patches2[i],
    ensures
        merkle_input(evs, patches, b, n) == merkle_input(evs2, patches2, b, n),
    decreases n,
{
    if n > 0 {
        lemma_merkle_prefix(evs, patches, evs2, patches2, b, n - 1);
    }
}

/// Appending an event counts on its branch alone.
pub proof fn lemma_append_counts_on_its_branch(evs: Seq<LedgerEvent>, e: LedgerEvent, b: Seq<char>)
    ensures
        count_on_branch(evs.push(e), b) == count_on_branch(evs, b) + if e.branch@ == b {
            1nat
        } else {
            0nat
        },
{
    assert(evs.push(e).drop_last() == evs);
}

/// A named counterfactual branch of the ledger and the event where it
/// forked.
#[derive(Debug, Clone, PartialEq, Eq)]
pub struct Scenario {
    pub branch: String,
    pub fork_event: Option<String>,
    pub hypothesis: String,
}

impl Scenario {
    /// A scenario not yet forked.
    pub fn new(branch: String, hypothesis: String) -> (r: Self)
        ensures
            r.branch@ == branch@ && r.hypothesis@ == hypothesis@ && r.fork_event is None,
    {
        Scenario { branch, fork_event: None, hypothesis }
    }

    /// Fork the scenario's branch on `line` at `nanos` (after event
    /// `from`, or the newest event) and switch the line to it; the fork
    /// event's id, which the scenario records.
    pub fn open(&mut self, line: &mut WorldLine, from: Option<&str>, nanos: i64) -> (r: Result<String, LedgerError>)
        ensures
            final(self).branch == old(self).branch && final(self).hypothesis == old(self).hypothesis,
            match r {
                Ok(id) => opt_text(final(self).fork_event) == Some(id@) && id@ == final(line)@.events.last().id@
                    && final(line)@.current == old(self).branch@ && final(line)@.events.drop_last() == old(line)@.events
                    && final(line)@.events.len() == old(line)@.events.len() + 1,
                Err(_) => final(self).fork_event == old(self).fork_event && final(line)@ == old(line)@,
            },
            (from is None || holds_id(old(line)@.events, from->Some_0@)) ==> r is Ok,
            from matches Some(id) && !holds_id(old(line)@.events, id@) ==> r is Err,
    {
        let r = line.branch_from(self.branch.as_str(), from, nanos);
        match r {
            Ok(id) => {
                self.fork_event = Some(copy_text(id.as_str()));
                Ok(id)
            },
            Err(e) => Err(e),
        }
    }
}

/// How two branches of the ledger differ.
#[derive(Debug, Clone, PartialEq, Eq)]
pub struct ScenarioDiff {
    pub left: String,
    pub right: String,
    pub left_event_count: usize,
    pub right_event_count: usize,
    /// Ids on the left branch only, in ledger order.
    pub only_in_left: Vec<String>,
    /// Ids on the right branch only, in ledger order.
    pub only_in_right: Vec<String>,
    /// Ids on both branches, in the left branch's order.
    pub shared: Vec<String>,
}

pub open spec fn texts(v: Vec<String>) -> Seq<Seq<char>> {
    v@.map_values(|x: String| x@)
}

fn keep_exec(xs: &Vec<String>, ys: &Vec<String>, present: bool) -> (r: Vec<String>)
    ensures
        texts(r) == keep(texts(*xs), texts(*ys), present),
{
    let mut out: Vec<String> = Vec::new();
    let ghost xv = texts(*xs);
    for i in 0..xs.len()
        invariant
            xv == texts(*xs),
            texts(out) == keep(xv.take(i as int), texts(*ys), present),
    {
        proof {
            assert(xv.take(i + 1).drop_last() == xv.take(i as int));
            assert(xv.take(i + 1).last() == xv[i as int]);
        }
        if contains_text(ys, xs[i].as_str()) == present {
            let ghost before = out@;
            out.push(copy_text(xs[i].as_str()));
            proof {
                lemma_push_view(before, out@.last());
                assert(before.push(out@.last()) == out@);
            }
        }
    }
    assert(xv.take(xv.len() as int) == xv);
    out
}

/// Compare branches `left` and `right` of `line`: each branch's event
/// count, the ids only on one side, and the ids on both.
pub fn compare_scenarios(line: &WorldLine, left: &str, right: &str) -> (d: ScenarioDiff)
    ensures
        d.left@ == left@ && d.right@ == right@,
        d.left_event_count == ids_on(line@.events, left@).len(),
        d.right_event_count == ids_on(line@.events, right@).len(),
        texts(d.only_in_left) == keep(ids_on(line@.events, left@), ids_on(line@.events, right@), false),
        texts(d.only_in_right) == keep(ids_on(line@.events, right@), ids_on(line@.events, left@), false),
        texts(d.shared) == keep(ids_on(line@.events, left@), ids_on(line@.events, right@), true),
{
    let left_ids = line.ids_on(left);
    let right_ids = line.ids_on(right);
    let only_in_left = keep_exec(&left_ids, &right_ids, false);
    let only_in_right = keep_exec(&right_ids, &left_ids, false);
    let shared = keep_exec(&left_ids, &right_ids, true);
    proof {
        assert(left_ids@.len() == texts(left_ids).len());
        assert(right_ids@.len() == texts(right_ids).len());
    }
    ScenarioDiff {
        left: copy_text(left),
        right: copy_text(right),
        left_event_count: left_ids.len(),
        right_event_count: right_ids.len(),
        only_in_left,
        only_in_right,
        shared,
    }
}

/// Every id of a branch is either shared or only on that branch, never
/// both: the two lists split the branch's ids, shared ones being on the
/// other branch and the rest not.
pub proof fn lemma_diff_splits_branch(xs: Seq<Seq<char>>, ys: Seq<Seq<char>>)
    ensures
        keep(xs, ys, false).len() + keep(xs, ys, true).len() == xs.len(),
        forall|x: Seq<char>| #[trigger] xs.contains(x) <==> (keep(xs, ys, false).contains(x) || keep(xs, ys, true).contains(x)),
        forall|x: Seq<char>| #[trigger] keep(xs, ys, true).contains(x) ==> ys.contains(x),
        forall|x: Seq<char>| #[trigger] keep(xs, ys, false).contains(x) ==> !ys.contains(x),
    decreases xs.len(),
{
    if xs.len() > 0 {
        let p = xs.drop_last();
        lemma_diff_splits_branch(p, ys);
        let l = xs.last();
        assert(xs == p.push(l));
        lemma_push_contains(p, l);
        lemma_push_contains(keep(p, ys, false), l);
        lemma_push_contains(keep(p, ys, true), l);
    }
}

/// Comparing a branch with itself finds nothing on one side only.
pub proof fn lemma_diff_with_itself(xs: Seq<Seq<char>>)
    ensures
        keep(xs, xs, false) == Seq::<Seq<char>>::empty(),
        keep(xs, xs, true) == xs,
{
    lemma_keep_within(xs, xs, xs.len() as int);
    assert(xs.take(xs.len() as int) == xs);
}

proof fn lemma_keep_within(xs: Seq<Seq<char>>, all: Seq<Seq<char>>, n: int)
    requires
        0 <= n <= xs.len(),
        forall|i: int| 0 <= i < xs.len() ==> all.contains(#[trigger] xs[i]),
    ensures
        keep(xs.take(n), all, false) == Seq::<Seq<char>>::empty(),
        keep(xs.take(n), all, true) == xs.take(n),
    decreases n,
{
    if n > 0 {
        lemma_keep_within(xs, all, n - 1);
        assert(xs.take(n).drop_last() == xs.take(n - 1));
        assert(xs.take(n).last() == xs[n - 1]);
        assert(xs.take(n - 1).push(xs[n - 1]) == xs.take(n));
    } else {
        assert(xs.take(0) == Seq::<Seq<char>>::empty());
    }
}

proof fn lemma_push_contains(s: Seq<Seq<char>>, a: Seq<char>)
    ensures
        forall|x: Seq<char>| #[trigger] s.push(a).contains(x) <==> (s.contains(x) || x == a),
{
    assert forall|x: Seq<char>| #[trigger] s.push(a).contains(x) <==> (s.contains(x) || x == a) by {
        if s.push(a).contains(x) {
            let w = choose|w: int| 0 <= w < s.push(a).len() && s.push(a)[w] == x;
            if w < s.len() {
                assert(s[w] == x);
            }
        }
        if s.contains(x) {
            let w = choose|w: int| 0 <= w < s.len() && s[w] == x;
            assert(s.push(a)[w] == x);
        }
        if x == a {
            assert(s.push(a)[s.len() as int] == x);
        }
    }
}

/// The branch list names each branch once: every branch an event is
/// on, and the current branch, and nothing else.
pub proof fn lemma_branch_list_exact(l: LineView)
    ensures
        branch_list(l).no_duplicates(),
        forall|b: Seq<char>| #[trigger] branch_list(l).contains(b) <==> (branch_names(l.events).contains(b) || b == l.current),
{
    lemma_first_seen(branch_names(l.events));
    let seen = first_seen(branch_names(l.events));
    if !seen.contains(l.current) {
        lemma_push_contains(seen, l.current);
        assert forall|i: int, j: int| 0 <= i < j < seen.push(l.current).len() implies seen.push(l.current)[i]
            != seen.push(l.current)[j] by {
            if j == seen.len() {
                assert(seen.contains(seen[i]));
            } else {
                assert(seen[i] != seen[j]);
            }
        }
    }
}

proof fn lemma_first_seen(bs: Seq<Seq<char>>)
    ensures
        first_seen(bs).no_duplicates(),
        forall|b: Seq<char>| #[trigger] first_seen(bs).contains(b) <==> bs.contains(b),
    decreases bs.len(),
{
    if bs.len() > 0 {
        let p = bs.drop_last();
        lemma_first_seen(p);
        assert(bs == p.push(bs.last()));
        lemma_push_contains(p, bs.last());
        let prev = first_seen(p);
        lemma_push_contains(prev, bs.last());
        if !prev.contains(bs.last()) {
            assert forall|i: int, j: int| 0 <= i < j < prev.push(bs.last()).len() implies prev.push(bs.last())[i]
                != prev.push(bs.last())[j] by {
                if j == prev.len() {
                    assert(prev.contains(prev[i]));
                } else {
                    assert(prev[i] != prev[j]);
                }
            }
        }
    }
}

} // verus!
