//! Finding the process that draws the screen.
//!
//! The scan walks the entries of the process directory.  An entry is a
//! candidate when it is a directory whose name is a process id.  For a
//! candidate the caller holds a handle on the entry, so that its id cannot
//! pass to another process meanwhile, and resolves the link to its
//! executable.  The first candidate whose executable is the target is the
//! process; an entry whose link cannot be resolved is passed over.
//!
//! `ProcessScan` makes the decisions.  The caller does what each
//! `ScanAction` asks for and reports what happened as the next `ScanEvent`.

use crate::io::same_bytes;
use vstd::prelude::*;

verus! {

/// Whether `c` is an ASCII digit.
pub open spec fn is_digit(c: u8) -> bool {
    0x30 <= c <= 0x39
}

/// Whether `s` is made of ASCII digits, at least one.
pub open spec fn is_decimal(s: Seq<u8>) -> bool {
    &&& s.len() > 0
    &&& forall|i: int| 0 <= i < s.len() ==> is_digit(#[trigger] s[i])
}

/// The number that a run of ASCII digits reads as.
pub open spec fn decimal_value(s: Seq<u8>) -> nat
    decreases s.len(),
{
    if s.len() == 0 {
        0
    } else {
        (decimal_value(s.drop_last()) * 10 + (s.last() - 0x30)) as nat
    }
}

/// The digits of a name: the name without a plus sign in front.
pub open spec fn digits_of(name: Seq<u8>) -> Seq<u8> {
    if name.len() > 0 && name[0] == 0x2b {
        name.skip(1)
    } else {
        name
    }
}

/// The process id that an entry name stands for: the name is a decimal
/// number, which a plus sign may precede, and the number fits a `usize`.
pub open spec fn pid_of(name: Seq<u8>) -> Option<usize> {
    let digits = digits_of(name);
    if is_decimal(digits) && decimal_value(digits) <= usize::MAX {
        Some(decimal_value(digits) as usize)
    } else {
        None
    }
}

proof fn lemma_decimal_grows(s: Seq<u8>, k: int)
    requires
        0 <= k <= s.len(),
        forall|i: int| 0 <= i < s.len() ==> is_digit(#[trigger] s[i]),
    ensures
        decimal_value(s.take(k)) <= decimal_value(s),
    decreases s.len() - k,
{
    if k == s.len() {
        assert(s.take(k) =~= s);
    } else {
        lemma_decimal_grows(s, k + 1);
        let longer = s.take(k + 1);
        assert(longer.drop_last() =~= s.take(k));
        assert(is_digit(longer.last()));
        assert(decimal_value(longer) == decimal_value(s.take(k)) * 10 + (longer.last() - 0x30));
    }
}

/// Reads an entry name as a process id.
pub fn parse_pid(name: &[u8]) -> (r: Option<usize>)
    ensures
        r == pid_of(name@),
{
    let start: usize = if name.len() > 0 && name[0] == 0x2b {
        1
    } else {
        0
    };
    let ghost digits = digits_of(name@);
    assert(digits =~= name@.skip(start as int));
    if start == name.len() {
        return None;
    }
    let mut value: usize = 0;
    let mut i: usize = start;
    while i < name.len()
        invariant
            start <= i <= name@.len(),
            digits == name@.skip(start as int),
            digits == digits_of(name@),
            forall|j: int| 0 <= j < i - start ==> is_digit(#[trigger] digits[j]),
            value == decimal_value(digits.take(i - start)),
        decreases name@.len() - i,
    {
        let c = name[i];
        if c < 0x30 || c > 0x39 {
            assert(!is_digit(digits[i - start]));
            return None;
        }
        let d = (c - 0x30) as usize;
        let ghost longer = digits.take(i - start + 1);
        assert(longer.drop_last() =~= digits.take(i - start));
        assert(longer.last() == c);
        assert(decimal_value(longer) == value * 10 + d);
        if value > (usize::MAX - d) / 10 {
            proof {
                assert(value * 10 + d > usize::MAX);
                if is_decimal(digits) {
                    lemma_decimal_grows(digits, i - start + 1);
                }
            }
            return None;
        }
        value = value * 10 + d;
        i = i + 1;
    }
    assert(digits.take(i - start) =~= digits);
    Some(value)
}

/// Why the scan found no process.
#[derive(Clone, Copy, Debug, PartialEq, Eq, Structural)]
pub enum ScanError {
    /// The entries ran out and none ran the target executable.
    NoSuchProcess,
    /// The process was found, and its memory could not be opened.
    MemoryUnavailable,
}

/// How far the scan has come.
#[derive(Clone, Copy, Debug, PartialEq, Eq, Structural)]
pub enum ScanState {
    /// The scan waits for the next entry of the process directory.
    Listing,
    /// The scan waits for the executable of this candidate.
    Inspecting(usize),
    /// The scan waits for the memory of this process to be opened.
    Opening(usize),
    /// The scan is over: this is the process, and its memory is open.
    Found(usize),
    /// The scan is over, without a process.
    Failed(ScanError),
}

/// What the caller reports to the scan.
#[derive(Debug, PartialEq, Eq)]
pub enum ScanEvent {
    /// The next entry of the process directory: whether it is a directory,
    /// and its name.
    Entry { is_dir: bool, name: Vec<u8> },
    /// The process directory has no further entry.
    EndOfEntries,
    /// The link to the candidate's executable resolves to this path.
    Executable(Vec<u8>),
    /// The link to the candidate's executable cannot be resolved, as
    /// happens when the main thread of the process has ended.
    Unresolved,
    /// The memory of the process is open.
    MemoryOpened,
    /// The memory of the process could not be opened.
    MemoryRefused,
}

/// A scan event as a mathematical value.
pub enum ScanEventView {
    Entry { is_dir: bool, name: Seq<u8> },
    EndOfEntries,
    Executable(Seq<u8>),
    Unresolved,
    MemoryOpened,
    MemoryRefused,
}

impl View for ScanEvent {
    type V = ScanEventView;

    open spec fn view(&self) -> ScanEventView {
        match *self {
            ScanEvent::Entry { is_dir, name } => ScanEventView::Entry { is_dir, name: name@ },
            ScanEvent::EndOfEntries => ScanEventView::EndOfEntries,
            ScanEvent::Executable(path) => ScanEventView::Executable(path@),
            ScanEvent::Unresolved => ScanEventView::Unresolved,
            ScanEvent::MemoryOpened => ScanEventView::MemoryOpened,
            ScanEvent::MemoryRefused => ScanEventView::MemoryRefused,
        }
    }
}

/// What the scan asks the caller to do next.
#[derive(Clone, Copy, Debug, PartialEq, Eq, Structural)]
pub enum ScanAction {
    /// Read the next entry of the process directory and report it.
    NextEntry,
    /// Hold a handle on the entry of this process, resolve the link to its
    /// executable, and report the path or that there is none.
    Inspect(usize),
    /// Open the memory of this process for reading and report the outcome.
    OpenMemory(usize),
    /// Nothing more: this is the process.
    Done(usize),
    /// Nothing more: startup fails for this reason.
    Fail(ScanError),
}

/// What a state waits for: the action that led to it.
pub open spec fn awaited(state: ScanState) -> ScanAction {
    match state {
        ScanState::Listing => ScanAction::NextEntry,
        ScanState::Inspecting(pid) => ScanAction::Inspect(pid),
        ScanState::Opening(pid) => ScanAction::OpenMemory(pid),
        ScanState::Found(pid) => ScanAction::Done(pid),
        ScanState::Failed(e) => ScanAction::Fail(e),
    }
}

/// The state that follows `state` on `event`, for the target executable
/// `target`.  An event that the state does not wait for changes nothing.
pub open spec fn scan_next(target: Seq<u8>, state: ScanState, event: ScanEventView) -> ScanState {
    match (state, event) {
        (ScanState::Listing, ScanEventView::Entry { is_dir, name }) => {
            if is_dir && pid_of(name) is Some {
                ScanState::Inspecting(pid_of(name)->0)
            } else {
                ScanState::Listing
            }
        },
        (ScanState::Listing, ScanEventView::EndOfEntries) => ScanState::Failed(
            ScanError::NoSuchProcess,
        ),
        (ScanState::Inspecting(pid), ScanEventView::Executable(path)) => {
            if path == target {
                ScanState::Opening(pid)
            } else {
                ScanState::Listing
            }
        },
        (ScanState::Inspecting(_), ScanEventView::Unresolved) => ScanState::Listing,
        (ScanState::Opening(pid), ScanEventView::MemoryOpened) => ScanState::Found(pid),
        (ScanState::Opening(_), ScanEventView::MemoryRefused) => ScanState::Failed(
            ScanError::MemoryUnavailable,
        ),
        _ => state,
    }
}

/// The scan for the process that runs a given executable.
pub struct ProcessScan {
    target: Vec<u8>,
    state: ScanState,
}

impl ProcessScan {
    /// The path of the executable that the scan looks for.
    pub closed spec fn target(&self) -> Seq<u8> {
        self.target@
    }

    /// How far the scan has come.
    pub closed spec fn state(&self) -> ScanState {
        self.state
    }

    /// A scan for the process that runs `target`.  It starts by waiting
    /// for the first entry: the caller's first action is `NextEntry`.
    pub fn new(target: Vec<u8>) -> (r: Self)
        ensures
            r.target() == target@,
            r.state() == ScanState::Listing,
    {
        ProcessScan { target, state: ScanState::Listing }
    }

    /// How far the scan has come.
    pub fn current(&self) -> (s: ScanState)
        ensures
            s == self.state(),
    {
        self.state
    }

    /// Takes what the caller reports and says what to do next.
    pub fn step(&mut self, event: &ScanEvent) -> (action: ScanAction)
        ensures
            final(self).target() == old(self).target(),
            final(self).state() == scan_next(old(self).target(), old(self).state(), event@),
            action == awaited(final(self).state()),
    {
        let next = match (self.state, event) {
            (ScanState::Listing, ScanEvent::Entry { is_dir, name }) => {
                match parse_pid(name.as_slice()) {
                    Some(pid) => {
                        if *is_dir {
                            ScanState::Inspecting(pid)
                        } else {
                            ScanState::Listing
                        }
                    },
                    None => ScanState::Listing,
                }
            },
            (ScanState::Listing, ScanEvent::EndOfEntries) => ScanState::Failed(
                ScanError::NoSuchProcess,
            ),
            (ScanState::Inspecting(pid), ScanEvent::Executable(path)) => {
                if same_bytes(path.as_slice(), self.target.as_slice()) {
                    ScanState::Opening(pid)
                } else {
                    ScanState::Listing
                }
            },
            (ScanState::Inspecting(_), ScanEvent::Unresolved) => ScanState::Listing,
            (ScanState::Opening(pid), ScanEvent::MemoryOpened) => ScanState::Found(pid),
            (ScanState::Opening(_), ScanEvent::MemoryRefused) => ScanState::Failed(
                ScanError::MemoryUnavailable,
            ),
            (state, _) => state,
        };
        self.state = next;
        match next {
            ScanState::Listing => ScanAction::NextEntry,
            ScanState::Inspecting(pid) => ScanAction::Inspect(pid),
            ScanState::Opening(pid) => ScanAction::OpenMemory(pid),
            ScanState::Found(pid) => ScanAction::Done(pid),
            ScanState::Failed(e) => ScanAction::Fail(e),
        }
    }
}

/// The state that a scan reaches from its start on a run of events.
pub open spec fn scan_run(target: Seq<u8>, events: Seq<ScanEventView>) -> ScanState
    decreases events.len(),
{
    if events.len() == 0 {
        ScanState::Listing
    } else {
        scan_next(target, scan_run(target, events.drop_last()), events.last())
    }
}

/// The process that a state has settled on, if it has.
pub open spec fn selected(state: ScanState) -> Option<usize> {
    match state {
        ScanState::Opening(pid) => Some(pid),
        ScanState::Found(pid) => Some(pid),
        _ => None,
    }
}

/// One step selects a process only on the report that the executable of
/// the candidate under inspection is the target.  A link that cannot be
/// resolved, like a link to another executable, sends the scan on to the
/// next entry; it never fails the scan.
pub proof fn lemma_step_selects_only_target(
    target: Seq<u8>,
    state: ScanState,
    event: ScanEventView,
)
    ensures
        selected(state) is None && selected(scan_next(target, state, event)) is Some ==> {
            &&& state matches ScanState::Inspecting(pid)
            &&& event == ScanEventView::Executable(target)
            &&& scan_next(target, state, event) == ScanState::Opening(pid)
        },
        selected(state) is Some ==> selected(scan_next(target, state, event)) == selected(state)
            || scan_next(target, state, event) == ScanState::Failed(ScanError::MemoryUnavailable),
        state is Inspecting && event is Unresolved ==> scan_next(target, state, event)
            == ScanState::Listing,
        state is Inspecting && event is Executable && event->Executable_0 != target ==> scan_next(
            target,
            state,
            event,
        ) == ScanState::Listing,
        !(state is Failed) && scan_next(target, state, event) is Failed ==> {
            ||| state is Listing && event is EndOfEntries
            ||| state is Opening && event is MemoryRefused
        },
{
}

/// Whatever the caller reports, a scan that settles on a process was told
/// that this process, while it was the candidate under inspection, runs the
/// target executable.
pub proof fn lemma_selected_process_runs_target(target: Seq<u8>, events: Seq<ScanEventView>)
    requires
        selected(scan_run(target, events)) is Some,
    ensures
        exists|i: int|
            0 <= i < events.len() && #[trigger] events[i] == ScanEventView::Executable(target)
                && scan_run(target, events.take(i)) == ScanState::Inspecting(
                selected(scan_run(target, events))->0,
            ),
    decreases events.len(),
{
    let before = events.drop_last();
    let last = (events.len() - 1) as int;
    assert(events.len() > 0);
    lemma_step_selects_only_target(target, scan_run(target, before), events.last());
    if selected(scan_run(target, before)) is Some {
        lemma_selected_process_runs_target(target, before);
        let i = choose|i: int|
            0 <= i < before.len() && #[trigger] before[i] == ScanEventView::Executable(target)
                && scan_run(target, before.take(i)) == ScanState::Inspecting(
                selected(scan_run(target, before))->0,
            );
        assert(before.take(i) =~= events.take(i));
        assert(events[i] == before[i]);
    } else {
        assert(events.take(last) =~= before);
        assert(events[last] == ScanEventView::Executable(target));
    }
}

} // verus!
