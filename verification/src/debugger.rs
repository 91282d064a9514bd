//! The state that the debugger shares between the protocol side and the
//! interpreter side: the pause flag, the shutdown flag, the step mode and the
//! table of breakpoints.
//!
//! The value is plain data. Whoever shares it between threads keeps it behind a
//! lock and wakes the waiting interpreter thread after `resume` and `shutdown`.

use crate::text::{copy_opt_text, opt_text};
use crate::ScriptId;
use vstd::prelude::*;

verus! {

/// Identifier of a breakpoint inside the debugger.
#[derive(Debug, Clone, Copy, PartialEq, Eq, Hash, Structural)]
pub struct BreakpointId(pub u64);

/// How far the interpreter may run before it pauses again.
#[derive(Debug, Clone, Copy, PartialEq, Eq, Structural)]
pub enum StepMode {
    /// Run until a breakpoint or a `debugger` statement.
    Continue,
    /// Pause at the next instruction.
    Into,
    /// Pause at the next instruction of the frame of the given depth, or of one
    /// that called it.
    Over(usize),
    /// Pause once the frame of the given depth has returned.
    Out(usize),
}

/// A breakpoint as the debugger keeps it.
#[derive(Debug, Clone)]
pub struct Breakpoint {
    pub id: BreakpointId,
    pub script: ScriptId,
    pub line: u32,
    pub verified: bool,
    pub condition: Option<String>,
    pub hit_condition: Option<String>,
    pub log_message: Option<String>,
}

/// Where a breakpoint stands: a script and a position in it.
pub type Location = (ScriptId, u32);

/// What the debugger keeps of the breakpoint at a location.
pub struct BreakpointModel {
    pub id: BreakpointId,
    pub verified: bool,
    pub condition: Option<Seq<char>>,
    pub hit_condition: Option<Seq<char>>,
    pub log_message: Option<Seq<char>>,
}

impl BreakpointModel {
    /// A breakpoint that stops whenever it is reached.
    pub open spec fn plain(id: BreakpointId) -> BreakpointModel {
        BreakpointModel {
            id,
            verified: true,
            condition: None,
            hit_condition: None,
            log_message: None,
        }
    }
}

impl View for Breakpoint {
    type V = BreakpointModel;

    open spec fn view(&self) -> BreakpointModel {
        BreakpointModel {
            id: self.id,
            verified: self.verified,
            condition: opt_text(self.condition),
            hit_condition: opt_text(self.hit_condition),
            log_message: opt_text(self.log_message),
        }
    }
}

/// The model of a [`Debugger`].
pub struct DebuggerModel {
    /// Whether the debugger is wired into an interpreter.
    pub attached: bool,
    pub paused: bool,
    pub shutting_down: bool,
    pub step_mode: StepMode,
    /// The breakpoint at each location that has one.
    pub breakpoints: Map<Location, BreakpointModel>,
    /// The identifier that the next breakpoint gets.
    pub next_id: int,
}

/// The debugger state.
pub struct Debugger {
    attached: bool,
    paused: bool,
    shutting_down: bool,
    step_mode: StepMode,
    breakpoints: Vec<Breakpoint>,
    next_id: u64,
}

/// The table of a list of breakpoints: a later one replaces an earlier one at
/// the same location.
pub open spec fn table(list: Seq<Breakpoint>) -> Map<Location, BreakpointModel>
    decreases list.len(),
{
    if list.len() == 0 {
        Map::empty()
    } else {
        table(list.drop_last()).insert((list.last().script, list.last().line), list.last()@)
    }
}

/// The locations outside the script `script`.
pub open spec fn outside_script(script: ScriptId) -> Set<Location> {
    Set::new(|at: Location| at.0 != script)
}

/// Whether a step mode asks for a pause at an instruction of a frame of depth `depth`.
pub open spec fn step_pauses(mode: StepMode, depth: usize) -> bool {
    match mode {
        StepMode::Continue => false,
        StepMode::Into => true,
        StepMode::Over(origin) => depth <= origin,
        StepMode::Out(origin) => depth < origin,
    }
}

proof fn lemma_table_push(list: Seq<Breakpoint>, b: Breakpoint)
    ensures
        table(list.push(b)) == table(list).insert((b.script, b.line), b@),
{
    assert(list.push(b).drop_last() =~= list);
}

proof fn lemma_table_ids(list: Seq<Breakpoint>, bound: int)
    requires
        forall|i: int| 0 <= i < list.len() ==> (#[trigger] list[i]).id.0 < bound,
    ensures
        forall|at: Location| #[trigger]
            table(list).dom().contains(at) ==> table(list)[at].id.0 < bound,
        table(list).dom().finite(),
    decreases list.len(),
{
    if list.len() > 0 {
        lemma_table_ids(list.drop_last(), bound);
    }
}

impl View for Debugger {
    type V = DebuggerModel;

    closed spec fn view(&self) -> DebuggerModel {
        DebuggerModel {
            attached: self.attached,
            paused: self.paused,
            shutting_down: self.shutting_down,
            step_mode: self.step_mode,
            breakpoints: table(self.breakpoints@),
            next_id: self.next_id as int,
        }
    }
}

impl Debugger {
    /// Every breakpoint got its identifier before `next_id`.
    #[verifier::type_invariant]
    spec fn ids_are_older(&self) -> bool {
        forall|i: int|
            0 <= i < self.breakpoints@.len() ==> (#[trigger] self.breakpoints@[i]).id.0
                < self.next_id
    }

    /// A debugger that is attached to nothing, runs freely and has no breakpoint.
    pub fn new() -> (d: Debugger)
        ensures
            !d@.attached,
            !d@.paused,
            !d@.shutting_down,
            d@.step_mode == StepMode::Continue,
            d@.breakpoints == Map::<Location, BreakpointModel>::empty(),
            d@.next_id == 1,
    {
        Debugger {
            attached: false,
            paused: false,
            shutting_down: false,
            step_mode: StepMode::Continue,
            breakpoints: Vec::new(),
            next_id: 1,
        }
    }

    /// Records that the debugger is wired into an interpreter.
    pub fn attach(&mut self)
        ensures
            final(self)@ == (DebuggerModel { attached: true, ..old(self)@ }),
    {
        proof {
            use_type_invariant(&*self);
        }
        self.attached = true;
    }

    pub fn is_attached(&self) -> (attached: bool)
        ensures
            attached == self@.attached,
    {
        self.attached
    }

    /// Asks the interpreter to pause.
    pub fn pause(&mut self)
        ensures
            final(self)@ == (DebuggerModel { paused: true, ..old(self)@ }),
    {
        proof {
            use_type_invariant(&*self);
        }
        self.paused = true;
    }

    /// Lets the interpreter run again.
    pub fn resume(&mut self)
        ensures
            final(self)@ == (DebuggerModel { paused: false, ..old(self)@ }),
    {
        proof {
            use_type_invariant(&*self);
        }
        self.paused = false;
    }

    pub fn is_paused(&self) -> (paused: bool)
        ensures
            paused == self@.paused,
    {
        self.paused
    }

    /// Tells every waiting party that the session ends.
    pub fn shutdown(&mut self)
        ensures
            final(self)@ == (DebuggerModel { shutting_down: true, ..old(self)@ }),
    {
        proof {
            use_type_invariant(&*self);
        }
        self.shutting_down = true;
    }

    pub fn is_shutting_down(&self) -> (shutting_down: bool)
        ensures
            shutting_down == self@.shutting_down,
    {
        self.shutting_down
    }

    pub fn set_step_mode(&mut self, mode: StepMode)
        ensures
            final(self)@ == (DebuggerModel { step_mode: mode, ..old(self)@ }),
    {
        proof {
            use_type_invariant(&*self);
        }
        self.step_mode = mode;
    }

    pub fn step_mode(&self) -> (mode: StepMode)
        ensures
            mode == self@.step_mode,
    {
        self.step_mode
    }

    /// The identifier that the next breakpoint gets. Every breakpoint in the
    /// table has an older one.
    pub fn next_id(&self) -> (id: u64)
        ensures
            id as int == self@.next_id,
            self@.breakpoints.dom().finite(),
            forall|at: Location| #[trigger]
                self@.breakpoints.dom().contains(at) ==> self@.breakpoints[at].id.0
                    < self@.next_id,
    {
        proof {
            use_type_invariant(self);
            lemma_table_ids(self.breakpoints@, self.next_id as int);
        }
        self.next_id
    }

    /// Whether the step mode asks for a pause at an instruction of a frame of
    /// depth `current_frame_depth`.
    pub fn should_pause_for_step(&self, current_frame_depth: usize) -> (pause: bool)
        ensures
            pause == step_pauses(self@.step_mode, current_frame_depth),
    {
        match self.step_mode {
            StepMode::Continue => false,
            StepMode::Into => true,
            StepMode::Over(origin) => current_frame_depth <= origin,
            StepMode::Out(origin) => current_frame_depth < origin,
        }
    }

    /// Whether a breakpoint stands at position `pc` of `script`.
    pub fn has_breakpoint(&self, script: ScriptId, pc: u32) -> (found: bool)
        ensures
            found == self@.breakpoints.dom().contains((script, pc)),
    {
        let mut i: usize = 0;
        while i < self.breakpoints.len()
            invariant
                i <= self.breakpoints.len(),
                !table(self.breakpoints@.subrange(0, i as int)).dom().contains((script, pc)),
            decreases self.breakpoints.len() - i,
        {
            let ghost prefix = self.breakpoints@.subrange(0, i as int + 1);
            assert(prefix.drop_last() =~= self.breakpoints@.subrange(0, i as int));
            if self.breakpoints[i].script.0 == script.0 && self.breakpoints[i].line == pc {
                proof {
                    lemma_table_covers(self.breakpoints@, i as int);
                }
                return true;
            }
            i += 1;
        }
        assert(self.breakpoints@.subrange(0, i as int) =~= self.breakpoints@);
        false
    }

    /// The breakpoint at position `pc` of `script`, if one stands there.
    pub fn breakpoint_at(&self, script: ScriptId, pc: u32) -> (found: Option<&Breakpoint>)
        ensures
            match found {
                Some(b) => self@.breakpoints.dom().contains((script, pc))
                    && self@.breakpoints[(script, pc)] == b@ && b.script == script && b.line == pc,
                None => !self@.breakpoints.dom().contains((script, pc)),
            },
    {
        let mut i: usize = self.breakpoints.len();
        assert(self.breakpoints@.subrange(0, i as int) =~= self.breakpoints@);
        while i > 0
            invariant
                i <= self.breakpoints.len(),
                table(self.breakpoints@).dom().contains((script, pc)) == table(
                    self.breakpoints@.subrange(0, i as int),
                ).dom().contains((script, pc)),
                table(self.breakpoints@).dom().contains((script, pc)) ==> table(
                    self.breakpoints@,
                )[(script, pc)] == table(self.breakpoints@.subrange(0, i as int))[(script, pc)],
            decreases i,
        {
            let ghost prefix = self.breakpoints@.subrange(0, i as int);
            assert(prefix.drop_last() =~= self.breakpoints@.subrange(0, i as int - 1));
            i -= 1;
            if self.breakpoints[i].script.0 == script.0 && self.breakpoints[i].line == pc {
                return Some(&self.breakpoints[i]);
            }
        }
        None
    }

    /// Puts a breakpoint at `line` of `script`, in place of the one that may
    /// stand there, and returns its identifier.
    pub fn set_breakpoint(&mut self, script: ScriptId, line: u32) -> (id: BreakpointId)
        requires
            old(self)@.next_id < u64::MAX,
        ensures
            id.0 as int == old(self)@.next_id,
            final(self)@ == (DebuggerModel {
                breakpoints: old(self)@.breakpoints.insert(
                    (script, line),
                    BreakpointModel::plain(id),
                ),
                next_id: old(self)@.next_id + 1,
                ..old(self)@
            }),
    {
        proof {
            use_type_invariant(&*self);
        }
        let id = BreakpointId(self.next_id);
        let ghost before = self.breakpoints@;
        let mut kept: Vec<Breakpoint> = Vec::new();
        let mut list: Vec<Breakpoint> = Vec::new();
        std::mem::swap(&mut list, &mut self.breakpoints);
        let mut i: usize = 0;
        let ghost others = Set::new(|at: Location| at != (script, line));
        while i < list.len()
            invariant
                i <= list.len(),
                list@ == before,
                others == Set::new(|at: Location| at != (script, line)),
                table(kept@) == table(before.subrange(0, i as int)).restrict(others),
                forall|k: int| 0 <= k < kept@.len() ==> (#[trigger] kept@[k]).id.0 < id.0,
                forall|k: int| 0 <= k < before.len() ==> (#[trigger] before[k]).id.0 < id.0,
            decreases list.len() - i,
        {
            let ghost prefix = before.subrange(0, i as int + 1);
            assert(prefix.drop_last() =~= before.subrange(0, i as int));
            if !(list[i].script.0 == script.0 && list[i].line == line) {
                let b = copy_breakpoint(&list[i]);
                proof {
                    lemma_table_push(kept@, b);
                }
                kept.push(b);
            } else {
            }
            i += 1;
        }
        assert(before.subrange(0, i as int) =~= before);
        let b = Breakpoint {
            id,
            script,
            line,
            verified: true,
            condition: None,
            hit_condition: None,
            log_message: None,
        };
        proof {
            lemma_table_push(kept@, b);
            assert(table(kept@.push(b)) =~= table(before).insert((script, line), b@));
        }
        kept.push(b);
        self.next_id = self.next_id + 1;
        self.breakpoints = kept;
        id
    }

    /// Takes away every breakpoint of `script`.
    pub fn clear_breakpoints(&mut self, script: ScriptId)
        ensures
            final(self)@ == (DebuggerModel {
                breakpoints: old(self)@.breakpoints.restrict(outside_script(script)),
                ..old(self)@
            }),
    {
        proof {
            use_type_invariant(&*self);
        }
        let ghost before = self.breakpoints@;
        let ghost bound = self.next_id;
        let mut kept: Vec<Breakpoint> = Vec::new();
        let mut list: Vec<Breakpoint> = Vec::new();
        std::mem::swap(&mut list, &mut self.breakpoints);
        let mut i: usize = 0;
        while i < list.len()
            invariant
                i <= list.len(),
                list@ == before,
                table(kept@) == table(before.subrange(0, i as int)).restrict(
                    outside_script(script),
                ),
                forall|k: int| 0 <= k < kept@.len() ==> (#[trigger] kept@[k]).id.0 < bound,
                forall|k: int| 0 <= k < before.len() ==> (#[trigger] before[k]).id.0 < bound,
            decreases list.len() - i,
        {
            let ghost prefix = before.subrange(0, i as int + 1);
            assert(prefix.drop_last() =~= before.subrange(0, i as int));
            if list[i].script.0 != script.0 {
                let b = copy_breakpoint(&list[i]);
                proof {
                    lemma_table_push(kept@, b);
                }
                kept.push(b);
            } else {
            }
            i += 1;
        }
        assert(before.subrange(0, i as int) =~= before);
        self.breakpoints = kept;
    }
}

/// A breakpoint in the list is in the table, whatever follows it.
proof fn lemma_table_covers(list: Seq<Breakpoint>, i: int)
    requires
        0 <= i < list.len(),
    ensures
        table(list).dom().contains((list[i].script, list[i].line)),
    decreases list.len(),
{
    if i < list.len() - 1 {
        lemma_table_covers(list.drop_last(), i);
    }
}

/// A copy of a breakpoint.
fn copy_breakpoint(b: &Breakpoint) -> (res: Breakpoint)
    ensures
        res@ == b@,
        res.script == b.script,
        res.line == b.line,
{
    Breakpoint {
        id: b.id,
        script: b.script,
        line: b.line,
        verified: b.verified,
        condition: copy_opt_text(&b.condition),
        hit_condition: copy_opt_text(&b.hit_condition),
        log_message: copy_opt_text(&b.log_message),
    }
}

} // verus!
