//! The task log: story tasks the player is given, completed as the game's
//! progress counters reach each task's goal, some unlocking follow-up tasks.

use crate::entities::CpuVariant;
use crate::numfmt::{decimal_text, int_decimal};
use vstd::prelude::*;

verus! {

pub struct Task {
    pub description: String,
    pub completed: bool,
}

/// The tasks the game knows how to complete.
#[derive(Debug, Clone, Copy, PartialEq, Eq, Structural)]
pub enum TaskKind {
    DefeatGiantMantis,
    DefeatRattlesnake,
    DefeatGiantRattlesnake,
    ClearRaptorNest,
    DefeatRaptor,
    GetToRocketbay,
    DefeatTRex,
    FindSurvivors,
    BoardFighterJet,
    FlyToFortSilo,
    DefeatFlyingSaucer,
    LandOnFortSilo,
    SpeakToGrandCommander,
    LandFighterJetOnRacetrack,
    ProceedToStartingLine,
}

/// The description a task of kind `k` is listed under.
pub open spec fn kind_text(k: TaskKind) -> Seq<char> {
    match k {
        TaskKind::DefeatGiantMantis => "DEFEAT 3 GIANT MANTIS"@,
        TaskKind::DefeatRattlesnake => "DEFEAT 25 RATTLESNAKE"@,
        TaskKind::DefeatGiantRattlesnake => "DEFEAT 5 GIANT RATTLESNAKE"@,
        TaskKind::ClearRaptorNest => "CLEAR RAPTOR NEST: FIELD[X1 Y0]"@,
        TaskKind::DefeatRaptor => "DEFEAT 10 RAPTOR"@,
        TaskKind::GetToRocketbay => "GET TO THE ROCKETBAY [X-2 Y5]"@,
        TaskKind::DefeatTRex => "DEFEAT 1 T-REX"@,
        TaskKind::FindSurvivors => "FIND 10 SURVIVORS"@,
        TaskKind::BoardFighterJet => "BOARD THE FIGHTERJET"@,
        TaskKind::FlyToFortSilo => "FLY TO FORT SILO [X-25 Y25]"@,
        TaskKind::DefeatFlyingSaucer => "DEFEAT THE FLYING SAUCER"@,
        TaskKind::LandOnFortSilo => "LAND ON FORT SILO"@,
        TaskKind::SpeakToGrandCommander => "SPEAK TO THE GRAND COMMANDER"@,
        TaskKind::LandFighterJetOnRacetrack => "LAND THE FIGHTERJET ON THE RACETRACK"@,
        TaskKind::ProceedToStartingLine => "PROCEED TO THE STARTING LINE"@,
    }
}

/// The kind of task a description names, tried in the order of the kinds.
pub open spec fn kind_of(d: Seq<char>) -> Option<TaskKind> {
    if d == kind_text(TaskKind::DefeatGiantMantis) {
        Some(TaskKind::DefeatGiantMantis)
    } else if d == kind_text(TaskKind::DefeatRattlesnake) {
        Some(TaskKind::DefeatRattlesnake)
    } else if d == kind_text(TaskKind::DefeatGiantRattlesnake) {
        Some(TaskKind::DefeatGiantRattlesnake)
    } else if d == kind_text(TaskKind::ClearRaptorNest) {
        Some(TaskKind::ClearRaptorNest)
    } else if d == kind_text(TaskKind::DefeatRaptor) {
        Some(TaskKind::DefeatRaptor)
    } else if d == kind_text(TaskKind::GetToRocketbay) {
        Some(TaskKind::GetToRocketbay)
    } else if d == kind_text(TaskKind::DefeatTRex) {
        Some(TaskKind::DefeatTRex)
    } else if d == kind_text(TaskKind::FindSurvivors) {
        Some(TaskKind::FindSurvivors)
    } else if d == kind_text(TaskKind::BoardFighterJet) {
        Some(TaskKind::BoardFighterJet)
    } else if d == kind_text(TaskKind::FlyToFortSilo) {
        Some(TaskKind::FlyToFortSilo)
    } else if d == kind_text(TaskKind::DefeatFlyingSaucer) {
        Some(TaskKind::DefeatFlyingSaucer)
    } else if d == kind_text(TaskKind::LandOnFortSilo) {
        Some(TaskKind::LandOnFortSilo)
    } else if d == kind_text(TaskKind::SpeakToGrandCommander) {
        Some(TaskKind::SpeakToGrandCommander)
    } else if d == kind_text(TaskKind::LandFighterJetOnRacetrack) {
        Some(TaskKind::LandFighterJetOnRacetrack)
    } else if d == kind_text(TaskKind::ProceedToStartingLine) {
        Some(TaskKind::ProceedToStartingLine)
    } else {
        None
    }
}

/// The tasks that completing a task of kind `k` adds to the log.
pub open spec fn follow_ups(k: TaskKind) -> Seq<TaskKind> {
    match k {
        TaskKind::FindSurvivors => seq![TaskKind::BoardFighterJet, TaskKind::FlyToFortSilo],
        TaskKind::FlyToFortSilo => seq![TaskKind::DefeatFlyingSaucer],
        TaskKind::DefeatFlyingSaucer => seq![TaskKind::LandOnFortSilo],
        TaskKind::LandOnFortSilo => seq![TaskKind::SpeakToGrandCommander],
        TaskKind::SpeakToGrandCommander => seq![TaskKind::LandFighterJetOnRacetrack],
        TaskKind::LandFighterJetOnRacetrack => seq![TaskKind::ProceedToStartingLine],
        _ => Seq::empty(),
    }
}

/// A task log entry: (description, completed).
pub type LogEntry = (Seq<char>, bool);

/// The log of a list of tasks.
pub open spec fn task_log(ts: Seq<Task>) -> Seq<LogEntry> {
    ts.map_values(|t: Task| (t.description@, t.completed))
}

/// Whether the log lists a task with description `d`.
pub open spec fn log_has(log: Seq<LogEntry>, d: Seq<char>) -> bool {
    exists|i: int| 0 <= i < log.len() && log[i].0 == d
}

/// Whether the log lists a completed task with description `d`.
pub open spec fn log_has_completed(log: Seq<LogEntry>, d: Seq<char>) -> bool {
    exists|i: int| 0 <= i < log.len() && log[i].0 == d && log[i].1
}

/// No description is listed twice.
pub open spec fn log_distinct(log: Seq<LogEntry>) -> bool {
    forall|i: int, j: int| 0 <= i < j < log.len() ==> log[i].0 != log[j].0
}

/// Adding a task: a new description goes at the end, not yet completed; a
/// description already listed leaves the log as it is.
pub open spec fn add_entry(log: Seq<LogEntry>, d: Seq<char>) -> Seq<LogEntry> {
    if log_has(log, d) { log } else { log.push((d, false)) }
}

/// Adding tasks of the given kinds one after another.
pub open spec fn add_kinds(log: Seq<LogEntry>, ks: Seq<TaskKind>) -> Seq<LogEntry>
    decreases ks.len(),
{
    if ks.len() == 0 {
        log
    } else {
        add_kinds(add_entry(log, kind_text(ks[0])), ks.drop_first())
    }
}

/// Older entries keep their place and description, and stay completed.
pub open spec fn log_extends(old_log: Seq<LogEntry>, new_log: Seq<LogEntry>) -> bool {
    &&& old_log.len() <= new_log.len()
    &&& forall|i: int|
        0 <= i < old_log.len() ==> new_log[i].0 == old_log[i].0 && (old_log[i].1 ==> new_log[i].1)
}

/// The panel line of the entry at `index`: numbered from 1, marked `x` when completed.
pub open spec fn task_line(index: int, e: LogEntry) -> Seq<char> {
    (if e.1 { "x "@ } else { "  "@ }) + int_decimal(index + 1) + ". "@ + e.0
}

impl TaskKind {
    pub fn text(&self) -> (t: &'static str)
        ensures
            t@ == kind_text(*self),
    {
        match self {
            TaskKind::DefeatGiantMantis => "DEFEAT 3 GIANT MANTIS",
            TaskKind::DefeatRattlesnake => "DEFEAT 25 RATTLESNAKE",
            TaskKind::DefeatGiantRattlesnake => "DEFEAT 5 GIANT RATTLESNAKE",
            TaskKind::ClearRaptorNest => "CLEAR RAPTOR NEST: FIELD[X1 Y0]",
            TaskKind::DefeatRaptor => "DEFEAT 10 RAPTOR",
            TaskKind::GetToRocketbay => "GET TO THE ROCKETBAY [X-2 Y5]",
            TaskKind::DefeatTRex => "DEFEAT 1 T-REX",
            TaskKind::FindSurvivors => "FIND 10 SURVIVORS",
            TaskKind::BoardFighterJet => "BOARD THE FIGHTERJET",
            TaskKind::FlyToFortSilo => "FLY TO FORT SILO [X-25 Y25]",
            TaskKind::DefeatFlyingSaucer => "DEFEAT THE FLYING SAUCER",
            TaskKind::LandOnFortSilo => "LAND ON FORT SILO",
            TaskKind::SpeakToGrandCommander => "SPEAK TO THE GRAND COMMANDER",
            TaskKind::LandFighterJetOnRacetrack => "LAND THE FIGHTERJET ON THE RACETRACK",
            TaskKind::ProceedToStartingLine => "PROCEED TO THE STARTING LINE",
        }
    }
}

fn text_is(a: &String, b: &str) -> (r: bool)
    ensures
        r == (a@ == b@),
{
    let owned = b.to_owned();
    *a == owned
}

fn classify(d: &String) -> (k: Option<TaskKind>)
    ensures
        k == kind_of(d@),
{
    if text_is(d, TaskKind::DefeatGiantMantis.text()) {
        Some(TaskKind::DefeatGiantMantis)
    } else if text_is(d, TaskKind::DefeatRattlesnake.text()) {
        Some(TaskKind::DefeatRattlesnake)
    } else if text_is(d, TaskKind::DefeatGiantRattlesnake.text()) {
        Some(TaskKind::DefeatGiantRattlesnake)
    } else if text_is(d, TaskKind::ClearRaptorNest.text()) {
        Some(TaskKind::ClearRaptorNest)
    } else if text_is(d, TaskKind::DefeatRaptor.text()) {
        Some(TaskKind::DefeatRaptor)
    } else if text_is(d, TaskKind::GetToRocketbay.text()) {
        Some(TaskKind::GetToRocketbay)
    } else if text_is(d, TaskKind::DefeatTRex.text()) {
        Some(TaskKind::DefeatTRex)
    } else if text_is(d, TaskKind::FindSurvivors.text()) {
        Some(TaskKind::FindSurvivors)
    } else if text_is(d, TaskKind::BoardFighterJet.text()) {
        Some(TaskKind::BoardFighterJet)
    } else if text_is(d, TaskKind::FlyToFortSilo.text()) {
        Some(TaskKind::FlyToFortSilo)
    } else if text_is(d, TaskKind::DefeatFlyingSaucer.text()) {
        Some(TaskKind::DefeatFlyingSaucer)
    } else if text_is(d, TaskKind::LandOnFortSilo.text()) {
        Some(TaskKind::LandOnFortSilo)
    } else if text_is(d, TaskKind::SpeakToGrandCommander.text()) {
        Some(TaskKind::SpeakToGrandCommander)
    } else if text_is(d, TaskKind::LandFighterJetOnRacetrack.text()) {
        Some(TaskKind::LandFighterJetOnRacetrack)
    } else if text_is(d, TaskKind::ProceedToStartingLine.text()) {
        Some(TaskKind::ProceedToStartingLine)
    } else {
        None
    }
}

/// A line of the task panel.
pub struct TaskLine {
    /// The line as shown, e.g. `x 1. DEFEAT 1 T-REX`.
    pub text: String,
    /// The task's description.
    pub description: String,
    pub completed: bool,
}

pub struct TaskSystem {
    tasks: Vec<Task>,
    pub active: bool,
    pub open: bool,
    pub giant_mantis_defeated: u32,
    pub rattlesnake_defeated: u32,
    pub giant_rattlesnake_defeated: u32,
    pub raptor_nest_cleared: bool,
    pub raptor_defeated: u32,
    pub t_rex_defeated: u32,
    pub blood_idol_defeated: u32,
    pub rocketbay_found: bool,
    pub survivors_found: u32,
    pub fort_silo_reached: bool,
    pub flying_saucer_defeated: bool,
    pub landed_on_fort_silo: bool,
    pub void_tempest_defeated: u32,
    pub light_reaver_defeated: u32,
    pub night_reaver_defeated: u32,
    pub razor_fiend_defeated: u32,
    pub grand_commander_spoken_to: bool,
    pub racer_returned_to_racetrack: bool,
    /// Set each time the panel is (re)opened with a full auto-close countdown;
    /// the caller, who keeps the countdown, restarts it and clears the flag.
    pub auto_close_restarted: bool,
}

impl TaskSystem {
    /// Whether the panel is shown at all.
    pub closed spec fn panel_active(self) -> bool {
        self.active
    }

    /// Whether the panel is open.
    pub closed spec fn panel_open(self) -> bool {
        self.open
    }

    /// Whether a restart of the auto-close countdown is pending.
    pub closed spec fn restart_requested(self) -> bool {
        self.auto_close_restarted
    }

    /// A task system as `new` makes it: no tasks, panel closed and hidden,
    /// every counter zero and every milestone unreached.
    pub closed spec fn is_new(self) -> bool {
        &&& self.tasks@.len() == 0
        &&& !self.active
        &&& !self.open
        &&& !self.auto_close_restarted
        &&& self.giant_mantis_defeated == 0 && self.rattlesnake_defeated == 0
            && self.giant_rattlesnake_defeated == 0 && self.raptor_defeated == 0
            && self.t_rex_defeated == 0 && self.blood_idol_defeated == 0
            && self.void_tempest_defeated == 0 && self.light_reaver_defeated == 0
            && self.night_reaver_defeated == 0 && self.razor_fiend_defeated == 0
            && self.survivors_found == 0
        &&& !self.raptor_nest_cleared && !self.rocketbay_found && !self.fort_silo_reached
            && !self.flying_saucer_defeated && !self.landed_on_fort_silo
            && !self.grand_commander_spoken_to && !self.racer_returned_to_racetrack
    }

    pub closed spec fn with_raptor_nest_cleared(self) -> TaskSystem {
        TaskSystem { raptor_nest_cleared: true, ..self }
    }

    pub closed spec fn with_rocketbay_found(self) -> TaskSystem {
        TaskSystem { rocketbay_found: true, ..self }
    }

    pub closed spec fn with_grand_commander_spoken_to(self) -> TaskSystem {
        TaskSystem { grand_commander_spoken_to: true, ..self }
    }

    pub closed spec fn with_racer_returned_to_racetrack(self) -> TaskSystem {
        TaskSystem { racer_returned_to_racetrack: true, ..self }
    }

    pub closed spec fn with_fort_silo_reached(self) -> TaskSystem {
        TaskSystem { fort_silo_reached: true, ..self }
    }

    /// The state once the countdown-restart request has been taken.
    pub closed spec fn with_restart_taken(self) -> TaskSystem {
        TaskSystem { auto_close_restarted: false, ..self }
    }

    /// The state after a countdown tick: the panel closes if the countdown expired.
    pub closed spec fn after_timer(self, countdown_expired: bool) -> TaskSystem {
        TaskSystem { open: self.open && !countdown_expired, ..self }
    }

    pub closed spec fn log(self) -> Seq<LogEntry> {
        task_log(self.tasks@)
    }

    pub open spec fn wf(self) -> bool {
        log_distinct(self.log())
    }

    /// Whether the game's progress meets the goal of a task of kind `k`.
    pub closed spec fn goal_met(self, k: TaskKind) -> bool {
        match k {
            TaskKind::DefeatGiantMantis => self.giant_mantis_defeated >= 3,
            TaskKind::DefeatRattlesnake => self.rattlesnake_defeated >= 25,
            TaskKind::DefeatGiantRattlesnake => self.giant_rattlesnake_defeated >= 5,
            TaskKind::ClearRaptorNest => self.raptor_nest_cleared,
            TaskKind::DefeatRaptor => self.raptor_defeated >= 10,
            TaskKind::GetToRocketbay => self.rocketbay_found,
            TaskKind::DefeatTRex => self.t_rex_defeated >= 1,
            TaskKind::FindSurvivors => self.survivors_found >= 10,
            TaskKind::FlyToFortSilo => self.fort_silo_reached,
            TaskKind::DefeatFlyingSaucer => self.flying_saucer_defeated,
            TaskKind::LandOnFortSilo => self.landed_on_fort_silo,
            TaskKind::SpeakToGrandCommander => self.grand_commander_spoken_to,
            TaskKind::LandFighterJetOnRacetrack => self.racer_returned_to_racetrack,
            // Completed directly when the player boards or reaches the line.
            TaskKind::BoardFighterJet => false,
            TaskKind::ProceedToStartingLine => false,
        }
    }

    /// Whether `update` completes the entry `e` now.
    pub open spec fn completes_now(self, e: LogEntry) -> bool {
        &&& !e.1
        &&& kind_of(e.0) matches Some(k)
        &&& self.goal_met(k)
    }

    /// The log with every entry whose goal is met marked completed.
    pub open spec fn checked_log(self, log: Seq<LogEntry>) -> Seq<LogEntry> {
        log.map_values(|e: LogEntry| (e.0, e.1 || self.completes_now(e)))
    }

    /// How many entries of `log` `update` completes.
    pub open spec fn completions(self, log: Seq<LogEntry>) -> nat
        decreases log.len(),
    {
        if log.len() == 0 {
            0
        } else {
            self.completions(log.drop_last()) + if self.completes_now(log.last()) {
                1nat
            } else {
                0nat
            }
        }
    }

    /// The follow-up tasks unlocked by the entries of `log` that `update` completes.
    pub open spec fn unlocked(self, log: Seq<LogEntry>) -> Seq<TaskKind>
        decreases log.len(),
    {
        if log.len() == 0 {
            Seq::empty()
        } else {
            self.unlocked(log.drop_last()) + if self.completes_now(log.last()) {
                follow_ups(kind_of(log.last().0).unwrap())
            } else {
                Seq::empty()
            }
        }
    }

    /// Everything but the task log and the panel are as in `other`.
    pub closed spec fn same_progress(self, other: TaskSystem) -> bool {
        &&& self.active == other.active
        &&& self.giant_mantis_defeated == other.giant_mantis_defeated
        &&& self.rattlesnake_defeated == other.rattlesnake_defeated
        &&& self.giant_rattlesnake_defeated == other.giant_rattlesnake_defeated
        &&& self.raptor_nest_cleared == other.raptor_nest_cleared
        &&& self.raptor_defeated == other.raptor_defeated
        &&& self.t_rex_defeated == other.t_rex_defeated
        &&& self.blood_idol_defeated == other.blood_idol_defeated
        &&& self.rocketbay_found == other.rocketbay_found
        &&& self.survivors_found == other.survivors_found
        &&& self.fort_silo_reached == other.fort_silo_reached
        &&& self.flying_saucer_defeated == other.flying_saucer_defeated
        &&& self.landed_on_fort_silo == other.landed_on_fort_silo
        &&& self.void_tempest_defeated == other.void_tempest_defeated
        &&& self.light_reaver_defeated == other.light_reaver_defeated
        &&& self.night_reaver_defeated == other.night_reaver_defeated
        &&& self.razor_fiend_defeated == other.razor_fiend_defeated
        &&& self.grand_commander_spoken_to == other.grand_commander_spoken_to
        &&& self.racer_returned_to_racetrack == other.racer_returned_to_racetrack
    }

    /// Whether the raptor nest has been cleared.
    pub closed spec fn nest_cleared(self) -> bool {
        self.raptor_nest_cleared
    }

    /// Whether the player has found the rocketbay.
    pub closed spec fn at_rocketbay(self) -> bool {
        self.rocketbay_found
    }

    /// How many survivors have been found.
    pub closed spec fn survivors(self) -> u32 {
        self.survivors_found
    }

    /// Whether the player has reached fort silo.
    pub closed spec fn at_fort_silo(self) -> bool {
        self.fort_silo_reached
    }

    /// Whether the flying saucer has been defeated.
    pub closed spec fn saucer_defeated(self) -> bool {
        self.flying_saucer_defeated
    }

    /// Whether the player has landed on fort silo.
    pub closed spec fn landed_on_silo(self) -> bool {
        self.landed_on_fort_silo
    }

    /// Whether the player has spoken to the grand commander.
    pub closed spec fn commander_spoken(self) -> bool {
        self.grand_commander_spoken_to
    }

    /// Whether the racer has returned to the racetrack.
    pub closed spec fn racer_returned(self) -> bool {
        self.racer_returned_to_racetrack
    }

    /// The kill counter kept for enemies of kind `v`.
    pub closed spec fn kill_count(self, v: CpuVariant) -> u32 {
        match v {
            CpuVariant::GiantMantis => self.giant_mantis_defeated,
            CpuVariant::Rattlesnake => self.rattlesnake_defeated,
            CpuVariant::GiantRattlesnake => self.giant_rattlesnake_defeated,
            CpuVariant::Raptor => self.raptor_defeated,
            CpuVariant::TRex => self.t_rex_defeated,
            CpuVariant::BloodIdol => self.blood_idol_defeated,
            CpuVariant::VoidTempest => self.void_tempest_defeated,
            CpuVariant::LightReaver => self.light_reaver_defeated,
            CpuVariant::NightReaver => self.night_reaver_defeated,
            CpuVariant::RazorFiend => self.razor_fiend_defeated,
        }
    }

    pub fn new() -> (s: Self)
        ensures
            s.log() == Seq::<LogEntry>::empty(),
            s.wf(),
            s.is_new(),
    {
        let s = TaskSystem {
            tasks: Vec::new(),
            active: false,
            open: false,
            giant_mantis_defeated: 0,
            rattlesnake_defeated: 0,
            giant_rattlesnake_defeated: 0,
            raptor_nest_cleared: false,
            raptor_defeated: 0,
            t_rex_defeated: 0,
            blood_idol_defeated: 0,
            void_tempest_defeated: 0,
            light_reaver_defeated: 0,
            night_reaver_defeated: 0,
            razor_fiend_defeated: 0,
            rocketbay_found: false,
            survivors_found: 0,
            fort_silo_reached: false,
            flying_saucer_defeated: false,
            landed_on_fort_silo: false,
            grand_commander_spoken_to: false,
            racer_returned_to_racetrack: false,
            auto_close_restarted: false,
        };
        proof {
            assert(s.log() =~= Seq::<LogEntry>::empty());
        }
        s
    }

    /// Number of tasks listed.
    pub fn task_count(&self) -> (n: usize)
        ensures
            n == self.log().len(),
    {
        self.tasks.len()
    }

    pub fn has_task(&self, description: &str) -> (b: bool)
        ensures
            b == log_has(self.log(), description@),
    {
        let mut i: usize = 0;
        while i < self.tasks.len()
            invariant
                0 <= i <= self.tasks@.len(),
                forall|j: int| 0 <= j < i ==> self.log()[j].0 != description@,
            decreases self.tasks@.len() - i,
        {
            if text_is(&self.tasks[i].description, description) {
                assert(self.log()[i as int].0 == description@);
                return true;
            }
            i = i + 1;
        }
        false
    }

    pub fn is_task_complete(&self, description: &str) -> (b: bool)
        ensures
            b == log_has_completed(self.log(), description@),
    {
        let mut i: usize = 0;
        while i < self.tasks.len()
            invariant
                0 <= i <= self.tasks@.len(),
                forall|j: int|
                    0 <= j < i ==> !(self.log()[j].0 == description@ && self.log()[j].1),
            decreases self.tasks@.len() - i,
        {
            if text_is(&self.tasks[i].description, description) && self.tasks[i].completed {
                assert(self.log()[i as int].0 == description@ && self.log()[i as int].1);
                return true;
            }
            i = i + 1;
        }
        false
    }

    /// Adds a task unless one with the same description is listed; a new task
    /// opens the panel with a full auto-close countdown.
    pub fn add_task(&mut self, description: &str)
        requires
            old(self).wf(),
        ensures
            final(self).wf(),
            final(self).log() == add_entry(old(self).log(), description@),
            final(self).same_progress(*old(self)),
            log_has(old(self).log(), description@) ==> final(self).panel_open() == old(self).panel_open()
                && final(self).restart_requested() == old(self).restart_requested(),
            !log_has(old(self).log(), description@) ==> final(self).panel_open()
                && final(self).restart_requested(),
    {
        if !self.has_task(description) {
            let ghost before = self.log();
            self.tasks.push(Task { description: description.to_owned(), completed: false });
            self.open = true;
            self.auto_close_restarted = true;
            proof {
                assert(self.log() =~= before.push((description@, false)));
            }
        }
    }

    /// The state after one more kill of kind `v` is counted.
    pub closed spec fn with_kill(self, v: CpuVariant) -> TaskSystem {
        match v {
            CpuVariant::GiantMantis => TaskSystem {
                giant_mantis_defeated: (self.giant_mantis_defeated + 1) as u32,
                ..self
            },
            CpuVariant::Rattlesnake => TaskSystem {
                rattlesnake_defeated: (self.rattlesnake_defeated + 1) as u32,
                ..self
            },
            CpuVariant::GiantRattlesnake => TaskSystem {
                giant_rattlesnake_defeated: (self.giant_rattlesnake_defeated + 1) as u32,
                ..self
            },
            CpuVariant::Raptor => TaskSystem {
                raptor_defeated: (self.raptor_defeated + 1) as u32,
                ..self
            },
            CpuVariant::TRex => TaskSystem { t_rex_defeated: (self.t_rex_defeated + 1) as u32, ..self },
            CpuVariant::BloodIdol => TaskSystem {
                blood_idol_defeated: (self.blood_idol_defeated + 1) as u32,
                ..self
            },
            CpuVariant::VoidTempest => TaskSystem {
                void_tempest_defeated: (self.void_tempest_defeated + 1) as u32,
                ..self
            },
            CpuVariant::LightReaver => TaskSystem {
                light_reaver_defeated: (self.light_reaver_defeated + 1) as u32,
                ..self
            },
            CpuVariant::NightReaver => TaskSystem {
                night_reaver_defeated: (self.night_reaver_defeated + 1) as u32,
                ..self
            },
            CpuVariant::RazorFiend => TaskSystem {
                razor_fiend_defeated: (self.razor_fiend_defeated + 1) as u32,
                ..self
            },
        }
    }

    /// Adds the tasks of the given kinds one after another.
    fn add_kind_list(&mut self, kinds: &Vec<TaskKind>)
        requires
            old(self).wf(),
        ensures
            final(self).wf(),
            final(self).log() == add_kinds(old(self).log(), kinds@),
            final(self).same_progress(*old(self)),
            final(self).panel_open() == (old(self).panel_open() || final(self).log().len() > old(self).log().len()),
            final(self).restart_requested() == (old(self).restart_requested()
                || final(self).log().len() > old(self).log().len()),
    {
        let ghost s0 = *self;
        let mut i: usize = 0;
        proof {
            assert(kinds@.skip(0) =~= kinds@);
        }
        while i < kinds.len()
            invariant
                0 <= i <= kinds@.len(),
                self.wf(),
                add_kinds(self.log(), kinds@.skip(i as int)) == add_kinds(s0.log(), kinds@),
                self.same_progress(s0),
                self.log().len() >= s0.log().len(),
                self.open == (s0.open || self.log().len() > s0.log().len()),
                self.auto_close_restarted == (s0.auto_close_restarted || self.log().len()
                    > s0.log().len()),
            decreases kinds@.len() - i,
        {
            let text = kinds[i].text();
            proof {
                assert(kinds@.skip(i as int).drop_first() =~= kinds@.skip(i as int + 1));
            }
            if !self.has_task(text) {
                self.add_task(text);
            }
            i = i + 1;
        }
        proof {
            assert(kinds@.skip(kinds@.len() as int) =~= Seq::<TaskKind>::empty());
        }
    }

    pub fn populate_taskbar1(&mut self)
        requires
            old(self).wf(),
        ensures
            final(self).wf(),
            final(self).log() == add_kinds(
                old(self).log(),
                seq![
                    TaskKind::DefeatGiantMantis,
                    TaskKind::DefeatRattlesnake,
                    TaskKind::DefeatGiantRattlesnake,
                ],
            ),
            final(self).same_progress(*old(self)),
            final(self).panel_open() == (old(self).panel_open() || final(self).log().len() > old(self).log().len()),
            final(self).restart_requested() == (old(self).restart_requested()
                || final(self).log().len() > old(self).log().len()),
    {
        let mut kinds: Vec<TaskKind> = Vec::new();
        kinds.push(TaskKind::DefeatGiantMantis);
        kinds.push(TaskKind::DefeatRattlesnake);
        kinds.push(TaskKind::DefeatGiantRattlesnake);
        proof {
            assert(kinds@ =~= seq![
                TaskKind::DefeatGiantMantis,
                TaskKind::DefeatRattlesnake,
                TaskKind::DefeatGiantRattlesnake,
            ]);
        }
        self.add_kind_list(&kinds);
    }

    pub fn populate_taskbar2(&mut self)
        requires
            old(self).wf(),
        ensures
            final(self).wf(),
            final(self).log() == add_kinds(
                old(self).log(),
                seq![TaskKind::ClearRaptorNest, TaskKind::DefeatRaptor],
            ),
            final(self).same_progress(*old(self)),
            final(self).panel_open() == (old(self).panel_open() || final(self).log().len() > old(self).log().len()),
            final(self).restart_requested() == (old(self).restart_requested()
                || final(self).log().len() > old(self).log().len()),
    {
        let mut kinds: Vec<TaskKind> = Vec::new();
        kinds.push(TaskKind::ClearRaptorNest);
        kinds.push(TaskKind::DefeatRaptor);
        proof {
            assert(kinds@ =~= seq![TaskKind::ClearRaptorNest, TaskKind::DefeatRaptor]);
        }
        self.add_kind_list(&kinds);
    }

    pub fn populate_taskbar3(&mut self)
        requires
            old(self).wf(),
        ensures
            final(self).wf(),
            final(self).log() == add_entry(old(self).log(), kind_text(TaskKind::GetToRocketbay)),
            final(self).same_progress(*old(self)),
            final(self).panel_open() == (old(self).panel_open() || final(self).log().len() > old(self).log().len()),
            final(self).restart_requested() == (old(self).restart_requested()
                || final(self).log().len() > old(self).log().len()),
    {
        self.add_task(TaskKind::GetToRocketbay.text());
    }

    pub fn populate_taskbar4(&mut self)
        requires
            old(self).wf(),
        ensures
            final(self).wf(),
            final(self).log() == add_entry(old(self).log(), kind_text(TaskKind::DefeatTRex)),
            final(self).same_progress(*old(self)),
            final(self).panel_open() == (old(self).panel_open() || final(self).log().len() > old(self).log().len()),
            final(self).restart_requested() == (old(self).restart_requested()
                || final(self).log().len() > old(self).log().len()),
    {
        self.add_task(TaskKind::DefeatTRex.text());
    }

    pub fn increment_kill_count(&mut self, variant: CpuVariant)
        requires
            old(self).kill_count(variant) < u32::MAX,
        ensures
            *final(self) == old(self).with_kill(variant),
    {
        match variant {
            CpuVariant::GiantMantis => self.giant_mantis_defeated = self.giant_mantis_defeated + 1,
            CpuVariant::Rattlesnake => self.rattlesnake_defeated = self.rattlesnake_defeated + 1,
            CpuVariant::GiantRattlesnake => self.giant_rattlesnake_defeated =
                self.giant_rattlesnake_defeated + 1,
            CpuVariant::Raptor => self.raptor_defeated = self.raptor_defeated + 1,
            CpuVariant::TRex => self.t_rex_defeated = self.t_rex_defeated + 1,
            CpuVariant::BloodIdol => self.blood_idol_defeated = self.blood_idol_defeated + 1,
            CpuVariant::VoidTempest => self.void_tempest_defeated = self.void_tempest_defeated + 1,
            CpuVariant::LightReaver => self.light_reaver_defeated = self.light_reaver_defeated + 1,
            CpuVariant::NightReaver => self.night_reaver_defeated = self.night_reaver_defeated + 1,
            CpuVariant::RazorFiend => self.razor_fiend_defeated = self.razor_fiend_defeated + 1,
        }
    }

    pub fn mark_raptor_nest_cleared(&mut self)
        ensures
            *final(self) == old(self).with_raptor_nest_cleared(),
    {
        self.raptor_nest_cleared = true;
    }

    pub fn mark_rocketbay_found(&mut self)
        ensures
            *final(self) == old(self).with_rocketbay_found(),
    {
        self.rocketbay_found = true;
    }

    pub fn mark_grand_commander_spoken_to(&mut self)
        ensures
            *final(self) == old(self).with_grand_commander_spoken_to(),
    {
        self.grand_commander_spoken_to = true;
    }

    pub fn mark_racer_returned_to_racetrack(&mut self)
        ensures
            *final(self) == old(self).with_racer_returned_to_racetrack(),
    {
        self.racer_returned_to_racetrack = true;
    }

    pub fn mark_fort_silo_reached(&mut self)
        ensures
            *final(self) == old(self).with_fort_silo_reached(),
    {
        self.fort_silo_reached = true;
    }

    /// Completes the listed task of kind `kind`, if it is listed and not yet
    /// completed, opening the panel; returns whether it did.
    fn complete_listed(&mut self, kind: TaskKind) -> (just_completed: bool)
        requires
            old(self).wf(),
        ensures
            final(self).wf(),
            just_completed == (log_has(old(self).log(), kind_text(kind)) && !log_has_completed(
                old(self).log(),
                kind_text(kind),
            )),
            final(self).log() == log_complete(old(self).log(), kind_text(kind)),
            final(self).same_progress(*old(self)),
            just_completed ==> final(self).panel_open() && final(self).restart_requested(),
            !just_completed ==> final(self).panel_open() == old(self).panel_open()
                && final(self).restart_requested() == old(self).restart_requested(),
    {
        let text = kind.text();
        let ghost log0 = self.log();
        let ghost d = kind_text(kind);
        let ghost s0 = *self;
        let mut i: usize = 0;
        while i < self.tasks.len()
            invariant
                0 <= i <= self.tasks@.len(),
                *self == s0,
                s0 == *old(self),
                s0.wf(),
                text@ == d,
                d == kind_text(kind),
                self.log() == log0,
                forall|j: int| 0 <= j < i ==> log0[j].0 != d,
            decreases self.tasks@.len() - i,
        {
            if text_is(&self.tasks[i].description, text) {
                let ghost k = i as int;
                assert(log0[k].0 == d);
                assert(forall|j: int| 0 <= j < log0.len() && log0[j].0 == d ==> j == k);
                if !self.tasks[i].completed {
                    self.tasks[i].completed = true;
                    self.open = true;
                    self.auto_close_restarted = true;
                    proof {
                        assert(!log0[k].1);
                        assert(self.log() =~= log_complete(log0, d));
                        assert(log_has(log0, d));
                        assert(!log_has_completed(log0, d));
                        assert(self.same_progress(s0));
                    }
                    return true;
                }
                proof {
                    assert(log0[k].1);
                    assert(log_has_completed(log0, d));
                    assert(log_complete(log0, d) =~= log0);
                }
                return false;
            }
            i = i + 1;
        }
        proof {
            assert(!log_has(log0, d));
            assert(!log_has_completed(log0, d));
            assert(log_complete(log0, d) =~= log0);
        }
        false
    }

    pub fn mark_proceed_to_starting_line_complete(&mut self)
        requires
            old(self).wf(),
        ensures
            final(self).wf(),
            final(self).log() == log_complete(
                old(self).log(),
                kind_text(TaskKind::ProceedToStartingLine),
            ),
            final(self).same_progress(*old(self)),
            (log_has(old(self).log(), kind_text(TaskKind::ProceedToStartingLine))
                && !log_has_completed(old(self).log(), kind_text(TaskKind::ProceedToStartingLine)))
                ==> final(self).panel_open() && final(self).restart_requested(),
            !(log_has(old(self).log(), kind_text(TaskKind::ProceedToStartingLine))
                && !log_has_completed(old(self).log(), kind_text(TaskKind::ProceedToStartingLine)))
                ==> final(self).panel_open() == old(self).panel_open() && final(self).restart_requested()
                == old(self).restart_requested(),
    {
        self.complete_listed(TaskKind::ProceedToStartingLine);
    }

    pub fn mark_fighter_jet_as_boarded(&mut self) -> (just_completed: bool)
        requires
            old(self).wf(),
        ensures
            final(self).wf(),
            just_completed == (log_has(old(self).log(), kind_text(TaskKind::BoardFighterJet))
                && !log_has_completed(old(self).log(), kind_text(TaskKind::BoardFighterJet))),
            final(self).log() == log_complete(old(self).log(), kind_text(TaskKind::BoardFighterJet)),
            final(self).same_progress(*old(self)),
            just_completed ==> final(self).panel_open() && final(self).restart_requested(),
            !just_completed ==> final(self).panel_open() == old(self).panel_open()
                && final(self).restart_requested() == old(self).restart_requested(),
    {
        self.complete_listed(TaskKind::BoardFighterJet)
    }

    fn goal_reached(&self, k: TaskKind) -> (b: bool)
        ensures
            b == self.goal_met(k),
    {
        match k {
            TaskKind::DefeatGiantMantis => self.giant_mantis_defeated >= 3,
            TaskKind::DefeatRattlesnake => self.rattlesnake_defeated >= 25,
            TaskKind::DefeatGiantRattlesnake => self.giant_rattlesnake_defeated >= 5,
            TaskKind::ClearRaptorNest => self.raptor_nest_cleared,
            TaskKind::DefeatRaptor => self.raptor_defeated >= 10,
            TaskKind::GetToRocketbay => self.rocketbay_found,
            TaskKind::DefeatTRex => self.t_rex_defeated >= 1,
            TaskKind::FindSurvivors => self.survivors_found >= 10,
            TaskKind::FlyToFortSilo => self.fort_silo_reached,
            TaskKind::DefeatFlyingSaucer => self.flying_saucer_defeated,
            TaskKind::LandOnFortSilo => self.landed_on_fort_silo,
            TaskKind::SpeakToGrandCommander => self.grand_commander_spoken_to,
            TaskKind::LandFighterJetOnRacetrack => self.racer_returned_to_racetrack,
            TaskKind::BoardFighterJet => false,
            TaskKind::ProceedToStartingLine => false,
        }
    }

    fn push_follow_ups(k: TaskKind, out: &mut Vec<TaskKind>)
        ensures
            final(out)@ == old(out)@ + follow_ups(k),
    {
        match k {
            TaskKind::FindSurvivors => {
                out.push(TaskKind::BoardFighterJet);
                out.push(TaskKind::FlyToFortSilo);
            },
            TaskKind::FlyToFortSilo => out.push(TaskKind::DefeatFlyingSaucer),
            TaskKind::DefeatFlyingSaucer => out.push(TaskKind::LandOnFortSilo),
            TaskKind::LandOnFortSilo => out.push(TaskKind::SpeakToGrandCommander),
            TaskKind::SpeakToGrandCommander => out.push(TaskKind::LandFighterJetOnRacetrack),
            TaskKind::LandFighterJetOnRacetrack => out.push(TaskKind::ProceedToStartingLine),
            _ => {},
        }
        proof {
            assert(final(out)@ =~= old(out)@ + follow_ups(k));
        }
    }

    /// Marks completed every task in `tasks` whose goal the progress meets;
    /// returns how many, and the follow-up tasks they unlock, in order.
    fn check_tasks(&self, tasks: &mut Vec<Task>) -> (r: (u32, Vec<TaskKind>))
        requires
            self.completions(task_log(old(tasks)@)) <= u32::MAX,
        ensures
            task_log(final(tasks)@) == self.checked_log(task_log(old(tasks)@)),
            r.0 == self.completions(task_log(old(tasks)@)),
            r.1@ == self.unlocked(task_log(old(tasks)@)),
    {
        let ghost tasks0 = tasks@;
        let ghost log0 = task_log(tasks@);
        let mut count: u32 = 0;
        let mut unlocked: Vec<TaskKind> = Vec::new();
        let mut i: usize = 0;
        proof {
            assert(log0.take(0) =~= Seq::<LogEntry>::empty());
        }
        while i < tasks.len()
            invariant
                tasks@.len() == tasks0.len(),
                log0 == task_log(tasks0),
                self.completions(log0) <= u32::MAX,
                0 <= i <= tasks0.len(),
                forall|j: int|
                    0 <= j < i ==> (#[trigger] tasks@[j]).description@ == tasks0[j].description@
                        && tasks@[j].completed == (tasks0[j].completed || self.completes_now(
                        log0[j],
                    )),
                forall|j: int|
                    i <= j < tasks0.len() ==> (#[trigger] tasks@[j]).description@
                        == tasks0[j].description@ && tasks@[j].completed == tasks0[j].completed,
                count == self.completions(log0.take(i as int)),
                unlocked@ == self.unlocked(log0.take(i as int)),
            decreases tasks0.len() - i,
        {
            let ghost e = log0[i as int];
            proof {
                lemma_completions_of_prefix(*self, log0, i as int + 1);
                assert(log0.take(i as int + 1).drop_last() =~= log0.take(i as int));
                assert(log0.take(i as int + 1).last() == e);
                assert(e == (tasks0[i as int].description@, tasks0[i as int].completed));
            }
            if !tasks[i].completed {
                let kind = classify(&tasks[i].description);
                match kind {
                    Some(k) => {
                        if self.goal_reached(k) {
                            tasks[i].completed = true;
                            count = count + 1;
                            Self::push_follow_ups(k, &mut unlocked);
                        }
                    },
                    None => {},
                }
            }
            i = i + 1;
        }
        proof {
            assert(log0.take(log0.len() as int) =~= log0);
            assert(task_log(tasks@) =~= self.checked_log(log0));
        }
        (count, unlocked)
    }

    /// Completes every listed task whose goal has been reached, adds the tasks
    /// that completions unlock, and opens the panel if anything was completed.
    /// Returns the number of tasks completed by this call.
    pub fn update(&mut self) -> (completed_this_frame: u32)
        requires
            old(self).wf(),
            old(self).completions(old(self).log()) <= u32::MAX,
        ensures
            final(self).wf(),
            final(self).log() == add_kinds(
                old(self).checked_log(old(self).log()),
                old(self).unlocked(old(self).log()),
            ),
            completed_this_frame == old(self).completions(old(self).log()),
            completed_this_frame == newly_completed(old(self).log(), final(self).log()),
            log_extends(old(self).log(), final(self).log()),
            final(self).same_progress(*old(self)),
            final(self).panel_open() == (old(self).panel_open() || completed_this_frame > 0),
            final(self).restart_requested() == (old(self).restart_requested()
                || completed_this_frame > 0),
    {
        let ghost s0 = *self;
        let mut tasks: Vec<Task> = Vec::new();
        std::mem::swap(&mut tasks, &mut self.tasks);
        let ghost mid = *self;
        proof {
            assert(task_log(tasks@) == s0.log());
            assert(mid.same_progress(s0));
            lemma_same_progress_same_checks(s0, mid, s0.log());
            lemma_checked_log_keeps_descriptions(s0, s0.log());
            lemma_nothing_unlocked_without_completion(s0, s0.log());
        }
        proof {
            lemma_same_progress_same_checks(s0, mid, s0.log());
        }
        let (completed_this_frame, unlocked) = self.check_tasks(&mut tasks);
        std::mem::swap(&mut tasks, &mut self.tasks);
        proof {
            assert(self.log() == s0.checked_log(s0.log()));
            assert(self.same_progress(s0));
        }
        if completed_this_frame > 0 {
            self.open = true;
            self.auto_close_restarted = true;
        }
        self.add_kind_list(&unlocked);
        proof {
            lemma_update_keeps_progress(s0);
            lemma_add_kinds_keeps_prefix(s0.checked_log(s0.log()), s0.unlocked(s0.log()));
            lemma_newly_completed_are_completions(s0, s0.log(), self.log());
        }
        completed_this_frame
    }

    /// Takes the panel's countdown-restart request: returns whether the panel
    /// was (re)opened since the last call, and clears the request.
    pub fn take_auto_close_restart(&mut self) -> (restart: bool)
        ensures
            restart == old(self).restart_requested(),
            *final(self) == old(self).with_restart_taken(),
    {
        let restart = self.auto_close_restarted;
        self.auto_close_restarted = false;
        restart
    }

    /// Closes the open panel once its auto-close countdown (kept by the caller,
    /// and run only while the panel is open) has expired.
    pub fn update_timer(&mut self, countdown_expired: bool)
        ensures
            *final(self) == old(self).after_timer(countdown_expired),
    {
        if self.open {
            if countdown_expired {
                self.open = false;
            }
        }
    }

    /// The lines of the task panel, numbered from 1 and marked `x` when
    /// completed, or `None` while the panel is hidden.
    pub fn draw_lines(&self) -> (lines: Option<Vec<TaskLine>>)
        requires
            self.log().len() < i64::MAX,
        ensures
            !self.panel_active() || !self.panel_open() ==> lines is None,
            self.panel_active() && self.panel_open() ==> (lines matches Some(v) && v@.len()
                == self.log().len() && forall|i: int|
                0 <= i < v@.len() ==> #[trigger] v@[i].text@ == task_line(i, self.log()[i])
                    && v@[i].description@ == self.log()[i].0 && v@[i].completed == self.log()[i].1),
    {
        if !self.active || !self.open {
            return None;
        }
        let mut lines: Vec<TaskLine> = Vec::new();
        let mut i: usize = 0;
        while i < self.tasks.len()
            invariant
                0 <= i <= self.tasks@.len(),
                self.tasks@.len() < i64::MAX,
                lines@.len() == i,
                forall|j: int|
                    0 <= j < i ==> #[trigger] lines@[j].text@ == task_line(j, self.log()[j])
                        && lines@[j].description@ == self.log()[j].0 && lines@[j].completed
                        == self.log()[j].1,
            decreases self.tasks@.len() - i,
        {
            let task = &self.tasks[i];
            let mut line = if task.completed {
                "x ".to_owned()
            } else {
                "  ".to_owned()
            };
            let number = decimal_text(i as i64 + 1);
            line.append(number.as_str());
            line.append(". ");
            line.append(task.description.as_str());
            lines.push(TaskLine {
                text: line,
                description: task.description.clone(),
                completed: task.completed,
            });
            i = i + 1;
        }
        Some(lines)
    }
}

/// Marking the task `d` completed, leaving all other entries alone.
pub open spec fn log_complete(log: Seq<LogEntry>, d: Seq<char>) -> Seq<LogEntry> {
    log.map_values(|e: LogEntry| if e.0 == d { (e.0, true) } else { e })
}

proof fn lemma_checked_log_keeps_descriptions(s: TaskSystem, log: Seq<LogEntry>)
    ensures
        s.checked_log(log).len() == log.len(),
        forall|i: int| 0 <= i < log.len() ==> (#[trigger] s.checked_log(log)[i]).0 == log[i].0,
        log_extends(log, s.checked_log(log)),
        log_distinct(log) ==> log_distinct(s.checked_log(log)),
{
}

proof fn lemma_nothing_unlocked_without_completion(s: TaskSystem, log: Seq<LogEntry>)
    ensures
        s.completions(log) == 0 ==> s.unlocked(log).len() == 0,
        s.completions(log) <= log.len(),
    decreases log.len(),
{
    if log.len() > 0 {
        lemma_nothing_unlocked_without_completion(s, log.drop_last());
    }
}

proof fn lemma_same_progress_same_checks(a: TaskSystem, b: TaskSystem, log: Seq<LogEntry>)
    requires
        a.same_progress(b),
    ensures
        a.unlocked(log) == b.unlocked(log),
        a.completions(log) == b.completions(log),
        a.checked_log(log) == b.checked_log(log),
    decreases log.len(),
{
    assert forall|e: LogEntry| a.completes_now(e) == b.completes_now(e) by {
        if let Some(k) = kind_of(e.0) {
            assert(a.goal_met(k) == b.goal_met(k));
        }
    }
    if log.len() > 0 {
        lemma_same_progress_same_checks(a, b, log.drop_last());
    }
    assert(a.checked_log(log) =~= b.checked_log(log));
}

/// Adding a task lists it, keeps every older entry in place (completed ones
/// stay completed), and never lists a description twice.
pub proof fn lemma_add_entry_lists_task(log: Seq<LogEntry>, d: Seq<char>)
    ensures
        log_has(add_entry(log, d), d),
        log_extends(log, add_entry(log, d)),
        log_distinct(log) ==> log_distinct(add_entry(log, d)),
        forall|e: Seq<char>| log_has(log, e) ==> log_has(add_entry(log, d), e),
{
    if !log_has(log, d) {
        let l2 = log.push((d, false));
        assert(l2[log.len() as int].0 == d);
        assert forall|e: Seq<char>| log_has(log, e) implies log_has(l2, e) by {
            let i = choose|i: int| 0 <= i < log.len() && log[i].0 == e;
            assert(l2[i].0 == e);
        }
    }
}

/// Adding a task a second time changes nothing.
pub proof fn lemma_add_entry_idempotent(log: Seq<LogEntry>, d: Seq<char>)
    ensures
        add_entry(add_entry(log, d), d) == add_entry(log, d),
{
    lemma_add_entry_lists_task(log, d);
}

/// Adding several tasks lists each of them, and keeps older entries in place.
pub proof fn lemma_add_kinds_lists_tasks(log: Seq<LogEntry>, ks: Seq<TaskKind>)
    ensures
        log_extends(log, add_kinds(log, ks)),
        log_distinct(log) ==> log_distinct(add_kinds(log, ks)),
        forall|j: int| 0 <= j < ks.len() ==> log_has(add_kinds(log, ks), kind_text(#[trigger] ks[j])),
        forall|e: Seq<char>| log_has(log, e) ==> log_has(add_kinds(log, ks), e),
    decreases ks.len(),
{
    if ks.len() > 0 {
        let l1 = add_entry(log, kind_text(ks[0]));
        lemma_add_entry_lists_task(log, kind_text(ks[0]));
        lemma_add_kinds_lists_tasks(l1, ks.drop_first());
        assert forall|j: int| 0 <= j < ks.len() implies log_has(
            add_kinds(log, ks),
            kind_text(#[trigger] ks[j]),
        ) by {
            if j > 0 {
                assert(ks[j] == ks.drop_first()[j - 1]);
            }
        }
    }
}

/// `update` never forgets progress: every task listed before is still listed at
/// its place, a completed task stays completed, a task whose goal is met is
/// completed, and every task unlocked by a completion is listed afterwards.
pub proof fn lemma_update_keeps_progress(s: TaskSystem)
    ensures
        log_extends(s.log(), add_kinds(s.checked_log(s.log()), s.unlocked(s.log()))),
        forall|i: int|
            0 <= i < s.log().len() && #[trigger] s.completes_now(s.log()[i]) ==> add_kinds(
                s.checked_log(s.log()),
                s.unlocked(s.log()),
            )[i].1,
        forall|j: int|
            0 <= j < s.unlocked(s.log()).len() ==> log_has(
                add_kinds(s.checked_log(s.log()), s.unlocked(s.log())),
                kind_text(#[trigger] s.unlocked(s.log())[j]),
            ),
{
    lemma_checked_log_keeps_descriptions(s, s.log());
    lemma_add_kinds_lists_tasks(s.checked_log(s.log()), s.unlocked(s.log()));
}

/// Completing a listed task keeps every entry in place and only ever sets the
/// completed flag.
pub proof fn lemma_log_complete_keeps_progress(log: Seq<LogEntry>, d: Seq<char>)
    ensures
        log_extends(log, log_complete(log, d)),
        log_complete(log, d).len() == log.len(),
        log_has(log, d) ==> log_has_completed(log_complete(log, d), d),
{
    if log_has(log, d) {
        let i = choose|i: int| 0 <= i < log.len() && log[i].0 == d;
        assert(log_complete(log, d)[i].0 == d && log_complete(log, d)[i].1);
    }
}

/// Counting a kill raises exactly that kind's counter by one.
pub proof fn lemma_kill_counts_one(s: TaskSystem, v: CpuVariant, w: CpuVariant)
    requires
        s.kill_count(v) < u32::MAX,
    ensures
        s.with_kill(v).kill_count(w) == s.kill_count(w) + if v == w { 1int } else { 0int },
        s.with_kill(v).log() == s.log(),
{
}

/// How many entries of `before` are completed in `after` but were not in `before`.
pub open spec fn newly_completed(before: Seq<LogEntry>, after: Seq<LogEntry>) -> nat
    decreases before.len(),
{
    if before.len() == 0 {
        0
    } else {
        newly_completed(before.drop_last(), after) + if !before.last().1 && after[before.len()
            - 1].1 {
            1nat
        } else {
            0nat
        }
    }
}

proof fn lemma_completions_of_prefix(s: TaskSystem, log: Seq<LogEntry>, i: int)
    requires
        0 <= i <= log.len(),
    ensures
        s.completions(log.take(i)) <= s.completions(log),
    decreases log.len(),
{
    if i == log.len() {
        assert(log.take(i) =~= log);
    } else {
        assert(log.drop_last().take(i) =~= log.take(i));
        lemma_completions_of_prefix(s, log.drop_last(), i);
    }
}

/// Adding tasks only appends: every older entry is left exactly as it was.
pub proof fn lemma_add_kinds_keeps_prefix(log: Seq<LogEntry>, ks: Seq<TaskKind>)
    ensures
        add_kinds(log, ks).len() >= log.len(),
        forall|i: int| 0 <= i < log.len() ==> #[trigger] add_kinds(log, ks)[i] == log[i],
    decreases ks.len(),
{
    if ks.len() > 0 {
        let l1 = add_entry(log, kind_text(ks[0]));
        lemma_add_kinds_keeps_prefix(l1, ks.drop_first());
        assert forall|i: int| 0 <= i < log.len() implies #[trigger] add_kinds(log, ks)[i]
            == log[i] by {
            assert(l1[i] == log[i]);
        }
    }
}

/// The tasks `update` completes are exactly those that go from not completed
/// to completed: the count it returns is the number of such entries.
pub proof fn lemma_newly_completed_are_completions(
    s: TaskSystem,
    log: Seq<LogEntry>,
    after: Seq<LogEntry>,
)
    requires
        after.len() >= log.len(),
        forall|i: int| 0 <= i < log.len() ==> after[i] == #[trigger] s.checked_log(log)[i],
    ensures
        newly_completed(log, after) == s.completions(log),
    decreases log.len(),
{
    if log.len() > 0 {
        let d = log.drop_last();
        assert forall|i: int| 0 <= i < d.len() implies after[i] == #[trigger] s.checked_log(d)[i]
            by {
            assert(s.checked_log(log)[i] == after[i]);
        }
        lemma_newly_completed_are_completions(s, d, after);
        assert(s.checked_log(log)[log.len() - 1] == after[log.len() - 1]);
    }
}


/// Each kind of task is listed under a description of its own, so the
/// description a task is listed under names its kind.
pub proof fn lemma_kind_of_text(k: TaskKind)
    ensures
        kind_of(kind_text(k)) == Some(k),
{
    reveal_strlit("DEFEAT 3 GIANT MANTIS");
    reveal_strlit("DEFEAT 25 RATTLESNAKE");
    reveal_strlit("DEFEAT 5 GIANT RATTLESNAKE");
    reveal_strlit("CLEAR RAPTOR NEST: FIELD[X1 Y0]");
    reveal_strlit("DEFEAT 10 RAPTOR");
    reveal_strlit("GET TO THE ROCKETBAY [X-2 Y5]");
    reveal_strlit("DEFEAT 1 T-REX");
    reveal_strlit("FIND 10 SURVIVORS");
    reveal_strlit("BOARD THE FIGHTERJET");
    reveal_strlit("FLY TO FORT SILO [X-25 Y25]");
    reveal_strlit("DEFEAT THE FLYING SAUCER");
    reveal_strlit("LAND ON FORT SILO");
    reveal_strlit("SPEAK TO THE GRAND COMMANDER");
    reveal_strlit("LAND THE FIGHTERJET ON THE RACETRACK");
    reveal_strlit("PROCEED TO THE STARTING LINE");
    match k {
        TaskKind::DefeatGiantMantis => {
        },
        TaskKind::DefeatRattlesnake => {
            assert(kind_text(TaskKind::DefeatGiantMantis)[7]
                != kind_text(TaskKind::DefeatRattlesnake)[7]);
        },
        TaskKind::DefeatGiantRattlesnake => {
            assert(kind_text(TaskKind::DefeatGiantMantis).len()
                != kind_text(TaskKind::DefeatGiantRattlesnake).len());
            assert(kind_text(TaskKind::DefeatRattlesnake).len()
                != kind_text(TaskKind::DefeatGiantRattlesnake).len());
        },
        TaskKind::ClearRaptorNest => {
            assert(kind_text(TaskKind::DefeatGiantMantis).len()
                != kind_text(TaskKind::ClearRaptorNest).len());
            assert(kind_text(TaskKind::DefeatRattlesnake).len()
                != kind_text(TaskKind::ClearRaptorNest).len());
            assert(kind_text(TaskKind::DefeatGiantRattlesnake).len()
                != kind_text(TaskKind::ClearRaptorNest).len());
        },
        TaskKind::DefeatRaptor => {
            assert(kind_text(TaskKind::DefeatGiantMantis).len()
                != kind_text(TaskKind::DefeatRaptor).len());
            assert(kind_text(TaskKind::DefeatRattlesnake).len()
                != kind_text(TaskKind::DefeatRaptor).len());
            assert(kind_text(TaskKind::DefeatGiantRattlesnake).len()
                != kind_text(TaskKind::DefeatRaptor).len());
            assert(kind_text(TaskKind::ClearRaptorNest).len()
                != kind_text(TaskKind::DefeatRaptor).len());
        },
        TaskKind::GetToRocketbay => {
            assert(kind_text(TaskKind::DefeatGiantMantis).len()
                != kind_text(TaskKind::GetToRocketbay).len());
            assert(kind_text(TaskKind::DefeatRattlesnake).len()
                != kind_text(TaskKind::GetToRocketbay).len());
            assert(kind_text(TaskKind::DefeatGiantRattlesnake).len()
                != kind_text(TaskKind::GetToRocketbay).len());
            assert(kind_text(TaskKind::ClearRaptorNest).len()
                != kind_text(TaskKind::GetToRocketbay).len());
            assert(kind_text(TaskKind::DefeatRaptor).len()
                != kind_text(TaskKind::GetToRocketbay).len());
        },
        TaskKind::DefeatTRex => {
            assert(kind_text(TaskKind::DefeatGiantMantis).len()
                != kind_text(TaskKind::DefeatTRex).len());
            assert(kind_text(TaskKind::DefeatRattlesnake).len()
                != kind_text(TaskKind::DefeatTRex).len());
            assert(kind_text(TaskKind::DefeatGiantRattlesnake).len()
                != kind_text(TaskKind::DefeatTRex).len());
            assert(kind_text(TaskKind::ClearRaptorNest).len()
                != kind_text(TaskKind::DefeatTRex).len());
            assert(kind_text(TaskKind::DefeatRaptor).len()
                != kind_text(TaskKind::DefeatTRex).len());
            assert(kind_text(TaskKind::GetToRocketbay).len()
                != kind_text(TaskKind::DefeatTRex).len());
        },
        TaskKind::FindSurvivors => {
            assert(kind_text(TaskKind::DefeatGiantMantis).len()
                != kind_text(TaskKind::FindSurvivors).len());
            assert(kind_text(TaskKind::DefeatRattlesnake).len()
                != kind_text(TaskKind::FindSurvivors).len());
            assert(kind_text(TaskKind::DefeatGiantRattlesnake).len()
                != kind_text(TaskKind::FindSurvivors).len());
            assert(kind_text(TaskKind::ClearRaptorNest).len()
                != kind_text(TaskKind::FindSurvivors).len());
            assert(kind_text(TaskKind::DefeatRaptor).len()
                != kind_text(TaskKind::FindSurvivors).len());
            assert(kind_text(TaskKind::GetToRocketbay).len()
                != kind_text(TaskKind::FindSurvivors).len());
            assert(kind_text(TaskKind::DefeatTRex).len()
                != kind_text(TaskKind::FindSurvivors).len());
        },
        TaskKind::BoardFighterJet => {
            assert(kind_text(TaskKind::DefeatGiantMantis).len()
                != kind_text(TaskKind::BoardFighterJet).len());
            assert(kind_text(TaskKind::DefeatRattlesnake).len()
                != kind_text(TaskKind::BoardFighterJet).len());
            assert(kind_text(TaskKind::DefeatGiantRattlesnake).len()
                != kind_text(TaskKind::BoardFighterJet).len());
            assert(kind_text(TaskKind::ClearRaptorNest).len()
                != kind_text(TaskKind::BoardFighterJet).len());
            assert(kind_text(TaskKind::DefeatRaptor).len()
                != kind_text(TaskKind::BoardFighterJet).len());
            assert(kind_text(TaskKind::GetToRocketbay).len()
                != kind_text(TaskKind::BoardFighterJet).len());
            assert(kind_text(TaskKind::DefeatTRex).len()
                != kind_text(TaskKind::BoardFighterJet).len());
            assert(kind_text(TaskKind::FindSurvivors).len()
                != kind_text(TaskKind::BoardFighterJet).len());
        },
        TaskKind::FlyToFortSilo => {
            assert(kind_text(TaskKind::DefeatGiantMantis).len()
                != kind_text(TaskKind::FlyToFortSilo).len());
            assert(kind_text(TaskKind::DefeatRattlesnake).len()
                != kind_text(TaskKind::FlyToFortSilo).len());
            assert(kind_text(TaskKind::DefeatGiantRattlesnake).len()
                != kind_text(TaskKind::FlyToFortSilo).len());
            assert(kind_text(TaskKind::ClearRaptorNest).len()
                != kind_text(TaskKind::FlyToFortSilo).len());
            assert(kind_text(TaskKind::DefeatRaptor).len()
                != kind_text(TaskKind::FlyToFortSilo).len());
            assert(kind_text(TaskKind::GetToRocketbay).len()
                != kind_text(TaskKind::FlyToFortSilo).len());
            assert(kind_text(TaskKind::DefeatTRex).len()
                != kind_text(TaskKind::FlyToFortSilo).len());
            assert(kind_text(TaskKind::FindSurvivors).len()
                != kind_text(TaskKind::FlyToFortSilo).len());
            assert(kind_text(TaskKind::BoardFighterJet).len()
                != kind_text(TaskKind::FlyToFortSilo).len());
        },
        TaskKind::DefeatFlyingSaucer => {
            assert(kind_text(TaskKind::DefeatGiantMantis).len()
                != kind_text(TaskKind::DefeatFlyingSaucer).len());
            assert(kind_text(TaskKind::DefeatRattlesnake).len()
                != kind_text(TaskKind::DefeatFlyingSaucer).len());
            assert(kind_text(TaskKind::DefeatGiantRattlesnake).len()
                != kind_text(TaskKind::DefeatFlyingSaucer).len());
            assert(kind_text(TaskKind::ClearRaptorNest).len()
                != kind_text(TaskKind::DefeatFlyingSaucer).len());
            assert(kind_text(TaskKind::DefeatRaptor).len()
                != kind_text(TaskKind::DefeatFlyingSaucer).len());
            assert(kind_text(TaskKind::GetToRocketbay).len()
                != kind_text(TaskKind::DefeatFlyingSaucer).len());
            assert(kind_text(TaskKind::DefeatTRex).len()
                != kind_text(TaskKind::DefeatFlyingSaucer).len());
            assert(kind_text(TaskKind::FindSurvivors).len()
                != kind_text(TaskKind::DefeatFlyingSaucer).len());
            assert(kind_text(TaskKind::BoardFighterJet).len()
                != kind_text(TaskKind::DefeatFlyingSaucer).len());
            assert(kind_text(TaskKind::FlyToFortSilo).len()
                != kind_text(TaskKind::DefeatFlyingSaucer).len());
        },
        TaskKind::LandOnFortSilo => {
            assert(kind_text(TaskKind::DefeatGiantMantis).len()
                != kind_text(TaskKind::LandOnFortSilo).len());
            assert(kind_text(TaskKind::DefeatRattlesnake).len()
                != kind_text(TaskKind::LandOnFortSilo).len());
            assert(kind_text(TaskKind::DefeatGiantRattlesnake).len()
                != kind_text(TaskKind::LandOnFortSilo).len());
            assert(kind_text(TaskKind::ClearRaptorNest).len()
                != kind_text(TaskKind::LandOnFortSilo).len());
            assert(kind_text(TaskKind::DefeatRaptor).len()
                != kind_text(TaskKind::LandOnFortSilo).len());
            assert(kind_text(TaskKind::GetToRocketbay).len()
                != kind_text(TaskKind::LandOnFortSilo).len());
            assert(kind_text(TaskKind::DefeatTRex).len()
                != kind_text(TaskKind::LandOnFortSilo).len());
            assert(kind_text(TaskKind::FindSurvivors)[0]
                != kind_text(TaskKind::LandOnFortSilo)[0]);
            assert(kind_text(TaskKind::BoardFighterJet).len()
                != kind_text(TaskKind::LandOnFortSilo).len());
            assert(kind_text(TaskKind::FlyToFortSilo).len()
                != kind_text(TaskKind::LandOnFortSilo).len());
            assert(kind_text(TaskKind::DefeatFlyingSaucer).len()
                != kind_text(TaskKind::LandOnFortSilo).len());
        },
        TaskKind::SpeakToGrandCommander => {
            assert(kind_text(TaskKind::DefeatGiantMantis).len()
                != kind_text(TaskKind::SpeakToGrandCommander).len());
            assert(kind_text(TaskKind::DefeatRattlesnake).len()
                != kind_text(TaskKind::SpeakToGrandCommander).len());
            assert(kind_text(TaskKind::DefeatGiantRattlesnake).len()
                != kind_text(TaskKind::SpeakToGrandCommander).len());
            assert(kind_text(TaskKind::ClearRaptorNest).len()
                != kind_text(TaskKind::SpeakToGrandCommander).len());
            assert(kind_text(TaskKind::DefeatRaptor).len()
                != kind_text(TaskKind::SpeakToGrandCommander).len());
            assert(kind_text(TaskKind::GetToRocketbay).len()
                != kind_text(TaskKind::SpeakToGrandCommander).len());
            assert(kind_text(TaskKind::DefeatTRex).len()
                != kind_text(TaskKind::SpeakToGrandCommander).len());
            assert(kind_text(TaskKind::FindSurvivors).len()
                != kind_text(TaskKind::SpeakToGrandCommander).len());
            assert(kind_text(TaskKind::BoardFighterJet).len()
                != kind_text(TaskKind::SpeakToGrandCommander).len());
            assert(kind_text(TaskKind::FlyToFortSilo).len()
                != kind_text(TaskKind::SpeakToGrandCommander).len());
            assert(kind_text(TaskKind::DefeatFlyingSaucer).len()
                != kind_text(TaskKind::SpeakToGrandCommander).len());
            assert(kind_text(TaskKind::LandOnFortSilo).len()
                != kind_text(TaskKind::SpeakToGrandCommander).len());
        },
        TaskKind::LandFighterJetOnRacetrack => {
            assert(kind_text(TaskKind::DefeatGiantMantis).len()
                != kind_text(TaskKind::LandFighterJetOnRacetrack).len());
            assert(kind_text(TaskKind::DefeatRattlesnake).len()
                != kind_text(TaskKind::LandFighterJetOnRacetrack).len());
            assert(kind_text(TaskKind::DefeatGiantRattlesnake).len()
                != kind_text(TaskKind::LandFighterJetOnRacetrack).len());
            assert(kind_text(TaskKind::ClearRaptorNest).len()
                != kind_text(TaskKind::LandFighterJetOnRacetrack).len());
            assert(kind_text(TaskKind::DefeatRaptor).len()
                != kind_text(TaskKind::LandFighterJetOnRacetrack).len());
            assert(kind_text(TaskKind::GetToRocketbay).len()
                != kind_text(TaskKind::LandFighterJetOnRacetrack).len());
            assert(kind_text(TaskKind::DefeatTRex).len()
                != kind_text(TaskKind::LandFighterJetOnRacetrack).len());
            assert(kind_text(TaskKind::FindSurvivors).len()
                != kind_text(TaskKind::LandFighterJetOnRacetrack).len());
            assert(kind_text(TaskKind::BoardFighterJet).len()
                != kind_text(TaskKind::LandFighterJetOnRacetrack).len());
            assert(kind_text(TaskKind::FlyToFortSilo).len()
                != kind_text(TaskKind::LandFighterJetOnRacetrack).len());
            assert(kind_text(TaskKind::DefeatFlyingSaucer).len()
                != kind_text(TaskKind::LandFighterJetOnRacetrack).len());
            assert(kind_text(TaskKind::LandOnFortSilo).len()
                != kind_text(TaskKind::LandFighterJetOnRacetrack).len());
            assert(kind_text(TaskKind::SpeakToGrandCommander).len()
                != kind_text(TaskKind::LandFighterJetOnRacetrack).len());
        },
        TaskKind::ProceedToStartingLine => {
            assert(kind_text(TaskKind::DefeatGiantMantis).len()
                != kind_text(TaskKind::ProceedToStartingLine).len());
            assert(kind_text(TaskKind::DefeatRattlesnake).len()
                != kind_text(TaskKind::ProceedToStartingLine).len());
            assert(kind_text(TaskKind::DefeatGiantRattlesnake).len()
                != kind_text(TaskKind::ProceedToStartingLine).len());
            assert(kind_text(TaskKind::ClearRaptorNest).len()
                != kind_text(TaskKind::ProceedToStartingLine).len());
            assert(kind_text(TaskKind::DefeatRaptor).len()
                != kind_text(TaskKind::ProceedToStartingLine).len());
            assert(kind_text(TaskKind::GetToRocketbay).len()
                != kind_text(TaskKind::ProceedToStartingLine).len());
            assert(kind_text(TaskKind::DefeatTRex).len()
                != kind_text(TaskKind::ProceedToStartingLine).len());
            assert(kind_text(TaskKind::FindSurvivors).len()
                != kind_text(TaskKind::ProceedToStartingLine).len());
            assert(kind_text(TaskKind::BoardFighterJet).len()
                != kind_text(TaskKind::ProceedToStartingLine).len());
            assert(kind_text(TaskKind::FlyToFortSilo).len()
                != kind_text(TaskKind::ProceedToStartingLine).len());
            assert(kind_text(TaskKind::DefeatFlyingSaucer).len()
                != kind_text(TaskKind::ProceedToStartingLine).len());
            assert(kind_text(TaskKind::LandOnFortSilo).len()
                != kind_text(TaskKind::ProceedToStartingLine).len());
            assert(kind_text(TaskKind::SpeakToGrandCommander)[0]
                != kind_text(TaskKind::ProceedToStartingLine)[0]);
            assert(kind_text(TaskKind::LandFighterJetOnRacetrack).len()
                != kind_text(TaskKind::ProceedToStartingLine).len());
        },
    }
}

/// `update` completes a listed, not yet completed task exactly when the game's
/// progress has reached that task's own goal: 3 giant mantis, 25 rattlesnakes,
/// 5 giant rattlesnakes, 10 raptors or 1 T-Rex defeated, 10 survivors found,
/// or the milestone the task names. Boarding the fighterjet and proceeding to
/// the starting line are completed only where the player does them, never by
/// `update`, and neither is a task whose description the game does not know.
pub proof fn lemma_update_completes_by_goal(s: TaskSystem, i: int)
    requires
        0 <= i < s.log().len(),
        !s.log()[i].1,
    ensures
        ({
            let d = s.log()[i].0;
            let done = add_kinds(s.checked_log(s.log()), s.unlocked(s.log()))[i].1;
            &&& d == "DEFEAT 3 GIANT MANTIS"@ ==> (done <==> s.kill_count(CpuVariant::GiantMantis) >= 3)
            &&& d == "DEFEAT 25 RATTLESNAKE"@ ==> (done <==> s.kill_count(CpuVariant::Rattlesnake) >= 25)
            &&& d == "DEFEAT 5 GIANT RATTLESNAKE"@ ==> (done <==> s.kill_count(CpuVariant::GiantRattlesnake) >= 5)
            &&& d == "CLEAR RAPTOR NEST: FIELD[X1 Y0]"@ ==> (done <==> s.nest_cleared())
            &&& d == "DEFEAT 10 RAPTOR"@ ==> (done <==> s.kill_count(CpuVariant::Raptor) >= 10)
            &&& d == "GET TO THE ROCKETBAY [X-2 Y5]"@ ==> (done <==> s.at_rocketbay())
            &&& d == "DEFEAT 1 T-REX"@ ==> (done <==> s.kill_count(CpuVariant::TRex) >= 1)
            &&& d == "FIND 10 SURVIVORS"@ ==> (done <==> s.survivors() >= 10)
            &&& d == "BOARD THE FIGHTERJET"@ ==> !done
            &&& d == "FLY TO FORT SILO [X-25 Y25]"@ ==> (done <==> s.at_fort_silo())
            &&& d == "DEFEAT THE FLYING SAUCER"@ ==> (done <==> s.saucer_defeated())
            &&& d == "LAND ON FORT SILO"@ ==> (done <==> s.landed_on_silo())
            &&& d == "SPEAK TO THE GRAND COMMANDER"@ ==> (done <==> s.commander_spoken())
            &&& d == "LAND THE FIGHTERJET ON THE RACETRACK"@ ==> (done
                <==> s.racer_returned())
            &&& d == "PROCEED TO THE STARTING LINE"@ ==> !done
            &&& kind_of(d) is None ==> !done
        }),
{
    let log = s.log();
    let d = log[i].0;
    lemma_add_kinds_keeps_prefix(s.checked_log(log), s.unlocked(log));
    assert(s.checked_log(log)[i] == (d, log[i].1 || s.completes_now(log[i])));
    lemma_kind_of_text(TaskKind::DefeatGiantMantis);
    lemma_kind_of_text(TaskKind::DefeatRattlesnake);
    lemma_kind_of_text(TaskKind::DefeatGiantRattlesnake);
    lemma_kind_of_text(TaskKind::ClearRaptorNest);
    lemma_kind_of_text(TaskKind::DefeatRaptor);
    lemma_kind_of_text(TaskKind::GetToRocketbay);
    lemma_kind_of_text(TaskKind::DefeatTRex);
    lemma_kind_of_text(TaskKind::FindSurvivors);
    lemma_kind_of_text(TaskKind::BoardFighterJet);
    lemma_kind_of_text(TaskKind::FlyToFortSilo);
    lemma_kind_of_text(TaskKind::DefeatFlyingSaucer);
    lemma_kind_of_text(TaskKind::LandOnFortSilo);
    lemma_kind_of_text(TaskKind::SpeakToGrandCommander);
    lemma_kind_of_text(TaskKind::LandFighterJetOnRacetrack);
    lemma_kind_of_text(TaskKind::ProceedToStartingLine);
}


proof fn lemma_unlocked_includes_follow_ups(s: TaskSystem, log: Seq<LogEntry>, i: int)
    requires
        0 <= i < log.len(),
        s.completes_now(log[i]),
    ensures
        forall|t: TaskKind|
            follow_ups(kind_of(log[i].0).unwrap()).contains(t) ==> s.unlocked(log).contains(t),
    decreases log.len(),
{
    let f = follow_ups(kind_of(log[i].0).unwrap());
    let d = log.drop_last();
    assert(s.unlocked(log) == s.unlocked(d) + if s.completes_now(log.last()) {
        follow_ups(kind_of(log.last().0).unwrap())
    } else {
        Seq::empty()
    });
    if i < log.len() - 1 {
        assert(d[i] == log[i]);
        lemma_unlocked_includes_follow_ups(s, d, i);
        assert forall|t: TaskKind| f.contains(t) implies s.unlocked(log).contains(t) by {
            assert(s.unlocked(d).contains(t));
            let m = choose|m: int| 0 <= m < s.unlocked(d).len() && s.unlocked(d)[m] == t;
            assert(s.unlocked(log)[m] == t);
        }
    } else {
        assert(log.last() == log[i]);
        assert(s.unlocked(log) == s.unlocked(d) + f);
        assert forall|t: TaskKind| f.contains(t) implies s.unlocked(log).contains(t) by {
            let m = choose|m: int| 0 <= m < f.len() && f[m] == t;
            assert(s.unlocked(log)[s.unlocked(d).len() + m] == t);
        }
    }
}

/// Completing a task by `update` lists the tasks it leads to: finding the
/// survivors leads to boarding the fighterjet and flying to fort silo, reaching
/// fort silo to the flying saucer, defeating it to landing on fort silo, the
/// landing to the grand commander, speaking to him to landing the fighterjet on
/// the racetrack, and that landing to proceeding to the starting line.
pub proof fn lemma_update_lists_follow_ups(s: TaskSystem, i: int)
    requires
        0 <= i < s.log().len(),
        !s.log()[i].1,
    ensures
        ({
            let d = s.log()[i].0;
            let after = add_kinds(s.checked_log(s.log()), s.unlocked(s.log()));
            &&& d == "FIND 10 SURVIVORS"@ && s.survivors() >= 10 ==> log_has(
                after,
                "BOARD THE FIGHTERJET"@,
            ) && log_has(after, "FLY TO FORT SILO [X-25 Y25]"@)
            &&& d == "FLY TO FORT SILO [X-25 Y25]"@ && s.at_fort_silo() ==> log_has(
                after,
                "DEFEAT THE FLYING SAUCER"@,
            )
            &&& d == "DEFEAT THE FLYING SAUCER"@ && s.saucer_defeated() ==> log_has(
                after,
                "LAND ON FORT SILO"@,
            )
            &&& d == "LAND ON FORT SILO"@ && s.landed_on_silo() ==> log_has(
                after,
                "SPEAK TO THE GRAND COMMANDER"@,
            )
            &&& d == "SPEAK TO THE GRAND COMMANDER"@ && s.commander_spoken() ==> log_has(
                after,
                "LAND THE FIGHTERJET ON THE RACETRACK"@,
            )
            &&& d == "LAND THE FIGHTERJET ON THE RACETRACK"@ && s.racer_returned() ==> log_has(
                after,
                "PROCEED TO THE STARTING LINE"@,
            )
        }),
{
    let log = s.log();
    let d = log[i].0;
    let u = s.unlocked(log);
    lemma_update_keeps_progress(s);
    lemma_update_completes_by_goal(s, i);
    if let Some(k) = kind_of(d) {
        if s.completes_now(log[i]) {
            lemma_unlocked_includes_follow_ups(s, log, i);
            let f = follow_ups(k);
            assert forall|j: int| 0 <= j < f.len() implies log_has(
                add_kinds(s.checked_log(log), u),
                kind_text(#[trigger] f[j]),
            ) by {
                assert(f.contains(f[j]));
                assert(u.contains(f[j]));
                let m = choose|m: int| 0 <= m < u.len() && u[m] == f[j];
                assert(log_has(add_kinds(s.checked_log(log), u), kind_text(u[m])));
            }
            if f.len() > 0 {
                assert(log_has(add_kinds(s.checked_log(log), u), kind_text(f[0])));
            }
            if f.len() > 1 {
                assert(log_has(add_kinds(s.checked_log(log), u), kind_text(f[1])));
            }
        }
    }
    lemma_kind_of_text(TaskKind::FindSurvivors);
    lemma_kind_of_text(TaskKind::FlyToFortSilo);
    lemma_kind_of_text(TaskKind::DefeatFlyingSaucer);
    lemma_kind_of_text(TaskKind::LandOnFortSilo);
    lemma_kind_of_text(TaskKind::SpeakToGrandCommander);
    lemma_kind_of_text(TaskKind::LandFighterJetOnRacetrack);
}

} // verus!
