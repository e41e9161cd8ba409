//! Scripted demo sequencer: a finite-state machine over named scenarios with
//! tick-count guards. Each tick it may emit one action for the orchestrator
//! to apply (switch formation, restart an engine, grow the swarm). It is
//! orchestration only: nothing here touches the physical simulation state.

use vstd::prelude::*;

verus! {

/// The scripted phases, in their cycling order.
#[derive(Clone, Copy, Debug, PartialEq, Eq, Structural)]
pub enum DemoScenario {
    FormationShowcase,
    PSOConvergence,
    ACOPathfinding,
    GWOHunting,
    ScaleTest,
}

/// What the sequencer asks the orchestrator to do on one tick.
#[derive(Clone, Copy, Debug, PartialEq, Eq, Structural)]
pub enum DemoAction {
    ChangeFormation(usize),
    StartPSO,
    StartACO,
    StartGWO,
    StartScaleTest,
    IncreaseDrones,
    RestartDemo,
}

/// The sequencer's whole state: the active scenario, its tick counter, and
/// which formation the showcase is on.
#[derive(Clone, Copy, Debug, PartialEq, Eq, Structural)]
pub struct DemoMode {
    pub current_scenario: DemoScenario,
    pub step: u64,
    pub formation_index: usize,
}

/// The transition function: one tick of the sequencer, given how many drones
/// the swarm currently has. Returns the successor state and the action.
pub open spec fn demo_transition(d: DemoMode, drone_count: int) -> (DemoMode, Option<DemoAction>) {
    let step = d.step + 1;
    match d.current_scenario {
        DemoScenario::FormationShowcase => {
            if step % 200 == 0 {
                let fi = ((d.formation_index + 1) % 5) as usize;
                (
                    DemoMode { step: step as u64, formation_index: fi, ..d },
                    Some(DemoAction::ChangeFormation(fi as usize)),
                )
            } else if step > 1000 {
                (
                    DemoMode {
                        step: 0u64,
                        current_scenario: DemoScenario::PSOConvergence,
                        ..d
                    },
                    Some(DemoAction::StartPSO),
                )
            } else {
                (DemoMode { step: step as u64, ..d }, None)
            }
        },
        DemoScenario::PSOConvergence => {
            if step > 600 {
                (
                    DemoMode { step: 0u64, current_scenario: DemoScenario::ACOPathfinding, ..d },
                    Some(DemoAction::StartACO),
                )
            } else {
                (DemoMode { step: step as u64, ..d }, None)
            }
        },
        DemoScenario::ACOPathfinding => {
            if step > 600 {
                (
                    DemoMode { step: 0u64, current_scenario: DemoScenario::GWOHunting, ..d },
                    Some(DemoAction::StartGWO),
                )
            } else {
                (DemoMode { step: step as u64, ..d }, None)
            }
        },
        DemoScenario::GWOHunting => {
            if step > 600 {
                (
                    DemoMode { step: 0u64, current_scenario: DemoScenario::ScaleTest, ..d },
                    Some(DemoAction::StartScaleTest),
                )
            } else {
                (DemoMode { step: step as u64, ..d }, None)
            }
        },
        DemoScenario::ScaleTest => {
            if step % 100 == 0 && drone_count < 100 {
                (DemoMode { step: step as u64, ..d }, Some(DemoAction::IncreaseDrones))
            } else if step > 500 {
                (
                    DemoMode {
                        step: 0u64,
                        current_scenario: DemoScenario::FormationShowcase,
                        formation_index: 0usize,
                    },
                    Some(DemoAction::RestartDemo),
                )
            } else {
                (DemoMode { step: step as u64, ..d }, None)
            }
        },
    }
}

impl DemoMode {
    /// A fresh sequencer at the start of the formation showcase.
    pub fn new() -> (r: Self)
        ensures
            r.current_scenario == DemoScenario::FormationShowcase,
            r.step == 0,
            r.formation_index == 0,
    {
        DemoMode { current_scenario: DemoScenario::FormationShowcase, step: 0, formation_index: 0 }
    }

    /// A display name for the active scenario.
    pub fn scenario_name(&self) -> (r: &'static str)
        ensures
            self.current_scenario == DemoScenario::FormationShowcase ==> r@ == "Formation Showcase"@,
            self.current_scenario == DemoScenario::PSOConvergence ==> r@ == "PSO Optimization"@,
            self.current_scenario == DemoScenario::ACOPathfinding ==> r@ == "ACO Pathfinding"@,
            self.current_scenario == DemoScenario::GWOHunting ==> r@ == "GWO Wolf Pack"@,
            self.current_scenario == DemoScenario::ScaleTest ==> r@ == "Scale Test"@,
    {
        match self.current_scenario {
            DemoScenario::FormationShowcase => "Formation Showcase",
            DemoScenario::PSOConvergence => "PSO Optimization",
            DemoScenario::ACOPathfinding => "ACO Pathfinding",
            DemoScenario::GWOHunting => "GWO Wolf Pack",
            DemoScenario::ScaleTest => "Scale Test",
        }
    }

    /// One tick of the sequencer, exact against the transition function.
    pub fn advance(&mut self, drone_count: usize) -> (action: Option<DemoAction>)
        requires
            old(self).step < u64::MAX,
            old(self).formation_index < usize::MAX,
        ensures
            *final(self) == demo_transition(*old(self), drone_count as int).0,
            action == demo_transition(*old(self), drone_count as int).1,
    {
        self.step = self.step + 1;
        let step = self.step;
        match self.current_scenario {
            DemoScenario::FormationShowcase => {
                if step % 200 == 0 {
                    self.formation_index = (self.formation_index + 1) % 5;
                    Some(DemoAction::ChangeFormation(self.formation_index))
                } else if step > 1000 {
                    self.step = 0;
                    self.current_scenario = DemoScenario::PSOConvergence;
                    Some(DemoAction::StartPSO)
                } else {
                    None
                }
            },
            DemoScenario::PSOConvergence => {
                if step > 600 {
                    self.step = 0;
                    self.current_scenario = DemoScenario::ACOPathfinding;
                    Some(DemoAction::StartACO)
                } else {
                    None
                }
            },
            DemoScenario::ACOPathfinding => {
                if step > 600 {
                    self.step = 0;
                    self.current_scenario = DemoScenario::GWOHunting;
                    Some(DemoAction::StartGWO)
                } else {
                    None
                }
            },
            DemoScenario::GWOHunting => {
                if step > 600 {
                    self.step = 0;
                    self.current_scenario = DemoScenario::ScaleTest;
                    Some(DemoAction::StartScaleTest)
                } else {
                    None
                }
            },
            DemoScenario::ScaleTest => {
                if step % 100 == 0 && drone_count < 100 {
                    Some(DemoAction::IncreaseDrones)
                } else if step > 500 {
                    self.step = 0;
                    self.current_scenario = DemoScenario::FormationShowcase;
                    self.formation_index = 0;
                    Some(DemoAction::RestartDemo)
                } else {
                    None
                }
            },
        }
    }
}

} // verus!
