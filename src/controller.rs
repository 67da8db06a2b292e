//! The regeneration controller: decides when a generation pass starts and
//! whether its output is installed. Passes are numbered by the request that
//! started them; a pass whose request has been superseded is discarded and the
//! latest request is started in its place, so at most one pass runs at a time
//! and only a pass of the latest request is ever installed.
use vstd::prelude::*;

verus! {

/// A pass to run: the request it serves, and whether it places instances
/// (the vegetation variants were ready when it started).
#[derive(Clone, Copy, Debug, PartialEq, Eq, Structural)]
pub struct PassOrder {
    pub generation: u64,
    pub place: bool,
}

/// What the controller observes.
#[derive(Clone, Copy, Debug, PartialEq, Eq, Structural)]
pub enum ControllerEvent {
    /// A new configuration snapshot is available.
    ConfigChanged,
    /// The vegetation variants finished loading.
    AssetsReady,
    /// The pass of this generation produced its terrain.
    PassFinished { generation: u64 },
    /// The pass of this generation failed; its output must not be installed.
    PassFailed { generation: u64 },
}

/// What the caller does next: install the output of a finished pass (tearing
/// down the previous generation), and/or start a new pass.
#[derive(Clone, Copy, Debug, PartialEq, Eq, Structural)]
pub struct Directive {
    pub install: Option<u64>,
    pub start: Option<PassOrder>,
}

/// The lifecycle phase, derived from the controller's state.
#[derive(Clone, Copy, Debug, PartialEq, Eq, Structural)]
pub enum Phase {
    Idle,
    AwaitingAssets,
    Generating,
    Installed,
}

#[derive(Clone, Copy, Debug, PartialEq, Eq, Structural)]
pub struct RegenerationController {
    /// The latest request; every configuration change, and the variants
    /// becoming ready, make a new one.
    pub requested: u64,
    pub has_config: bool,
    pub assets_ready: bool,
    /// The one pass in flight, if any.
    pub running: Option<PassOrder>,
    /// The pass whose output is installed, if any.
    pub installed: Option<PassOrder>,
}

pub open spec fn idle_directive() -> Directive {
    Directive { install: None, start: None }
}

/// The controller is consistent: no pass is numbered past the latest request,
/// and nothing runs or is installed before a configuration arrived.
pub open spec fn controller_wf(c: RegenerationController) -> bool {
    &&& c.running matches Some(p) ==> p.generation <= c.requested && c.has_config
    &&& c.installed matches Some(p) ==> p.generation <= c.requested && c.has_config
}

/// Starts a pass of the latest request.
pub open spec fn start_latest(c: RegenerationController) -> (RegenerationController, Directive) {
    let order = PassOrder { generation: c.requested, place: c.assets_ready };
    (
        RegenerationController { running: Some(order), ..c },
        Directive { install: None, start: Some(order) },
    )
}

/// Starts a pass of the latest request unless one is already running; the
/// running one is then superseded and restarted when it ends.
pub open spec fn request(c: RegenerationController) -> (RegenerationController, Directive) {
    if c.running is Some {
        (c, idle_directive())
    } else {
        start_latest(c)
    }
}

/// The controller's transition.
pub open spec fn next(c: RegenerationController, e: ControllerEvent) -> (
    RegenerationController,
    Directive,
) {
    match e {
        ControllerEvent::ConfigChanged => request(
            RegenerationController { requested: (c.requested + 1) as u64, has_config: true, ..c },
        ),
        ControllerEvent::AssetsReady => {
            if c.assets_ready {
                (c, idle_directive())
            } else if !c.has_config {
                (RegenerationController { assets_ready: true, ..c }, idle_directive())
            } else {
                request(
                    RegenerationController {
                        assets_ready: true,
                        requested: (c.requested + 1) as u64,
                        ..c
                    },
                )
            }
        },
        ControllerEvent::PassFinished { generation } => {
            match c.running {
                Some(p) if p.generation == generation => {
                    if generation == c.requested {
                        (
                            RegenerationController { running: None, installed: Some(p), ..c },
                            Directive { install: Some(generation), start: None },
                        )
                    } else {
                        start_latest(RegenerationController { running: None, ..c })
                    }
                },
                _ => (c, idle_directive()),
            }
        },
        ControllerEvent::PassFailed { generation } => {
            match c.running {
                Some(p) if p.generation == generation => {
                    if generation == c.requested {
                        (RegenerationController { running: None, ..c }, idle_directive())
                    } else {
                        start_latest(RegenerationController { running: None, ..c })
                    }
                },
                _ => (c, idle_directive()),
            }
        },
    }
}

pub open spec fn phase_of(c: RegenerationController) -> Phase {
    if c.running is Some {
        Phase::Generating
    } else {
        match c.installed {
            Some(p) => if p.place {
                Phase::Installed
            } else {
                Phase::AwaitingAssets
            },
            None => Phase::Idle,
        }
    }
}

/// Whatever the event, an install directive names the latest request, whose
/// pass just finished and is now the one installed generation; a started pass
/// is of the latest request and is the one pass in flight.
pub proof fn lemma_installs_only_the_latest(c: RegenerationController, e: ControllerEvent)
    requires
        controller_wf(c),
        c.requested < u64::MAX,
    ensures
        ({
            let (c2, d) = next(c, e);
            &&& controller_wf(c2)
            &&& d.install matches Some(g) ==> {
                &&& g == c2.requested
                &&& c.running matches Some(p) && p.generation == g
                &&& c2.installed == c.running
                &&& c2.running is None
            }
            &&& d.start matches Some(o) ==> o.generation == c2.requested && c2.running == Some(o)
            &&& d.install is None ==> c2.installed == c.installed
        }),
{
}

/// A second configuration change while a pass runs does not start another
/// pass; when the superseded pass finishes, its output is discarded, the
/// previous generation stays installed, and a pass of the latest configuration
/// starts; when that one finishes, its output is the one installed.
pub proof fn lemma_superseded_pass_is_discarded(c: RegenerationController)
    requires
        controller_wf(c),
        c.running is Some,
        c.requested < u64::MAX - 1,
    ensures
        ({
            let g = c.running->0.generation;
            let (c1, d1) = next(c, ControllerEvent::ConfigChanged);
            let (c2, d2) = next(c1, ControllerEvent::PassFinished { generation: g });
            let (c3, d3) = next(c2, ControllerEvent::PassFinished { generation: c1.requested });
            &&& d1 == idle_directive()
            &&& d2.install is None
            &&& c2.installed == c.installed
            &&& d2.start matches Some(o) && o.generation == c1.requested
            &&& d3.install == Some(c1.requested)
            &&& c3.installed matches Some(p) && p.generation == c1.requested
            &&& c3.running is None
        }),
{
}

impl RegenerationController {
    /// A controller that has seen no configuration and no assets.
    pub fn new() -> (c: RegenerationController)
        ensures
            c == (RegenerationController {
                requested: 0,
                has_config: false,
                assets_ready: false,
                running: None,
                installed: None,
            }),
            controller_wf(c),
    {
        RegenerationController {
            requested: 0,
            has_config: false,
            assets_ready: false,
            running: None,
            installed: None,
        }
    }

    fn start_latest(&mut self) -> (d: Directive)
        ensures
            (*final(self), d) == start_latest(*old(self)),
    {
        let order = PassOrder { generation: self.requested, place: self.assets_ready };
        self.running = Some(order);
        Directive { install: None, start: Some(order) }
    }

    fn request(&mut self) -> (d: Directive)
        ensures
            (*final(self), d) == request(*old(self)),
    {
        if self.running.is_some() {
            Directive { install: None, start: None }
        } else {
            self.start_latest()
        }
    }

    /// Takes one event and says what to do about it.
    pub fn step(&mut self, event: ControllerEvent) -> (d: Directive)
        requires
            old(self).requested < u64::MAX,
        ensures
            (*final(self), d) == next(*old(self), event),
            controller_wf(*old(self)) ==> controller_wf(*final(self)),
    {
        match event {
            ControllerEvent::ConfigChanged => {
                self.requested = self.requested + 1;
                self.has_config = true;
                self.request()
            },
            ControllerEvent::AssetsReady => {
                if self.assets_ready {
                    Directive { install: None, start: None }
                } else if !self.has_config {
                    self.assets_ready = true;
                    Directive { install: None, start: None }
                } else {
                    self.assets_ready = true;
                    self.requested = self.requested + 1;
                    self.request()
                }
            },
            ControllerEvent::PassFinished { generation } => {
                match self.running {
                    Some(p) => {
                        if p.generation != generation {
                            Directive { install: None, start: None }
                        } else if generation == self.requested {
                            self.running = None;
                            self.installed = Some(p);
                            Directive { install: Some(generation), start: None }
                        } else {
                            self.running = None;
                            self.start_latest()
                        }
                    },
                    None => Directive { install: None, start: None },
                }
            },
            ControllerEvent::PassFailed { generation } => {
                match self.running {
                    Some(p) => {
                        if p.generation != generation {
                            Directive { install: None, start: None }
                        } else if generation == self.requested {
                            self.running = None;
                            Directive { install: None, start: None }
                        } else {
                            self.running = None;
                            self.start_latest()
                        }
                    },
                    None => Directive { install: None, start: None },
                }
            },
        }
    }

    /// The current lifecycle phase.
    pub fn phase(&self) -> (p: Phase)
        ensures
            p == phase_of(*self),
    {
        match self.running {
            Some(_) => Phase::Generating,
            None => match self.installed {
                Some(p) => if p.place {
                    Phase::Installed
                } else {
                    Phase::AwaitingAssets
                },
                None => Phase::Idle,
            },
        }
    }
}

} // verus!
