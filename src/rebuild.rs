//! Sequencing of teardown and rebuild of the rendered board.
//!
//! A cycle runs `Idle -> TearingDown -> Rebuilding -> Idle`. Requests that
//! arrive mid-cycle are coalesced: during teardown the rebuild simply uses
//! the newest viewport; during rebuilding one more cycle is queued.

use vstd::prelude::*;

verus! {

/// Request to remove every rendered tile, clue and control entity.
#[derive(Clone, Copy, Debug, PartialEq, Eq, Structural)]
pub struct DeleteTilesEvent;

/// Report that the removal requested by a `DeleteTilesEvent` completed.
#[derive(Clone, Copy, Debug, PartialEq, Eq, Structural)]
pub struct DeletedTilesEvent;

/// Request to build the rendered board anew.
#[derive(Clone, Copy, Debug, PartialEq, Eq, Structural)]
pub struct SpawnTilesEvent;

#[derive(Clone, Copy, Debug, PartialEq, Eq, Structural)]
pub enum Phase {
    Idle,
    TearingDown,
    Rebuilding,
}

/// What reaches the orchestrator.
#[derive(Clone, Copy, Debug, PartialEq, Eq, Structural)]
pub enum RebuildEvent {
    /// The viewport now measures `w` by `h` pixels.
    Resize { w: u32, h: u32 },
    /// A new puzzle replaced the board.
    Replaced,
    /// The requested teardown finished.
    TilesDeleted(DeletedTilesEvent),
    /// The requested spawn finished.
    TilesSpawned,
}

/// What the orchestrator asks the renderer to do.
#[derive(Clone, Copy, Debug, PartialEq, Eq, Structural)]
pub enum RebuildCommand {
    Nothing,
    Delete(DeleteTilesEvent),
    /// Lay the board out for a `w` by `h` viewport and spawn it.
    Spawn { event: SpawnTilesEvent, w: u32, h: u32 },
}

#[derive(Clone, Copy, Debug, PartialEq, Eq, Structural)]
pub struct Rebuild {
    pub phase: Phase,
    /// The newest requested viewport.
    pub viewport_w: u32,
    pub viewport_h: u32,
    /// Whether a request arrived after the current spawn was issued.
    pub queued: bool,
}

/// Whether an event asks for a new cycle.
pub open spec fn is_request(ev: RebuildEvent) -> bool {
    ev is Resize || ev is Replaced
}

pub open spec fn step_spec(s: Rebuild, ev: RebuildEvent) -> (Rebuild, RebuildCommand) {
    let (w, h) = match ev {
        RebuildEvent::Resize { w, h } => (w, h),
        _ => (s.viewport_w, s.viewport_h),
    };
    let s1 = Rebuild { viewport_w: w, viewport_h: h, ..s };
    match s.phase {
        Phase::Idle => if is_request(ev) {
            (Rebuild { phase: Phase::TearingDown, queued: false, ..s1 }, RebuildCommand::Delete(DeleteTilesEvent))
        } else {
            (s, RebuildCommand::Nothing)
        },
        Phase::TearingDown => if ev is TilesDeleted {
            (
                Rebuild { phase: Phase::Rebuilding, queued: false, ..s1 },
                RebuildCommand::Spawn { event: SpawnTilesEvent, w, h },
            )
        } else {
            (s1, RebuildCommand::Nothing)
        },
        Phase::Rebuilding => if is_request(ev) {
            (Rebuild { queued: true, ..s1 }, RebuildCommand::Nothing)
        } else if ev is TilesSpawned {
            if s.queued {
                (Rebuild { phase: Phase::TearingDown, queued: false, ..s1 }, RebuildCommand::Delete(DeleteTilesEvent))
            } else {
                (Rebuild { phase: Phase::Idle, queued: false, ..s1 }, RebuildCommand::Nothing)
            }
        } else {
            (s1, RebuildCommand::Nothing)
        },
    }
}

/// Two resizes arriving back to back on an idle board give exactly one
/// teardown and one rebuild, and the rebuild uses the later size.
pub proof fn lemma_back_to_back_resizes_coalesce(s: Rebuild, w1: u32, h1: u32, w2: u32, h2: u32)
    requires
        s.phase == Phase::Idle,
    ensures
        ({
            let (s1, c1) = step_spec(s, RebuildEvent::Resize { w: w1, h: h1 });
            let (s2, c2) = step_spec(s1, RebuildEvent::Resize { w: w2, h: h2 });
            let (s3, c3) = step_spec(s2, RebuildEvent::TilesDeleted(DeletedTilesEvent));
            let (s4, c4) = step_spec(s3, RebuildEvent::TilesSpawned);
            &&& c1 == RebuildCommand::Delete(DeleteTilesEvent)
            &&& c2 == RebuildCommand::Nothing
            &&& c3 == (RebuildCommand::Spawn { event: SpawnTilesEvent, w: w2, h: h2 })
            &&& c4 == RebuildCommand::Nothing
            &&& s4.phase == Phase::Idle
            &&& s4.viewport_w == w2
            &&& s4.viewport_h == h2
        }),
{
}

/// Two resizes arriving while a teardown is outstanding join that cycle:
/// no further teardown is issued, and its one rebuild uses the later size.
pub proof fn lemma_resizes_during_teardown_coalesce(s: Rebuild, w1: u32, h1: u32, w2: u32, h2: u32)
    requires
        s.phase == Phase::TearingDown,
    ensures
        ({
            let (s1, c1) = step_spec(s, RebuildEvent::Resize { w: w1, h: h1 });
            let (s2, c2) = step_spec(s1, RebuildEvent::Resize { w: w2, h: h2 });
            let (s3, c3) = step_spec(s2, RebuildEvent::TilesDeleted(DeletedTilesEvent));
            let (s4, c4) = step_spec(s3, RebuildEvent::TilesSpawned);
            &&& c1 == RebuildCommand::Nothing
            &&& c2 == RebuildCommand::Nothing
            &&& c3 == (RebuildCommand::Spawn { event: SpawnTilesEvent, w: w2, h: h2 })
            &&& c4 == RebuildCommand::Nothing
            &&& s4.phase == Phase::Idle
            &&& s4.viewport_w == w2
            &&& s4.viewport_h == h2
        }),
{
}

/// Two resizes arriving while a spawn is outstanding queue exactly one
/// further cycle, whose rebuild uses the later size.
pub proof fn lemma_resizes_during_spawn_coalesce(s: Rebuild, w1: u32, h1: u32, w2: u32, h2: u32)
    requires
        s.phase == Phase::Rebuilding,
    ensures
        ({
            let (s1, c1) = step_spec(s, RebuildEvent::Resize { w: w1, h: h1 });
            let (s2, c2) = step_spec(s1, RebuildEvent::Resize { w: w2, h: h2 });
            let (s3, c3) = step_spec(s2, RebuildEvent::TilesSpawned);
            let (s4, c4) = step_spec(s3, RebuildEvent::TilesDeleted(DeletedTilesEvent));
            let (s5, c5) = step_spec(s4, RebuildEvent::TilesSpawned);
            &&& c1 == RebuildCommand::Nothing
            &&& c2 == RebuildCommand::Nothing
            &&& c3 == RebuildCommand::Delete(DeleteTilesEvent)
            &&& c4 == (RebuildCommand::Spawn { event: SpawnTilesEvent, w: w2, h: h2 })
            &&& c5 == RebuildCommand::Nothing
            &&& s5.phase == Phase::Idle
        }),
{
}

impl Rebuild {
    pub open spec fn new_spec(w: u32, h: u32) -> Rebuild {
        Rebuild { phase: Phase::Idle, viewport_w: w, viewport_h: h, queued: false }
    }

    /// An idle orchestrator for a `w` by `h` viewport.
    pub fn new(w: u32, h: u32) -> (r: Rebuild)
        ensures
            r == Rebuild::new_spec(w, h),
    {
        Rebuild { phase: Phase::Idle, viewport_w: w, viewport_h: h, queued: false }
    }

    /// Advance by one event. A spawn is only ever issued once a teardown has
    /// completed, a teardown never while one is outstanding, and a spawn
    /// always uses the newest requested viewport.
    pub fn step(&mut self, ev: RebuildEvent) -> (r: RebuildCommand)
        ensures
            (*final(self), r) == step_spec(*old(self), ev),
            r is Spawn ==> old(self).phase == Phase::TearingDown && ev is TilesDeleted,
            r is Spawn ==> r->w == final(self).viewport_w && r->h == final(self).viewport_h,
            r is Delete ==> old(self).phase == Phase::Idle || (old(self).phase == Phase::Rebuilding
                && ev is TilesSpawned),
            ev matches RebuildEvent::Resize { w, h } ==> final(self).viewport_w == w
                && final(self).viewport_h == h,
    {
        let (w, h) = match ev {
            RebuildEvent::Resize { w, h } => (w, h),
            _ => (self.viewport_w, self.viewport_h),
        };
        let request = match ev {
            RebuildEvent::Resize { .. } => true,
            RebuildEvent::Replaced => true,
            _ => false,
        };
        match self.phase {
            Phase::Idle => {
                if request {
                    self.viewport_w = w;
                    self.viewport_h = h;
                    self.phase = Phase::TearingDown;
                    self.queued = false;
                    RebuildCommand::Delete(DeleteTilesEvent)
                } else {
                    RebuildCommand::Nothing
                }
            },
            Phase::TearingDown => {
                self.viewport_w = w;
                self.viewport_h = h;
                if let RebuildEvent::TilesDeleted(_) = ev {
                    self.phase = Phase::Rebuilding;
                    self.queued = false;
                    RebuildCommand::Spawn { event: SpawnTilesEvent, w, h }
                } else {
                    RebuildCommand::Nothing
                }
            },
            Phase::Rebuilding => {
                self.viewport_w = w;
                self.viewport_h = h;
                if request {
                    self.queued = true;
                    RebuildCommand::Nothing
                } else if let RebuildEvent::TilesSpawned = ev {
                    if self.queued {
                        self.phase = Phase::TearingDown;
                        self.queued = false;
                        RebuildCommand::Delete(DeleteTilesEvent)
                    } else {
                        self.phase = Phase::Idle;
                        RebuildCommand::Nothing
                    }
                } else {
                    RebuildCommand::Nothing
                }
            },
        }
    }
}

} // verus!
