//! The host readback handshake: the staging buffer is unmapped, a map is
//! requested, the device reports the map done or failed, and the mapped
//! bytes are consumed once.
use vstd::prelude::*;
use crate::codec::le_words;
use crate::error::ComputeError;

verus! {

/// Where the staging buffer stands in the readback handshake.
#[derive(Debug, Clone, Copy, PartialEq, Eq, Structural)]
pub enum MapPhase {
    Unmapped,
    MapRequested,
    Mapped,
    Consumed,
    Failed,
}

/// What moves the handshake on.
#[derive(Debug, Clone, Copy, PartialEq, Eq, Structural)]
pub enum MapEvent {
    /// The host asks for the staging buffer to be mapped for reading.
    Request,
    /// The device signals that the map finished, successfully or not.
    Completed { ok: bool },
    /// The host reads the mapped bytes.
    Read,
}

/// The phase after `e` in phase `p`, or `None` where `e` cannot happen.
pub open spec fn next_phase(p: MapPhase, e: MapEvent) -> Option<MapPhase> {
    match (p, e) {
        (MapPhase::Unmapped, MapEvent::Request) => Some(MapPhase::MapRequested),
        (MapPhase::MapRequested, MapEvent::Completed { ok }) => Some(
            if ok {
                MapPhase::Mapped
            } else {
                MapPhase::Failed
            },
        ),
        (MapPhase::Mapped, MapEvent::Read) => Some(MapPhase::Consumed),
        _ => None,
    }
}

/// The phase after the events `es`, one after the other, from `p`.
pub open spec fn run_events(p: MapPhase, es: Seq<MapEvent>) -> Option<MapPhase>
    decreases es.len(),
{
    if es.len() == 0 {
        Some(p)
    } else {
        match next_phase(p, es[0]) {
            Some(q) => run_events(q, es.drop_first()),
            None => None,
        }
    }
}

/// Takes the handshake one event on.
pub fn step(p: MapPhase, e: MapEvent) -> (r: Option<MapPhase>)
    ensures
        r == next_phase(p, e),
{
    match (p, e) {
        (MapPhase::Unmapped, MapEvent::Request) => Some(MapPhase::MapRequested),
        (MapPhase::MapRequested, MapEvent::Completed { ok }) => {
            if ok {
                Some(MapPhase::Mapped)
            } else {
                Some(MapPhase::Failed)
            }
        },
        (MapPhase::Mapped, MapEvent::Read) => Some(MapPhase::Consumed),
        _ => None,
    }
}

proof fn lemma_no_exit(p: MapPhase, es: Seq<MapEvent>)
    requires
        p == MapPhase::Consumed || p == MapPhase::Failed,
    ensures
        run_events(p, es) == (if es.len() == 0 {
            Some(p)
        } else {
            None::<MapPhase>
        }),
{
}

/// The mapped bytes are consumed only along one path: a single map
/// request, its successful completion, then a single read.
pub proof fn lemma_single_cycle(es: Seq<MapEvent>)
    requires
        run_events(MapPhase::Unmapped, es) == Some(MapPhase::Consumed),
    ensures
        es == seq![MapEvent::Request, MapEvent::Completed { ok: true }, MapEvent::Read],
{
    let e1 = es.drop_first();
    assert(es.len() > 0);
    assert(es[0] == MapEvent::Request);
    assert(run_events(MapPhase::MapRequested, e1) == Some(MapPhase::Consumed));
    assert(e1.len() > 0);
    assert(e1[0] is Completed);
    let ok = e1[0]->ok;
    let e2 = e1.drop_first();
    if ok {
        assert(run_events(MapPhase::Mapped, e2) == Some(MapPhase::Consumed));
    }
    if !ok {
        lemma_no_exit(MapPhase::Failed, e2);
    }
    assert(ok);
    assert(e2.len() > 0);
    assert(e2[0] == MapEvent::Read);
    let e3 = e2.drop_first();
    assert(run_events(MapPhase::Consumed, e3) == Some(MapPhase::Consumed));
    lemma_no_exit(MapPhase::Consumed, e3);
    assert(e3.len() == 0);
    assert(es =~= seq![MapEvent::Request, MapEvent::Completed { ok: true }, MapEvent::Read]);
}

/// The readback of one dispatch's staging buffer.
pub struct Readback {
    phase: MapPhase,
}

impl View for Readback {
    type V = MapPhase;

    closed spec fn view(&self) -> MapPhase {
        self.phase
    }
}

impl Readback {
    /// A staging buffer that has not been mapped yet.
    pub fn new() -> (r: Readback)
        ensures
            r@ == MapPhase::Unmapped,
    {
        Readback { phase: MapPhase::Unmapped }
    }

    /// The current phase.
    pub fn phase(&self) -> (r: MapPhase)
        ensures
            r == self@,
    {
        self.phase
    }

    /// Records that a map for reading was requested.
    pub fn request_map(&mut self)
        requires
            old(self)@ == MapPhase::Unmapped,
        ensures
            next_phase(old(self)@, MapEvent::Request) == Some(final(self)@),
            final(self)@ == MapPhase::MapRequested,
    {
        self.phase = MapPhase::MapRequested;
    }

    /// Records the device's completion signal for the requested map.
    pub fn map_completed(&mut self, ok: bool)
        requires
            old(self)@ == MapPhase::MapRequested,
        ensures
            next_phase(old(self)@, MapEvent::Completed { ok }) == Some(final(self)@),
            final(self)@ == (if ok {
                MapPhase::Mapped
            } else {
                MapPhase::Failed
            }),
    {
        self.phase = if ok {
            MapPhase::Mapped
        } else {
            MapPhase::Failed
        };
    }

    /// Consumes the mapped range: its words in buffer order after a
    /// successful map, `ReadbackFailed` after a failed one.
    pub fn consume(&mut self, mapped: &[u8]) -> (r: Result<Vec<u32>, ComputeError>)
        requires
            old(self)@ == MapPhase::Mapped || old(self)@ == MapPhase::Failed,
        ensures
            old(self)@ == MapPhase::Mapped ==> {
                &&& next_phase(old(self)@, MapEvent::Read) == Some(final(self)@)
                &&& final(self)@ == MapPhase::Consumed
                &&& r matches Ok(w) && w@ == le_words(mapped@)
            },
            old(self)@ == MapPhase::Failed ==> {
                &&& final(self)@ == MapPhase::Failed
                &&& r == Err::<Vec<u32>, ComputeError>(ComputeError::ReadbackFailed)
            },
    {
        match self.phase {
            MapPhase::Mapped => {
                self.phase = MapPhase::Consumed;
                Ok(crate::codec::decode_words(mapped))
            },
            _ => Err(ComputeError::ReadbackFailed),
        }
    }
}

} // verus!
