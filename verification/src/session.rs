//! The connection-facing state machines: slot admission for at most two
//! players, and the per-connection session protocol
//! (handshake, active resolution passes, closed).

use vstd::prelude::*;

use crate::entity::ServerEntity;
use crate::game_match::{
    spec_entities_closed_out, spec_entities_resolved, ServerGameMatch, MATCH_LENGTH_TICKS,
};
use crate::status::MatchStatus;

verus! {

/// Size in bytes of the fixed read buffer shared by both ends of the wire
/// protocol; a serialized match snapshot must fit in it.
pub const BUFFER_SIZE: usize = 1024;

/// The decimal ASCII digits of `n`, most significant first, with no sign,
/// padding or terminator.
pub open spec fn spec_decimal_digits(n: nat) -> Seq<u8>
    decreases n,
{
    if n < 10 {
        seq![(48 + n) as u8]
    } else {
        spec_decimal_digits(n / 10).push((48 + n % 10) as u8)
    }
}

/// Writes `n` as its decimal ASCII digits.
pub fn decimal_digits(n: usize) -> (digits: Vec<u8>)
    ensures
        digits@ == spec_decimal_digits(n as nat),
    decreases n,
{
    if n < 10 {
        let mut v: Vec<u8> = Vec::new();
        v.push(48 + (n as u8));
        v
    } else {
        let mut v = decimal_digits(n / 10);
        v.push(48 + ((n % 10) as u8));
        v
    }
}

/// Tracks which of the two player slots have an accepted connection. Slot
/// assignment is the only identity mechanism: 0 is handed out before 1, and
/// a slot is reused only after its session releases it.
pub struct Admission {
    pub slot0_taken: bool,
    pub slot1_taken: bool,
}

impl Admission {
    pub fn new() -> (a: Admission)
        ensures
            !a.slot0_taken,
            !a.slot1_taken,
    {
        Admission { slot0_taken: false, slot1_taken: false }
    }

    /// Accepts a new connection: hands out the lowest free slot, or `None`
    /// when both slots are taken — the caller must then close the socket
    /// without sending any data.
    pub fn assign_slot(&mut self) -> (slot: Option<usize>)
        ensures
            !old(self).slot0_taken ==> slot == Some(0usize) && final(self).slot0_taken && final(self).slot1_taken == old(self).slot1_taken,
            old(self).slot0_taken && !old(self).slot1_taken ==> slot == Some(1usize) && final(self).slot1_taken && final(self).slot0_taken,
            old(self).slot0_taken && old(self).slot1_taken ==> slot is None && *final(self)
                == *old(self),
    {
        if !self.slot0_taken {
            self.slot0_taken = true;
            Some(0)
        } else if !self.slot1_taken {
            self.slot1_taken = true;
            Some(1)
        } else {
            None
        }
    }

    /// Releases a slot when its session exits, making it available to a
    /// future connection.
    pub fn release(&mut self, slot: usize)
        requires
            slot < 2,
        ensures
            slot == 0 ==> !final(self).slot0_taken && final(self).slot1_taken == old(self).slot1_taken,
            slot == 1 ==> !final(self).slot1_taken && final(self).slot0_taken == old(self).slot0_taken,
    {
        if slot == 0 {
            self.slot0_taken = false;
        } else {
            self.slot1_taken = false;
        }
    }

    /// How many sessions currently hold a slot.
    pub fn active_count(&self) -> (n: usize)
        ensures
            n == (if self.slot0_taken {
                1int
            } else {
                0int
            }) + (if self.slot1_taken {
                1int
            } else {
                0int
            }),
    {
        let mut n: usize = 0;
        if self.slot0_taken {
            n = n + 1;
        }
        if self.slot1_taken {
            n = n + 1;
        }
        n
    }
}

/// Protocol position of one connection session.
#[derive(Clone, Copy, Debug, PartialEq, Eq, Structural)]
pub enum SessionState {
    Handshake,
    Active,
    Closed,
}

/// One accepted connection's session, bound to its player slot. It owns the
/// read–update–resolve–write cycle for that slot; the socket reads and
/// writes themselves happen at the caller's edge.
#[derive(Clone, Copy, Debug, PartialEq, Eq, Structural)]
pub struct Session {
    pub slot: usize,
    pub state: SessionState,
}

impl Session {
    pub fn new(slot: usize) -> (s: Session)
        requires
            slot < 2,
        ensures
            s.slot == slot,
            s.state is Handshake,
    {
        Session { slot, state: SessionState::Handshake }
    }

    /// The one message sent outside the main loop: the assigned slot id as
    /// decimal ASCII, after which the session is active.
    pub fn handshake_message(&mut self) -> (msg: Vec<u8>)
        requires
            old(self).state is Handshake,
        ensures
            final(self).slot == old(self).slot,
            final(self).state is Active,
            msg@ == spec_decimal_digits(old(self).slot as nat),
    {
        self.state = SessionState::Active;
        decimal_digits(self.slot)
    }

    /// One full resolution pass under a single critical section: the session
    /// assigned to slot 1 first writes the remaining time derived from
    /// `elapsed_ticks` into the shared clock (the other session never
    /// advances time), then the incoming snapshot is merged and hits are
    /// resolved as `update_entity` describes. The caller serializes the
    /// resulting shared state as the response before leaving the critical
    /// section.
    pub fn process(&mut self, shared: &mut ServerGameMatch, incoming: ServerEntity, elapsed_ticks: u16)
        requires
            old(self).state is Active,
            old(self).slot < 2,
            old(shared).wf(),
            elapsed_ticks <= MATCH_LENGTH_TICKS,
        ensures
            *final(self) == *old(self),
            final(shared).wf(),
            final(shared).clock.current == (if old(self).slot == 1 {
                (MATCH_LENGTH_TICKS - elapsed_ticks) as u16
            } else {
                old(shared).clock.current
            }),
            ({
                let clock_after: u16 = if old(self).slot == 1 {
                    (MATCH_LENGTH_TICKS - elapsed_ticks) as u16
                } else {
                    old(shared).clock.current
                };
                let live = old(shared).server_entities@[0].hp > 0 && old(shared).server_entities@[1].hp > 0 && clock_after > 0;
                if live {
                    final(shared).server_entities@ == spec_entities_resolved(
                        old(shared).server_entities@,
                        old(self).slot as int,
                        incoming,
                    ) && final(shared).match_status == old(shared).match_status
                } else {
                    final(shared).server_entities@ == spec_entities_closed_out(
                        old(shared).server_entities@,
                        old(self).slot as int,
                        incoming,
                        old(shared).match_status,
                    ) && final(shared).match_status == (if old(shared).match_status is InProgress {
                        MatchStatus::Over(old(shared).spec_winner())
                    } else {
                        old(shared).match_status
                    })
                }
            }),
    {
        if self.slot == 1 {
            shared.update_clock(elapsed_ticks);
        }
        shared.update_entity(self.slot, incoming);
    }

    /// Transport or protocol failure: the session is closed and never
    /// processes again; the shared match state is untouched.
    pub fn close(&mut self)
        ensures
            final(self).slot == old(self).slot,
            final(self).state is Closed,
    {
        self.state = SessionState::Closed;
    }
}

} // verus!
