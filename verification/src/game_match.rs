//! The shared authoritative match state: two entities, a countdown clock and
//! a match status, mutated through one resolution pass per client message.

use vstd::prelude::*;

use crate::entity::{spec_damaged_hp, EntityActions, ServerEntity, ATTACK_DAMAGE, MAX_HP};
use crate::geometry::spec_overlaps;
use crate::status::{MatchStatus, RematchStatus};

verus! {

/// Length of a round in clock ticks; the clock counts down from here.
pub const MATCH_LENGTH_TICKS: u16 = 60;

/// Remaining match time, in ticks out of a fixed round of
/// `MATCH_LENGTH_TICKS`.
#[derive(Clone, Copy, Debug, PartialEq, Eq, Structural)]
pub struct Clock {
    pub current: u16,
}

impl Clock {
    pub fn new() -> (c: Clock)
        ensures
            c == (Clock { current: 0 }),
    {
        Clock { current: 0 }
    }
}

/// The addressed slot's record after a merge: every field is taken from the
/// incoming snapshot except `hp`, which stays authoritative.
pub open spec fn spec_merge(auth: ServerEntity, incoming: ServerEntity) -> ServerEntity {
    ServerEntity { hp: auth.hp, ..incoming }
}

/// An attack lands iff the attacker's one-shot `damage_check` flag is set,
/// neither side is blocking, and the attacker's attack bound overlaps the
/// defender's body bound.
pub open spec fn spec_hit_lands(attacker: ServerEntity, defender: ServerEntity) -> bool {
    &&& attacker.entity_actions.damage_check
    &&& !attacker.entity_actions.blocking
    &&& !defender.entity_actions.blocking
    &&& spec_overlaps(attacker.attack_bound, defender.bound)
}

/// The entity with its one-shot `damage_check` flag consumed.
pub open spec fn spec_clear_damage_check(e: ServerEntity) -> ServerEntity {
    ServerEntity {
        entity_actions: EntityActions { damage_check: false, ..e.entity_actions },
        ..e
    }
}

/// The defender after a resolution pass by `attacker`: damaged if the attack
/// lands, untouched otherwise.
pub open spec fn spec_resolved_defender(attacker: ServerEntity, defender: ServerEntity) -> ServerEntity {
    if spec_hit_lands(attacker, defender) {
        ServerEntity { hp: spec_damaged_hp(defender.hp, ATTACK_DAMAGE), ..defender }
    } else {
        defender
    }
}

/// Both entities after an in-progress resolution pass for slot `id`
/// reporting `player`: slot `id` is merged (keeping its authoritative hp)
/// and its `damage_check` consumed, and the other slot takes damage iff the
/// merged attacker's attack lands on it.
pub open spec fn spec_entities_resolved(es: Seq<ServerEntity>, id: int, player: ServerEntity) -> Seq<ServerEntity> {
    let other = 1 - id;
    let attacker = spec_merge(es[id], player);
    es.update(id, spec_clear_damage_check(attacker)).update(
        other,
        spec_resolved_defender(attacker, es[other]),
    )
}

/// The slot a finished match is awarded to: the one with strictly more
/// health, and slot 0 on a tie.
pub open spec fn spec_winner_of(es: Seq<ServerEntity>) -> usize {
    if es[0].hp >= es[1].hp {
        0
    } else {
        1
    }
}

/// Both entities after a pass that runs once the match can no longer
/// progress: only rematch votes change. Slot `id`'s vote is copied from the
/// incoming snapshot, and the moment the match ends the winner's vote is
/// seeded to `Rematch(Maybe)` — whichever session's pass makes the
/// transition.
pub open spec fn spec_entities_closed_out(
    es: Seq<ServerEntity>,
    id: int,
    player: ServerEntity,
    status: MatchStatus,
) -> Seq<ServerEntity> {
    let voted = es.update(id, (ServerEntity { redo_status: player.redo_status, ..es[id] }));
    if status is InProgress {
        let winner = spec_winner_of(es) as int;
        voted.update(
            winner,
            (ServerEntity {
                redo_status: MatchStatus::Rematch(RematchStatus::Maybe),
                ..voted[winner]
            }),
        )
    } else {
        voted
    }
}

/// An in-progress resolution pass never takes health from the incoming
/// snapshot: the resolved entities come out the same whatever hp the client
/// claims, and the addressed slot keeps its authoritative health — it can
/// change only through the other slot's hit detection.
pub proof fn lemma_update_ignores_incoming_hp(
    es: Seq<ServerEntity>,
    id: int,
    player: ServerEntity,
    claimed_hp: i8,
)
    requires
        es.len() == 2,
        0 <= id < 2,
    ensures
        spec_entities_resolved(es, id, (ServerEntity { hp: claimed_hp, ..player }))
            == spec_entities_resolved(es, id, player),
        spec_entities_resolved(es, id, player)[id].hp == es[id].hp,
{
}

/// After an in-progress resolution pass, the addressed slot's one-shot
/// `damage_check` flag is false, whether or not a hit landed.
pub proof fn lemma_damage_check_consumed(es: Seq<ServerEntity>, id: int, player: ServerEntity)
    requires
        es.len() == 2,
        0 <= id < 2,
    ensures
        !spec_entities_resolved(es, id, player)[id].entity_actions.damage_check,
{
}

/// The root aggregate: the countdown clock, the two per-slot records, and
/// the match status.
#[derive(Debug)]
pub struct ServerGameMatch {
    pub clock: Clock,
    pub server_entities: Vec<ServerEntity>,
    pub match_status: MatchStatus,
}

impl ServerGameMatch {
    /// A match always holds exactly two entities, one per player slot.
    pub open spec fn wf(self) -> bool {
        self.server_entities@.len() == 2
    }

    /// The match can still progress: both players alive and time remaining.
    pub open spec fn spec_in_progress(self) -> bool {
        &&& self.server_entities@[0].hp > 0
        &&& self.server_entities@[1].hp > 0
        &&& self.clock.current > 0
    }

    /// The slot a finished match is awarded to: the one with strictly more
    /// health, and slot 0 on a tie.
    pub open spec fn spec_winner(self) -> usize {
        spec_winner_of(self.server_entities@)
    }

    pub fn new() -> (m: ServerGameMatch)
        ensures
            m.wf(),
            m.server_entities@[0] == crate::entity::spec_default_entity(),
            m.server_entities@[1] == crate::entity::spec_default_entity(),
            m.clock == (Clock { current: 0 }),
            m.match_status is InProgress,
    {
        let ent = ServerEntity::new();
        let ent1 = ServerEntity::new();
        let mut entity_vector: Vec<ServerEntity> = Vec::new();
        entity_vector.push(ent);
        entity_vector.push(ent1);

        ServerGameMatch {
            clock: Clock::new(),
            server_entities: entity_vector,
            match_status: MatchStatus::InProgress,
        }
    }

    /// One resolution pass for slot `id` reporting the snapshot `player`.
    ///
    /// While both players are alive and the clock has ticks left, the
    /// incoming snapshot is merged into slot `id` — its authoritative hp is
    /// preserved, never taken from the client — and hit detection runs
    /// between slot `id` and the other slot. Otherwise the pass only copies
    /// the incoming rematch vote into slot `id`, and on the first pass after
    /// the match can no longer progress it records the winner and seeds the
    /// winner's vote with `Rematch(Maybe)` — whichever session's pass it is.
    pub fn update_entity(&mut self, id: usize, player: ServerEntity)
        requires
            old(self).wf(),
            id < 2,
        ensures
            final(self).wf(),
            final(self).clock == old(self).clock,
            old(self).spec_in_progress() ==> {
                &&& final(self).server_entities@ == spec_entities_resolved(
                    old(self).server_entities@,
                    id as int,
                    player,
                )
                &&& final(self).match_status == old(self).match_status
            },
            !old(self).spec_in_progress() ==> {
                &&& final(self).server_entities@ == spec_entities_closed_out(
                    old(self).server_entities@,
                    id as int,
                    player,
                    old(self).match_status,
                )
                &&& final(self).match_status == (if old(self).match_status is InProgress {
                    MatchStatus::Over(old(self).spec_winner())
                } else {
                    old(self).match_status
                })
            },
    {
        let other: usize = if id == 0 {
            1
        } else {
            0
        };
        if self.server_entities[0].hp > 0 && self.server_entities[1].hp > 0
            && self.clock.current > 0 {
            // merge the snapshot into the addressed slot, but keep the
            // authoritative hp
            let hp: i8 = self.server_entities[id].hp;
            self.server_entities[id] = player;
            self.server_entities[id].hp = hp;

            // check if there is a collision
            self.attack_bound_check(id, other);

            proof {
                assert(self.server_entities@ =~= spec_entities_resolved(
                    old(self).server_entities@,
                    id as int,
                    player,
                ));
            }
        } else {
            // the match is over: only the rematch vote carries over
            self.server_entities[id].redo_status = player.get_redo_status();

            match self.match_status {
                MatchStatus::InProgress => {
                    // the match has just ended: record who won the fight
                    let winner: usize = self.get_player_id_most_hp();
                    self.match_status = MatchStatus::Over(winner);

                    // and open the rematch negotiation on the winner's side
                    self.server_entities[winner].redo_status = MatchStatus::Rematch(
                        RematchStatus::Maybe,
                    );
                },
                _ => (),
            }

            proof {
                assert(self.server_entities@ =~= spec_entities_closed_out(
                    old(self).server_entities@,
                    id as int,
                    player,
                    old(self).match_status,
                ));
            }
        }
    }

    /// The slot holding the most health; slot 0 wins a tie.
    fn get_player_id_most_hp(&self) -> (winner: usize)
        requires
            self.wf(),
        ensures
            winner == self.spec_winner(),
    {
        if self.server_entities[0].hp >= self.server_entities[1].hp {
            return 0;
        }
        1
    }

    /// Stores the remaining time derived from `current_time` elapsed ticks.
    pub fn update_clock(&mut self, current_time: u16)
        requires
            current_time <= MATCH_LENGTH_TICKS,
        ensures
            final(self).clock.current == MATCH_LENGTH_TICKS - current_time,
            final(self).server_entities == old(self).server_entities,
            final(self).match_status == old(self).match_status,
    {
        self.clock.current = MATCH_LENGTH_TICKS - current_time;
    }

    /// Hit detection between the attacker slot and the defender slot: on a
    /// landed attack the defender loses `ATTACK_DAMAGE` health, and the
    /// attacker's one-shot `damage_check` flag is consumed either way.
    fn attack_bound_check(&mut self, first_entity_id: usize, second_entity_id: usize)
        requires
            old(self).wf(),
            first_entity_id < 2,
            second_entity_id < 2,
            first_entity_id != second_entity_id,
        ensures
            final(self).wf(),
            final(self).server_entities@ == old(self).server_entities@.update(
                second_entity_id as int,
                spec_resolved_defender(
                    old(self).server_entities@[first_entity_id as int],
                    old(self).server_entities@[second_entity_id as int],
                ),
            ).update(
                first_entity_id as int,
                spec_clear_damage_check(old(self).server_entities@[first_entity_id as int]),
            ),
            final(self).clock == old(self).clock,
            final(self).match_status == old(self).match_status,
    {
        let attacker: ServerEntity = self.server_entities[first_entity_id];
        let defender: ServerEntity = self.server_entities[second_entity_id];
        if attacker.entity_actions.damage_check && !attacker.entity_actions.blocking
            && !defender.entity_actions.blocking {
            if attacker.get_attack_bound().check_bounds(&defender.get_bound()) {
                self.server_entities[second_entity_id].take_damage(ATTACK_DAMAGE);
            }
        }
        self.server_entities[first_entity_id].entity_actions.damage_check = false;

        proof {
            assert(self.server_entities@ =~= old(self).server_entities@.update(
                second_entity_id as int,
                spec_resolved_defender(
                    old(self).server_entities@[first_entity_id as int],
                    old(self).server_entities@[second_entity_id as int],
                ),
            ).update(
                first_entity_id as int,
                spec_clear_damage_check(old(self).server_entities@[first_entity_id as int]),
            ));
        }
    }

    /// Starts the next round: both entities back to full health with their
    /// reset flag raised, and the match running again.
    pub fn restart_match(&mut self)
        requires
            old(self).wf(),
        ensures
            final(self).wf(),
            final(self).server_entities@[0] == (ServerEntity {
                hp: MAX_HP,
                reset: true,
                ..old(self).server_entities@[0]
            }),
            final(self).server_entities@[1] == (ServerEntity {
                hp: MAX_HP,
                reset: true,
                ..old(self).server_entities@[1]
            }),
            final(self).match_status is InProgress,
            final(self).clock == old(self).clock,
    {
        self.server_entities[0].hp = MAX_HP;
        self.server_entities[0].reset = true;
        self.server_entities[1].hp = MAX_HP;
        self.server_entities[1].reset = true;
        self.match_status = MatchStatus::InProgress;
    }
}

/// A match awarded as over goes to the slot with strictly greater health,
/// and to slot 0 on a tie: the tie-break is deterministic.
pub proof fn lemma_winner_has_most_hp(m: ServerGameMatch)
    requires
        m.wf(),
    ensures
        m.server_entities@[0].hp > m.server_entities@[1].hp ==> m.spec_winner() == 0,
        m.server_entities@[1].hp > m.server_entities@[0].hp ==> m.spec_winner() == 1,
        m.server_entities@[0].hp == m.server_entities@[1].hp ==> m.spec_winner() == 0,
{
}

} // verus!
