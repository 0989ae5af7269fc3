//! The per-player combat record: discrete action intent, the relayed attack
//! animation counters, and the authoritative entity itself.

use vstd::prelude::*;

use crate::animate::Animator;
use crate::geometry::{Point2, Rect};
use crate::status::MatchStatus;

verus! {

/// Health every entity starts a round with.
pub const MAX_HP: i8 = 5;

/// Health removed by one landed attack.
pub const ATTACK_DAMAGE: i8 = 1;

/// The direction an entity faces.
#[derive(Clone, Copy, Debug, PartialEq, Eq, Structural)]
pub enum Action {
    Left,
    Right,
}

/// Discrete combat intent reported by a client. `damage_check` is a one-shot
/// flag: the client sets it when an attack animation completes, and the
/// server consumes it exactly once per resolution pass.
#[derive(Clone, Copy, Debug, PartialEq, Eq, Structural)]
pub struct EntityActions {
    pub facing: Action,
    pub moving_left: bool,
    pub moving_right: bool,
    pub can_attack: bool,
    pub attacking: bool,
    pub damage_check: bool,
    pub blocking: bool,
}

impl EntityActions {
    pub fn new(facing: Action) -> (a: EntityActions)
        ensures
            a == (EntityActions {
                facing,
                moving_left: false,
                moving_right: false,
                can_attack: true,
                attacking: false,
                damage_check: false,
                blocking: false,
            }),
    {
        EntityActions {
            facing,
            moving_left: false,
            moving_right: false,
            can_attack: true,
            attacking: false,
            damage_check: false,
            blocking: false,
        }
    }
}

/// Attack animation counters as they travel over the wire. The server only
/// relays them; the timing itself is client-driven.
#[derive(Clone, Copy, Debug, PartialEq, Eq, Structural)]
pub struct ServerAnimator {
    pub current_frame: u64,
    pub current_repeat: i8,
}

impl ServerAnimator {
    pub fn new() -> (a: ServerAnimator)
        ensures
            a == (ServerAnimator { current_frame: 0, current_repeat: 0 }),
    {
        ServerAnimator { current_frame: 0, current_repeat: 0 }
    }

    pub fn from_animator(animator: &Animator) -> (a: ServerAnimator)
        ensures
            a.current_frame == animator.current_frame,
            a.current_repeat == animator.current_repeat,
    {
        ServerAnimator {
            current_frame: animator.current_frame() as u64,
            current_repeat: animator.current_repeat(),
        }
    }

    pub fn current_frame(&self) -> (r: usize)
        requires
            self.current_frame <= usize::MAX,
        ensures
            r == self.current_frame,
    {
        self.current_frame as usize
    }

    pub fn current_repeat(&self) -> (r: i8)
        ensures
            r == self.current_repeat,
    {
        self.current_repeat
    }
}

/// `hp` after a hit for `dmg` damage: decremented and floored at zero; an
/// entity that is already at (or below) zero health takes no further damage.
pub open spec fn spec_damaged_hp(hp: i8, dmg: i8) -> i8 {
    if hp > 0 {
        if hp > dmg {
            (hp - dmg) as i8
        } else {
            0
        }
    } else {
        hp
    }
}

/// One player's authoritative record. `hp` is owned by the server: incoming
/// snapshots never overwrite it.
#[derive(Clone, Copy, Debug, PartialEq, Eq, Structural)]
pub struct ServerEntity {
    pub id: usize,
    pub hp: i8,
    pub entity_actions: EntityActions,
    pub attack_animator: ServerAnimator,
    pub pos: Point2,
    pub vel: Point2,
    pub bound: Rect,
    pub attack_bound: Rect,
    pub redo_status: MatchStatus,
    pub reset: bool,
}

/// The record a fresh match seeds each slot with: full health, neutral pose.
pub open spec fn spec_default_entity() -> ServerEntity {
    ServerEntity {
        id: 0,
        hp: MAX_HP,
        entity_actions: EntityActions {
            facing: Action::Right,
            moving_left: false,
            moving_right: false,
            can_attack: true,
            attacking: false,
            damage_check: false,
            blocking: false,
        },
        attack_animator: ServerAnimator { current_frame: 0, current_repeat: 0 },
        pos: Point2 { x: 0, y: 0 },
        vel: Point2 { x: 0, y: 0 },
        bound: Rect { top_left: Point2 { x: 0, y: 0 }, bottom_right: Point2 { x: 0, y: 0 } },
        attack_bound: Rect { top_left: Point2 { x: 0, y: 0 }, bottom_right: Point2 { x: 0, y: 0 } },
        redo_status: MatchStatus::InProgress,
        reset: false,
    }
}

impl ServerEntity {
    pub fn new() -> (e: ServerEntity)
        ensures
            e == spec_default_entity(),
    {
        ServerEntity {
            id: 0,
            hp: MAX_HP,
            entity_actions: EntityActions::new(Action::Right),
            attack_animator: ServerAnimator::new(),
            pos: Point2::new(0, 0),
            vel: Point2::new(0, 0),
            bound: Rect::new(Point2::new(0, 0), Point2::new(0, 0)),
            attack_bound: Rect::new(Point2::new(0, 0), Point2::new(0, 0)),
            redo_status: MatchStatus::InProgress,
            reset: false,
        }
    }

    /// Removes `dmg` health, flooring at zero; health never goes negative.
    pub fn take_damage(&mut self, dmg: i8)
        requires
            0 <= dmg,
        ensures
            *final(self) == (ServerEntity { hp: spec_damaged_hp(old(self).hp, dmg), ..*old(self) }),
    {
        if self.hp > 0 {
            if self.hp > dmg {
                self.hp = self.hp - dmg;
            } else {
                self.hp = 0;
            }
        }
    }

    pub fn get_bound(&self) -> (r: Rect)
        ensures
            r == self.bound,
    {
        self.bound
    }

    pub fn get_attack_bound(&self) -> (r: Rect)
        ensures
            r == self.attack_bound,
    {
        self.attack_bound
    }

    pub fn get_entity_actions_as_ref(&mut self) -> (r: &EntityActions)
        ensures
            *r == old(self).entity_actions,
            *final(self) == *old(self),
    {
        &self.entity_actions
    }

    pub fn get_entity_actions_as_mut_ref(&mut self) -> (r: &mut EntityActions)
        ensures
            *r == old(self).entity_actions,
            *final(self) == (ServerEntity { entity_actions: *final(r), ..*old(self) }),
    {
        &mut self.entity_actions
    }

    pub fn get_redo_status_as_ref(&self) -> (r: &MatchStatus)
        ensures
            *r == self.redo_status,
    {
        &self.redo_status
    }

    pub fn get_redo_status(&self) -> (r: MatchStatus)
        ensures
            r == self.redo_status,
    {
        self.redo_status
    }
}

} // verus!
