//! Animation-graph nodes: which clip of the shared animation set plays for
//! each locomotion state and each weapon action.

use vstd::prelude::*;
use crate::controller::PlayerAnimationController;
use crate::locomotion::MovementState;
use crate::upper_body::UpperBodyAction;
use crate::weapon::WeaponType;

verus! {

/// Clip positions in the shared animation set: five locomotion clips,
/// three clips for each firearm, two for the knife.
pub const LOWER_IDLE: usize = 0;

pub const LOWER_WALK: usize = 1;

pub const LOWER_RUN: usize = 2;

pub const LOWER_CROUCH_IDLE: usize = 3;

pub const LOWER_CROUCH_WALK: usize = 4;

pub const RIFLE_IDLE: usize = 5;

pub const RIFLE_RELOAD: usize = 6;

pub const RIFLE_FIRE: usize = 7;

pub const PISTOL_IDLE: usize = 8;

pub const PISTOL_RELOAD: usize = 9;

pub const PISTOL_FIRE: usize = 10;

pub const SNIPER_IDLE: usize = 11;

pub const SNIPER_RELOAD: usize = 12;

pub const SNIPER_FIRE: usize = 13;

pub const KNIFE_IDLE: usize = 14;

pub const KNIFE_ATTACK: usize = 15;

/// Number of clips the shared animation set must hold.
pub const TOTAL_ANIMATION_COUNT: usize = 16;

/// Handle of one node of the animation graph.
#[derive(Debug, Clone, Copy, PartialEq, Eq, Structural, Hash)]
pub struct AnimationNode {
    pub index: usize,
}

/// Graph nodes of the locomotion clips.
#[derive(Debug, Clone, Copy, PartialEq, Eq)]
pub struct LowerBodyNodes {
    pub idle: AnimationNode,
    pub walk: AnimationNode,
    pub run: AnimationNode,
    pub crouch_idle: AnimationNode,
    pub crouch_walk: AnimationNode,
}

/// Graph nodes of one weapon's upper-body clips.
#[derive(Debug, Clone, Copy, PartialEq, Eq)]
pub struct WeaponAnimNodes {
    pub idle: AnimationNode,
    pub reload: AnimationNode,
    pub fire: AnimationNode,
}

/// Upper-body nodes of every weapon.
#[derive(Debug, Clone, Copy, PartialEq, Eq)]
pub struct UpperBodyNodes {
    pub rifle: WeaponAnimNodes,
    pub pistol: WeaponAnimNodes,
    pub sniper: WeaponAnimNodes,
    pub knife: WeaponAnimNodes,
}

/// The animation set every character shares, whatever its skin.
#[derive(Debug, Clone, Copy, PartialEq, Eq)]
pub struct SharedAnimations {
    pub lower_body: LowerBodyNodes,
    pub upper_body: UpperBodyNodes,
}

impl UpperBodyNodes {
    /// The nodes of `weapon`.
    pub open spec fn spec_for_weapon(&self, weapon: WeaponType) -> WeaponAnimNodes {
        match weapon {
            WeaponType::Rifle => self.rifle,
            WeaponType::Pistol => self.pistol,
            WeaponType::Sniper => self.sniper,
            WeaponType::Knife => self.knife,
        }
    }

    /// The nodes of `weapon`.
    pub fn for_weapon(&self, weapon: WeaponType) -> (nodes: &WeaponAnimNodes)
        ensures
            *nodes == self.spec_for_weapon(weapon),
    {
        match weapon {
            WeaponType::Rifle => &self.rifle,
            WeaponType::Pistol => &self.pistol,
            WeaponType::Sniper => &self.sniper,
            WeaponType::Knife => &self.knife,
        }
    }
}

impl WeaponAnimNodes {
    /// The node that shows `action`.
    pub open spec fn spec_for_action(&self, action: UpperBodyAction) -> AnimationNode {
        match action {
            UpperBodyAction::Idle => self.idle,
            UpperBodyAction::Reloading => self.reload,
            UpperBodyAction::Firing => self.fire,
        }
    }
}

impl MovementState {
    /// The locomotion node of this state.
    pub open spec fn spec_node_index(&self, animations: &SharedAnimations) -> AnimationNode {
        match self {
            MovementState::Idle => animations.lower_body.idle,
            MovementState::Walking => animations.lower_body.walk,
            MovementState::Running => animations.lower_body.run,
            MovementState::CrouchIdle => animations.lower_body.crouch_idle,
            MovementState::CrouchWalking => animations.lower_body.crouch_walk,
        }
    }

    /// The animation node of this movement state.
    #[verifier::when_used_as_spec(spec_node_index)]
    pub fn node_index(&self, animations: &SharedAnimations) -> (node: AnimationNode)
        ensures
            node == self.spec_node_index(animations),
    {
        match self {
            MovementState::Idle => animations.lower_body.idle,
            MovementState::Walking => animations.lower_body.walk,
            MovementState::Running => animations.lower_body.run,
            MovementState::CrouchIdle => animations.lower_body.crouch_idle,
            MovementState::CrouchWalking => animations.lower_body.crouch_walk,
        }
    }
}

impl PlayerAnimationController {
    /// The upper-body node of the weapon held and the action in progress.
    pub open spec fn spec_upper_body_node(&self, animations: &SharedAnimations) -> AnimationNode {
        animations.upper_body.spec_for_weapon(self.weapon).spec_for_action(self.upper_action)
    }

    /// The current upper-body animation node.
    #[verifier::when_used_as_spec(spec_upper_body_node)]
    pub fn upper_body_node(&self, animations: &SharedAnimations) -> (node: AnimationNode)
        ensures
            node == self.spec_upper_body_node(animations),
    {
        let weapon_nodes = animations.upper_body.for_weapon(self.weapon);
        match self.upper_action {
            UpperBodyAction::Idle => weapon_nodes.idle,
            UpperBodyAction::Reloading => weapon_nodes.reload,
            UpperBodyAction::Firing => weapon_nodes.fire,
        }
    }
}

impl SharedAnimations {
    /// The named nodes of an animation set whose clips were added to the
    /// graph in clip order, `nodes[i]` being the node of clip `i`. The knife
    /// has a single attack clip, which serves as its reload and its fire
    /// node alike.
    pub open spec fn from_clip_nodes(nodes: Seq<AnimationNode>) -> SharedAnimations {
        SharedAnimations {
            lower_body: LowerBodyNodes {
                idle: nodes[LOWER_IDLE as int],
                walk: nodes[LOWER_WALK as int],
                run: nodes[LOWER_RUN as int],
                crouch_idle: nodes[LOWER_CROUCH_IDLE as int],
                crouch_walk: nodes[LOWER_CROUCH_WALK as int],
            },
            upper_body: UpperBodyNodes {
                rifle: WeaponAnimNodes {
                    idle: nodes[RIFLE_IDLE as int],
                    reload: nodes[RIFLE_RELOAD as int],
                    fire: nodes[RIFLE_FIRE as int],
                },
                pistol: WeaponAnimNodes {
                    idle: nodes[PISTOL_IDLE as int],
                    reload: nodes[PISTOL_RELOAD as int],
                    fire: nodes[PISTOL_FIRE as int],
                },
                sniper: WeaponAnimNodes {
                    idle: nodes[SNIPER_IDLE as int],
                    reload: nodes[SNIPER_RELOAD as int],
                    fire: nodes[SNIPER_FIRE as int],
                },
                knife: WeaponAnimNodes {
                    idle: nodes[KNIFE_IDLE as int],
                    reload: nodes[KNIFE_ATTACK as int],
                    fire: nodes[KNIFE_ATTACK as int],
                },
            },
        }
    }
}

/// Names the nodes of the shared animation set. `nodes` holds the graph
/// node of each clip, in clip order, so it has at least
/// [`TOTAL_ANIMATION_COUNT`] entries.
pub fn load_shared_animations(nodes: &Vec<AnimationNode>) -> (animations: SharedAnimations)
    requires
        nodes.len() >= TOTAL_ANIMATION_COUNT,
    ensures
        animations == SharedAnimations::from_clip_nodes(nodes@),
{
    SharedAnimations {
        lower_body: LowerBodyNodes {
            idle: nodes[LOWER_IDLE],
            walk: nodes[LOWER_WALK],
            run: nodes[LOWER_RUN],
            crouch_idle: nodes[LOWER_CROUCH_IDLE],
            crouch_walk: nodes[LOWER_CROUCH_WALK],
        },
        upper_body: UpperBodyNodes {
            rifle: WeaponAnimNodes {
                idle: nodes[RIFLE_IDLE],
                reload: nodes[RIFLE_RELOAD],
                fire: nodes[RIFLE_FIRE],
            },
            pistol: WeaponAnimNodes {
                idle: nodes[PISTOL_IDLE],
                reload: nodes[PISTOL_RELOAD],
                fire: nodes[PISTOL_FIRE],
            },
            sniper: WeaponAnimNodes {
                idle: nodes[SNIPER_IDLE],
                reload: nodes[SNIPER_RELOAD],
                fire: nodes[SNIPER_FIRE],
            },
            knife: WeaponAnimNodes {
                idle: nodes[KNIFE_IDLE],
                reload: nodes[KNIFE_ATTACK],
                fire: nodes[KNIFE_ATTACK],
            },
        },
    }
}

/// The graph node of clip number `clip`. Node zero is the root of the
/// graph, so the clips' nodes start at one.
pub open spec fn spec_clip_node(clip: usize) -> AnimationNode {
    AnimationNode { index: (clip + 1) as usize }
}

/// The graph node of a clip of the shared animation set.
#[verifier::when_used_as_spec(spec_clip_node)]
pub fn clip_node(clip: usize) -> (node: AnimationNode)
    requires
        clip < usize::MAX,
    ensures
        node == spec_clip_node(clip),
        node.index == clip + 1,
{
    AnimationNode { index: clip + 1 }
}

/// The clip after `clip`, the first one following the last.
pub open spec fn spec_next_clip(clip: usize) -> usize {
    if clip < TOTAL_ANIMATION_COUNT - 1 {
        (clip + 1) as usize
    } else {
        0
    }
}

/// The clip before `clip`, the last one preceding the first.
pub open spec fn spec_previous_clip(clip: usize) -> usize {
    if clip > 0 {
        (clip - 1) as usize
    } else {
        (TOTAL_ANIMATION_COUNT - 1) as usize
    }
}

/// Steps forward through the clips, wrapping around.
#[verifier::when_used_as_spec(spec_next_clip)]
pub fn next_clip(clip: usize) -> (next: usize)
    ensures
        next == spec_next_clip(clip),
        next < TOTAL_ANIMATION_COUNT,
{
    if clip < TOTAL_ANIMATION_COUNT - 1 {
        clip + 1
    } else {
        0
    }
}

/// Steps backward through the clips, wrapping around.
#[verifier::when_used_as_spec(spec_previous_clip)]
pub fn previous_clip(clip: usize) -> (previous: usize)
    ensures
        previous == spec_previous_clip(clip),
        clip <= TOTAL_ANIMATION_COUNT ==> previous < TOTAL_ANIMATION_COUNT,
{
    if clip > 0 {
        clip - 1
    } else {
        TOTAL_ANIMATION_COUNT - 1
    }
}

/// On the clips of the set, stepping forward and stepping backward undo
/// each other.
pub proof fn clip_steps_are_inverse(clip: usize)
    requires
        clip < TOTAL_ANIMATION_COUNT,
    ensures
        spec_previous_clip(spec_next_clip(clip)) == clip,
        spec_next_clip(spec_previous_clip(clip)) == clip,
{
}

} // verus!
