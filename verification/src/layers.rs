//! Logical collision layers and interaction groups.
//!
//! The physics provider filters contacts and queries by pairs of bit masks;
//! the core names the layers instead and gives each kind of body a named
//! group: a set of layers it belongs to and a set of layers it interacts
//! with.  Two bodies interact when each one's membership meets the other's
//! filter.

use vstd::prelude::*;

verus! {

/// One logical collision layer of the arena.
#[derive(Clone, Copy, Debug, PartialEq, Eq, Structural)]
pub enum Layer {
    Terrain,
    Player,
    Projectile,
    Debris,
    WinSensor,
}

/// A set of layers.
#[derive(Clone, Copy, Debug, PartialEq, Eq, Structural)]
pub struct LayerSet {
    pub terrain: bool,
    pub player: bool,
    pub projectile: bool,
    pub debris: bool,
    pub win_sensor: bool,
}

impl LayerSet {
    pub open spec fn spec_has(self, l: Layer) -> bool {
        match l {
            Layer::Terrain => self.terrain,
            Layer::Player => self.player,
            Layer::Projectile => self.projectile,
            Layer::Debris => self.debris,
            Layer::WinSensor => self.win_sensor,
        }
    }

    /// Whether the set holds the given layer.
    pub fn has(self, l: Layer) -> (r: bool)
        ensures
            r == self.spec_has(l),
    {
        match l {
            Layer::Terrain => self.terrain,
            Layer::Player => self.player,
            Layer::Projectile => self.projectile,
            Layer::Debris => self.debris,
            Layer::WinSensor => self.win_sensor,
        }
    }

    /// Some layer lies in both sets.
    pub open spec fn spec_meets(self, o: LayerSet) -> bool {
        (self.terrain && o.terrain)
            || (self.player && o.player)
            || (self.projectile && o.projectile)
            || (self.debris && o.debris)
            || (self.win_sensor && o.win_sensor)
    }

    pub fn meets(self, o: LayerSet) -> (r: bool)
        ensures
            r == self.spec_meets(o),
    {
        (self.terrain && o.terrain)
            || (self.player && o.player)
            || (self.projectile && o.projectile)
            || (self.debris && o.debris)
            || (self.win_sensor && o.win_sensor)
    }

    /// The set of every layer.
    pub fn all() -> (r: LayerSet)
        ensures
            r == (LayerSet {
                terrain: true,
                player: true,
                projectile: true,
                debris: true,
                win_sensor: true,
            }),
    {
        LayerSet { terrain: true, player: true, projectile: true, debris: true, win_sensor: true }
    }

    /// The set of exactly one layer.
    pub fn only(l: Layer) -> (r: LayerSet)
        ensures
            forall|k: Layer| r.spec_has(k) == (k == l),
    {
        let r = LayerSet {
            terrain: matches!(l, Layer::Terrain),
            player: matches!(l, Layer::Player),
            projectile: matches!(l, Layer::Projectile),
            debris: matches!(l, Layer::Debris),
            win_sensor: matches!(l, Layer::WinSensor),
        };
        proof {
            assert forall|k: Layer| r.spec_has(k) == (k == l) by {
                match k {
                    Layer::Terrain => {},
                    Layer::Player => {},
                    Layer::Projectile => {},
                    Layer::Debris => {},
                    Layer::WinSensor => {},
                }
            }
        }
        r
    }
}

/// What a body is and what it collides with.
#[derive(Clone, Copy, Debug, PartialEq, Eq, Structural)]
pub struct Groups {
    pub memberships: LayerSet,
    pub filter: LayerSet,
}

impl Groups {
    /// Two grouped bodies interact when each one's membership meets the
    /// other's filter.
    pub open spec fn spec_interacts(self, o: Groups) -> bool {
        self.memberships.spec_meets(o.filter) && o.memberships.spec_meets(self.filter)
    }

    pub fn interacts(self, o: Groups) -> (r: bool)
        ensures
            r == self.spec_interacts(o),
    {
        self.memberships.meets(o.filter) && o.memberships.meets(self.filter)
    }
}

/// The group of a projectile on the tick it spawns: it is fenced off from
/// the terrain so that it cannot re-trigger a contact with its spawn point.
pub open spec fn spec_projectile_spawn_groups() -> Groups {
    Groups {
        memberships: LayerSet {
            terrain: false,
            player: false,
            projectile: true,
            debris: false,
            win_sensor: false,
        },
        filter: LayerSet {
            terrain: false,
            player: true,
            projectile: true,
            debris: true,
            win_sensor: true,
        },
    }
}

pub fn projectile_spawn_groups() -> (r: Groups)
    ensures
        r == spec_projectile_spawn_groups(),
{
    Groups {
        memberships: LayerSet {
            terrain: false,
            player: false,
            projectile: true,
            debris: false,
            win_sensor: false,
        },
        filter: LayerSet {
            terrain: false,
            player: true,
            projectile: true,
            debris: true,
            win_sensor: true,
        },
    }
}

/// The group of a projectile after any contact has ended: it collides with
/// everything again.
pub open spec fn spec_projectile_free_groups() -> Groups {
    Groups {
        memberships: LayerSet {
            terrain: false,
            player: false,
            projectile: true,
            debris: false,
            win_sensor: false,
        },
        filter: LayerSet {
            terrain: true,
            player: true,
            projectile: true,
            debris: true,
            win_sensor: true,
        },
    }
}

pub fn projectile_free_groups() -> (r: Groups)
    ensures
        r == spec_projectile_free_groups(),
{
    Groups {
        memberships: LayerSet {
            terrain: false,
            player: false,
            projectile: true,
            debris: false,
            win_sensor: false,
        },
        filter: LayerSet {
            terrain: true,
            player: true,
            projectile: true,
            debris: true,
            win_sensor: true,
        },
    }
}

/// The group of a debris fragment: it rests on terrain and ignores
/// everything else, other fragments included -- fragments are
/// collision-group fenced so they never interact with one another, and
/// never knock the player or the projectiles around.
pub open spec fn spec_debris_groups() -> Groups {
    Groups {
        memberships: LayerSet {
            terrain: false,
            player: false,
            projectile: false,
            debris: true,
            win_sensor: false,
        },
        filter: LayerSet {
            terrain: true,
            player: false,
            projectile: false,
            debris: false,
            win_sensor: false,
        },
    }
}

pub fn debris_groups() -> (r: Groups)
    ensures
        r == spec_debris_groups(),
{
    Groups {
        memberships: LayerSet {
            terrain: false,
            player: false,
            projectile: false,
            debris: true,
            win_sensor: false,
        },
        filter: LayerSet {
            terrain: true,
            player: false,
            projectile: false,
            debris: false,
            win_sensor: false,
        },
    }
}

/// The group the win-detection ray is cast with: it selects debris bodies
/// and nothing else.
pub open spec fn spec_win_ray_groups() -> Groups {
    Groups {
        memberships: LayerSet {
            terrain: false,
            player: false,
            projectile: false,
            debris: false,
            win_sensor: true,
        },
        filter: LayerSet {
            terrain: false,
            player: false,
            projectile: false,
            debris: true,
            win_sensor: false,
        },
    }
}

pub fn win_ray_groups() -> (r: Groups)
    ensures
        r == spec_win_ray_groups(),
{
    Groups {
        memberships: LayerSet {
            terrain: false,
            player: false,
            projectile: false,
            debris: false,
            win_sensor: true,
        },
        filter: LayerSet {
            terrain: false,
            player: false,
            projectile: false,
            debris: true,
            win_sensor: false,
        },
    }
}

/// The group of the arena walls: terrain that stops every body that has
/// not fenced it out, and is invisible to the win sensor, so the win ray
/// is never cut short by a wall.
pub open spec fn spec_terrain_groups() -> Groups {
    Groups {
        memberships: LayerSet {
            terrain: true,
            player: false,
            projectile: false,
            debris: false,
            win_sensor: false,
        },
        filter: LayerSet {
            terrain: true,
            player: true,
            projectile: true,
            debris: true,
            win_sensor: false,
        },
    }
}

pub fn terrain_groups() -> (r: Groups)
    ensures
        r == spec_terrain_groups(),
{
    Groups {
        memberships: LayerSet {
            terrain: true,
            player: false,
            projectile: false,
            debris: false,
            win_sensor: false,
        },
        filter: LayerSet {
            terrain: true,
            player: true,
            projectile: true,
            debris: true,
            win_sensor: false,
        },
    }
}

} // verus!
