//! Logic core of a small arcade match: a phase-driven combat scheduler.
//!
//! A monster lobs slime-ball projectiles at the player; the player deflects
//! them, energetic deflections split a ball into two children, and a round
//! ends when the last ball is removed.  The match itself walks a fixed set of
//! phases (start screen, intro round, main round, win/overflow screens, plus
//! an easter-egg override).
//!
//! The crate owns every decision of that scheduler: the phase state machine,
//! contact-damage resolution, the splitting rule, projectile lifecycle,
//! win detection over a ray query, and the score.  Rendering, input devices
//! and the rigid-body solver are outside collaborators: each tick they hand
//! the core plain values (key presses, contact pairs, body positions and
//! velocities, a ray-cast result) and receive plain commands back (spawn,
//! despawn, overlay and cursor changes, animation triggers).
//!
//! All geometry is carried in thousandths of a physics unit (milli-units),
//! so that every rule is exact integer arithmetic.  The one quantity the
//! core cannot derive itself -- the angle between two velocities, which
//! needs the provider's trigonometry -- arrives as data, expressed in
//! thousandths of a half-turn.

pub mod body_part;
pub mod events;
pub mod game;
pub mod geom;
pub mod laws;
pub mod layers;
pub mod monster;
pub mod player;
pub mod player_damaged;
pub mod ready_to_jump;
pub mod score;
pub mod slime_ball;
pub mod world;
