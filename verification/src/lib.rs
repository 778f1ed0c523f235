//! StuntCopter: the game model of a helicopter stunt game — fly the copter,
//! drop the stuntman, land him in the moving hay wagon.
//!
//! The library holds every rule of the game as verified code: the copter's
//! inertia and flight band, the wagon and cloud motion, the seedable wind,
//! the stuntman's state machine, landing classification, scoring, level
//! progression, and the fixed-timestep world tick that ties them together.
//! It also holds the pure decisions of the presentation layer (scene flow,
//! keyboard steering, sound cues, HUD digits, WAV framing).
pub mod geom;
pub mod config;
pub mod score;
pub mod rng;
pub mod sprite;
pub mod intents;
pub mod level;
pub mod stuntman;
pub mod event;
pub mod copter;
pub mod wagon;
pub mod cloud;
pub mod world;
pub mod audio;
pub mod hud;
pub mod input;
pub mod scene;
pub mod debug;

pub use event::{Event, EventLog, EventSink, NoSink};
pub use geom::{Pos, Rect, Vel, VelRange};
pub use intents::Intents;
pub use score::{Height, Level, Points, Score};
pub use sprite::Sprite;
pub use world::{RenderState, World};
