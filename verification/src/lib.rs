//! Penguin Cannon — the rules of an endless three-lane runner: the biome
//! state machine, the orca chase, scoring, spawning decisions, player
//! movement, touch gestures and layer-crossing transitions, all on
//! fixed-point integers and proved with Verus.
pub mod timer;
pub mod tuning;
pub mod states;
pub mod chase;
pub mod game;
pub mod rng;
pub mod audio;
pub mod spawn;
pub mod player;
pub mod touch;
pub mod transitions;
pub mod hud;
