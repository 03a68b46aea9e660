//! The simulation core of a small side-scrolling arcade game: a
//! player-controlled bird falls under gravity, rises on discrete flap
//! impulses, and must pass between procedurally placed pairs of pipes.
//!
//! The library holds the fixed-timestep physics, the obstacle generator, the
//! collision and scoring rules and the game-phase state machine, all over
//! exact fixed-point arithmetic. Rendering, audio, window and input plumbing
//! are left to the host program, which reads the world state the library
//! exposes and feeds input events and ticks back in.

pub mod actors;
pub mod config;
pub mod display;
pub mod driver;
pub mod fixed;
pub mod game;
pub mod gamestate;
pub mod util;
pub mod vec2;

pub use actors::Pipe;
pub use actors::Player;
pub use config::Config;
pub use driver::TickAccumulator;
pub use fixed::FX_SCALE;
pub use fixed::Fx;
pub use game::Game;
pub use gamestate::GameState;
pub use vec2::Vec2;
