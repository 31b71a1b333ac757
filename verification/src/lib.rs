//! Game rules of a fungal-network strategy game on a hex grid: tiles and
//! terrain, region bookkeeping, founding new networks, hive capture,
//! path finding, the simulation-speed controls, the paint-stroke ("wisp")
//! input state machine, and the discrete parts of drawing the networks.
pub mod abilities;
pub mod cli;
pub mod components;
pub mod config;
pub mod discovery;
pub mod founding;
pub mod grid;
pub mod hex;
pub mod hive;
pub mod messages;
pub mod network;
pub mod pathfinding;
pub mod popover;
pub mod region;
pub mod selection;
pub mod shroom;
pub mod simulation;
pub mod sprites;
pub mod tile;
pub mod wisp;
