//! The game logic of TrainLag: the shared data types, the in-memory mirror of the database
//! collections, teams, sessions and the engine that answers client commands.
pub mod model;
pub mod mirror;
pub mod config;
pub mod commands;
pub mod text;
pub mod runtime;
pub mod timer;
pub mod entries;
pub mod challenge;
pub mod opening;
pub mod env;
pub mod generation;
pub mod context;
pub mod team;
pub mod session;
pub mod comparisons;
pub mod world;
pub mod engine;
pub mod distributor;
pub mod replies;
