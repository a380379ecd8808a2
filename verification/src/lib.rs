//! Journal collection, analysis and reporting logic.
pub mod text;
pub mod ieee;
pub mod calendar;
pub mod db;
pub mod model;
pub mod sql;
pub mod collector;
pub mod connection;
pub mod analyzer;
pub mod visualizer;
pub mod laws;
