//! Core of a small paddle-and-ball arcade game: fixed-point geometry,
//! entities, collision rules and the scenes that drive them frame by frame.

pub mod consts;
pub mod geometry;
pub mod input;
pub mod render;
pub mod objects;
pub mod collision;
pub mod level0;
pub mod scene;
pub mod level1;
