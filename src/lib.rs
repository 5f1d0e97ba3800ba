//! The simulation core of a top-down maze game: box overlap and collision
//! sides, player motion against walls, enemy steering, attacks, coins and the
//! finish area, and one world tick that runs them in order.
pub mod geometry;
pub mod collider;
pub mod player;
pub mod walls;
pub mod enemy;
pub mod coins;
pub mod player_attack;
pub mod finish_area;
pub mod world;
pub mod laws;
