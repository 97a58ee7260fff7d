pub mod button;
pub mod culling;
pub mod movement;
pub mod pause;
