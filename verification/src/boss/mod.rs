pub mod explosion;
pub mod hits;
pub mod parts;
pub mod shooting;
pub mod stage;
pub mod transition;
