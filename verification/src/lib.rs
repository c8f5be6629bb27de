pub mod boss;
pub mod combat;
pub mod death_blink;
pub mod effects;
pub mod enemy_a;
pub mod enemy_b;
pub mod enemy_c;
pub mod game_state;
mod random;
