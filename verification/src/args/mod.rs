pub mod beatmap;
pub mod performance;
pub mod difficulty;
pub mod settings;
