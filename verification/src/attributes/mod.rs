pub mod beatmap;
