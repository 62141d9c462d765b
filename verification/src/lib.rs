pub mod broken_search;
pub mod bundle;
pub mod grep_sample;
pub mod ls_sample;
pub mod move_samples;
pub mod paths;
pub mod prune_bundle;
pub mod show_song;
pub mod song;
pub mod text;
pub mod types;
