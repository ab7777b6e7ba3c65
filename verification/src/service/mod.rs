pub mod providers;
pub mod yt_dlp;
pub mod fallbacks;
pub mod processing;
