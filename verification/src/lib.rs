//! Command-line planning and output interpretation for a yt-dlp front end:
//! the argument lists handed to yt-dlp, the reading of its playlist and
//! version output, the decisions of a download job, and the search for the
//! helper programs (ffmpeg, Node.js) that yt-dlp is pointed at.

pub mod text;
pub mod search;
pub mod version;
pub mod download;
pub mod playlist;
pub mod setup;
