//! Core of a headless music-player daemon: song records, play queues with an
//! independent play order, the player's state machine, the control protocol's
//! routes, the playlist file codec and the output stream's cursor arithmetic.

pub mod error;
pub mod song;
pub mod random;
pub mod dizi_playlist;
pub mod playlist;
pub mod player;
pub mod request;
pub mod m3u_codec;
pub mod stream;
pub mod decode;
