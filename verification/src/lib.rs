pub mod capture;
pub mod command;
pub mod controller;
pub mod playback;
pub mod routing;
pub mod stream;
pub mod wav;
