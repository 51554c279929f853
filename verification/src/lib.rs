//! An unofficial Linux launcher for Vortex.
//!
//! It signs in, downloads the Windows build of the game and a Proton to run it with, and starts it.
//! This library holds what there is to decide and to compute. What reads files, talks to servers,
//! starts programs or draws a window stands outside and asks it what to do.
pub mod app;
pub mod auth;
pub mod cli;
pub mod config;
pub mod desktop;
pub mod disk;
pub mod error;
pub mod game;
pub mod ipc;
pub mod json;
pub mod launch;
pub mod logo;
pub mod net;
pub mod paths;
pub mod proton;
pub mod session;
pub mod shaders;
pub mod sort;
pub mod spelling;
pub mod state;
pub mod storing;
pub mod studio;
pub mod text;
pub mod worker;
