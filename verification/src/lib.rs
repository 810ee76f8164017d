//! The decisions of the laplus server, each stated as a contract and proved.

pub mod access;
pub mod config;
pub mod json;
pub mod keyed;
pub mod provider;
pub mod public_exposure;
pub mod qr;
pub mod refs;
pub mod refusals;
pub mod remote_access;
pub mod review;
pub mod rpc;
pub mod server;
pub mod service;
pub mod session;
pub mod settings;
pub mod settling;
pub mod text;
pub mod tunnels;
pub mod web;
