//! A client library for the Baichuan camera control protocol: the wire codec,
//! its ciphers, the media chunk demuxer and the decisions of the per-camera
//! connection supervisor.
pub mod crypto;
pub mod error;
pub mod model;
pub mod codec;
pub mod bcmedia;
pub mod usecounter;
pub mod session;
pub mod login;
pub mod services;
pub mod users;
pub mod config;
pub mod reactor;
pub mod motion;
pub mod ledstate;
pub mod mux;
pub mod email;
