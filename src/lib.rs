//! A deterministic simulation of a conversational counterpart: breach
//! detection, persona classification, risk estimation and scripted replies.

pub mod breach;
pub mod ghost_engine;
pub mod laws;
pub mod persona;
pub mod reply;
pub mod risk;
pub mod text;
