//! Sound: note frequencies and song timing.

pub mod music;
