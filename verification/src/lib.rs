//! Emulse: a verified model of a GPU image-adjustment pipeline.
//!
//! The library models the core of a photo-editing darkroom: device textures
//! and their manager, a parametrized per-pixel color grade, a display
//! transform of rotation and zoom, a luminance histogram with its
//! device-to-host readback handshake, the shader parameter blocks down to
//! their byte layout, and the small application state that drives the
//! views. The GPU and the windowing toolkit are external collaborators: an
//! unverified shell performs device submission and windowing, while every
//! rule about what the pipeline computes lives here with a proof.

pub mod bytes;
pub mod color;
pub mod darkroom;
pub mod geometry;
pub mod histogram;
pub mod image;
pub mod renderer;
pub mod settings;
pub mod state;
pub mod texture;
pub mod transform;
pub mod uniform;
