//! A small convenience layer over a Vulkan-style GPU API, through the
//! `vulkano` crate: a runtime-initialization façade that yields a
//! ready-to-use device and queue, shape handling for precompiled
//! SPIR-V shader bytecode, and a compute dispatcher that runs a shader
//! over a host-visible storage buffer and returns a waitable fence
//! handle. Offscreen only: no windowing, no presentation.
//!
//! What the platform returns — devices, queues, pipelines — is opaque
//! to the verifier; the decisions around those handles (which queue
//! family, which device, what shape a shader payload must have, which
//! stage of a dispatch failed) are stated in contracts and proved.
//! Every call into the platform stands behind a trusted item in
//! [`vk`], [`buffer`] or [`image`].

pub mod buffer;
pub mod dispatch;
pub mod errors;
pub mod families;
pub mod image;
pub mod runtime;
pub mod spirv;
pub mod vk;
