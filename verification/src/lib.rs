//! Planning of precomputed atmospheric scattering on a Vulkan compute queue.
//!
//! Based on [E. Bruneton and F. Neyret's "Precomputed atmospheric
//! scattering"](https://ebruneton.github.io/precomputed_atmospheric_scattering/)
//!
//! The crate decides what has to be created, bound, dispatched and synchronised
//! to fill the look-up tables of a sky model, and hands those decisions out as
//! plain values: raw masks and enumerations, handles as `u64`, real numbers as
//! the bits of an IEEE 754 single. Whoever owns the device turns them into API
//! calls.
//!
//! A run goes like this:
//!
//! 1. Build the catalog once: a sampler, the descriptor set layouts
//!    ([`catalog::SetLayoutId::bindings`]), and per pass a pipeline layout
//!    ([`catalog::PassKind::pipeline_layout`]) and a compute pipeline, in
//!    the order of [`catalog::pipeline_order`]. Hand the handles to
//!    [`Builder::new`].
//! 2. Per run, create what [`resources`] describes: two descriptor pools and
//!    their sets, the eight images with their views and memory, and the
//!    parameter buffer. Gather the handles in an [`atmosphere::RunObjects`].
//! 3. Call [`Atmosphere::build`]. Apply the descriptor writes it returns and
//!    record its commands.
//! 4. When the commands have completed, call
//!    [`PendingAtmosphere::assert_ready`], destroy what it lists, and draw
//!    with [`Renderer::draw`].
//!
//! [`hazards`] proves that the commands of every run are in order as
//! [`tracker`] defines it, [`handover`] that only the last command moves
//! resources between queue families.

pub mod atmosphere;
pub mod builder;
pub mod catalog;
pub mod commands;
pub mod handover;
pub mod hazards;
pub mod memory;
pub mod packed;
pub mod params;
pub mod raw;
pub mod render;
pub mod resources;
pub mod schedule;
pub mod tracker;

pub use atmosphere::{Atmosphere, PendingAtmosphere};
pub use builder::Builder;
pub use params::{DensityProfile, DensityProfileLayer, Extent2D, Extent3D, Parameters};
pub use render::{DrawParameters, Renderer};
