//! Integration core between an immediate-mode GUI toolkit (`egui`) and an
//! SDL2-based host, with the per-frame run/paint/texture-lifecycle protocol
//! stated in contracts and machine-checked.
//!
//! Each frame the host feeds input events in, runs the UI closure through the
//! toolkit, and replays the toolkit's output (draw primitives and texture
//! updates) through a rendering backend.  The bookkeeping that this crate is
//! responsible for — merging texture deltas across runs, replacing shapes and
//! scale factor, keeping the texture table, draining everything on paint, and
//! releasing every native handle exactly once — lives here as verified code.
//! The unverifiable edges (window creation, GL/SDL draw calls, floating-point
//! coordinate scaling) stay with the embedding application, which executes the
//! paint actions this crate emits.
//!
//! Of the toolkit's rendering backends, the 2D canvas path (through the
//! emitted paint actions) and the OpenGL path (through `egui_glow`) are
//! integrated here.  A GPU-API backend would need the `egui_wgpu` crate,
//! which this build does not carry; of that backend only its event decision
//! — the guard that rejects zero-sized surface reconfigurations — stands
//! here, verified in [`state`].

pub mod backend;
pub mod egui_api;
pub mod glow;
pub mod output;
pub mod painter;
pub mod state;
pub mod texture;
