//! The whole frame pipeline against the real toolkit: run a UI, paint,
//! paint again (a no-op), destroy, destroy again (a no-op).

use egui_sdl2::backend::EguiBackend;
use egui_sdl2::output::SCALE_ONE_BITS;
use egui_sdl2::painter::PaintAction;
use egui_sdl2::state::HostEvent;
use egui_sdl2::texture::TextureId;

fn run_one_frame(backend: &mut EguiBackend) {
    backend.run(|ctx: &egui::Context| {
        egui::CentralPanel::default().show(ctx, |ui| {
            ui.label("Hello, world!");
        });
    });
}

#[test]
fn first_frame_uploads_font_texture_and_draws() {
    let mut backend = EguiBackend::new();
    run_one_frame(&mut backend);
    let acts = backend.paint();

    // The toolkit's first frame carries the font atlas: its identifier is
    // the managed texture zero, its image is a real one.
    let mut created_font = false;
    let mut uploaded_bytes = 0usize;
    let mut draws = 0usize;
    for act in &acts {
        match act {
            PaintAction::CreateTexture { id, width, height } => {
                if *id == TextureId::Managed(0) {
                    created_font = true;
                    assert!(*width > 0 && *height > 0);
                }
            }
            PaintAction::UploadTexture { id, image } => {
                if *id == TextureId::Managed(0) {
                    assert_eq!(image.bytes.len(), 4 * image.width * image.height);
                    uploaded_bytes = image.bytes.len();
                }
            }
            PaintAction::Draw { clip_rect, texture, .. } => {
                draws += 1;
                // The panel's meshes sample the font atlas, so the converted
                // primitives must carry its identifier resolved against the
                // table, and a clip rectangle with real extent.
                assert_eq!(*texture, Some(TextureId::Managed(0)));
                assert!(f32::from_bits(clip_rect.max_x) > f32::from_bits(clip_rect.min_x));
                assert!(f32::from_bits(clip_rect.max_y) > f32::from_bits(clip_rect.min_y));
            }
            PaintAction::FreeTexture { .. } => panic!("nothing to free on the first frame"),
        }
    }
    assert!(created_font, "the font atlas must be allocated");
    assert!(uploaded_bytes > 0, "the font atlas upload carries pixels");
    assert!(draws > 0, "the panel must produce at least one draw");
}

#[test]
fn fresh_backend_starts_at_scale_one() {
    let backend = EguiBackend::new();
    assert_eq!(backend.run_output.pixels_per_point_bits, SCALE_ONE_BITS);
    assert_eq!(f32::from_bits(backend.run_output.pixels_per_point_bits), 1.0);
}

#[test]
fn paint_after_paint_is_noop() {
    let mut backend = EguiBackend::new();
    run_one_frame(&mut backend);
    let first = backend.paint();
    assert!(!first.is_empty());
    // No run in between: the second paint uploads and frees no texture and
    // draws nothing.
    let second = backend.paint();
    assert_eq!(second.len(), 0);
}

#[test]
fn scale_factor_is_the_last_runs() {
    let mut backend = EguiBackend::new();
    run_one_frame(&mut backend);
    let bits = backend.run_output.pixels_per_point_bits;
    assert_eq!(f32::from_bits(bits), 1.0);
    let _ = backend.paint();
    // The scale factor survives the paint for a drain without a new run.
    assert_eq!(backend.run_output.pixels_per_point_bits, bits);
}

#[test]
fn destroy_frees_all_then_nothing() {
    let mut backend = EguiBackend::new();
    run_one_frame(&mut backend);
    let _ = backend.paint();
    let freed = backend.destroy();
    assert!(freed.iter().all(|a| matches!(a, PaintAction::FreeTexture { .. })));
    assert!(freed.len() > 0, "the font texture was live and must be released");
    let again = backend.destroy();
    assert_eq!(again.len(), 0);
}

#[test]
fn close_event_through_backend_is_unconsumed() {
    let mut backend = EguiBackend::new();
    let response = backend.on_event(&HostEvent::WindowClose, None);
    assert!(!response.consumed);
}

#[test]
fn merged_runs_paint_once() {
    // Two runs without a paint in between: the paint sees the union of the
    // texture deltas but only the last run's shapes.
    let mut backend = EguiBackend::new();
    run_one_frame(&mut backend);
    run_one_frame(&mut backend);
    let acts = backend.paint();
    let creates = acts
        .iter()
        .filter(|a| matches!(a, PaintAction::CreateTexture { .. }))
        .count();
    // The font atlas was new in the first run only; the second run adds no
    // new texture, and merging does not duplicate the allocation.
    assert_eq!(creates, 1);
    let frees = acts.iter().filter(|a| matches!(a, PaintAction::FreeTexture { .. })).count();
    assert_eq!(frees, 0);
}
