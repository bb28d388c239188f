//! Texture-table lifecycle: create vs. update, free of unknown identifiers,
//! destroy, and the frame scenario of one texture and one draw.

use egui_sdl2::painter::{FramePrimitive, MeshPrimitive, PaintAction, Painter, Primitive, ClipRect};
use egui_sdl2::texture::{TextureDeltas, TextureId, TextureImage, UpdatePos};

fn image_4x4() -> TextureImage {
    TextureImage { width: 4, height: 4, pos: None, bytes: vec![0xffu8; 64] }
}

#[test]
fn set_texture_new_id_creates_then_uploads() {
    let mut p = Painter::new();
    let acts = p.set_texture(TextureId::User(1), image_4x4());
    assert_eq!(acts.len(), 2);
    match &acts[0] {
        PaintAction::CreateTexture { id, width, height } => {
            assert_eq!(*id, TextureId::User(1));
            assert_eq!(*width, 4);
            assert_eq!(*height, 4);
        }
        _ => panic!("first action must allocate"),
    }
    match &acts[1] {
        PaintAction::UploadTexture { id, image } => {
            assert_eq!(*id, TextureId::User(1));
            assert_eq!(image.bytes.len(), 64);
            assert!(image.pos.is_none());
        }
        _ => panic!("second action must upload"),
    }
}

#[test]
fn set_texture_existing_id_updates_in_place() {
    let mut p = Painter::new();
    let _ = p.set_texture(TextureId::User(1), image_4x4());
    let partial = TextureImage {
        width: 2,
        height: 2,
        pos: Some(UpdatePos { x: 1, y: 1 }),
        bytes: vec![0x7fu8; 16],
    };
    let acts = p.set_texture(TextureId::User(1), partial);
    assert_eq!(acts.len(), 1);
    match &acts[0] {
        PaintAction::UploadTexture { id, image } => {
            assert_eq!(*id, TextureId::User(1));
            assert_eq!(image.pos, Some(UpdatePos { x: 1, y: 1 }));
        }
        _ => panic!("an existing texture is updated, not re-created"),
    }
}

#[test]
fn free_unknown_texture_is_noop() {
    let mut p = Painter::new();
    let act = p.free_texture(TextureId::Managed(5));
    assert!(act.is_none());
    // And with one live texture, freeing a never-set identifier still does
    // nothing while the live one stays paintable.
    let _ = p.set_texture(TextureId::User(1), image_4x4());
    let act = p.free_texture(TextureId::User(2));
    assert!(act.is_none());
    let act = p.free_texture(TextureId::User(1));
    assert!(matches!(act, Some(PaintAction::FreeTexture { id }) if id == TextureId::User(1)));
    // Freeing it a second time releases nothing.
    let act = p.free_texture(TextureId::User(1));
    assert!(act.is_none());
}

#[test]
fn destroy_twice_second_call_is_noop() {
    let mut p = Painter::new();
    let _ = p.set_texture(TextureId::User(1), image_4x4());
    let _ = p.set_texture(TextureId::User(2), image_4x4());
    let first = p.destroy();
    assert_eq!(first.len(), 2);
    assert!(matches!(first[0], PaintAction::FreeTexture { id } if id == TextureId::User(1)));
    assert!(matches!(first[1], PaintAction::FreeTexture { id } if id == TextureId::User(2)));
    let second = p.destroy();
    assert_eq!(second.len(), 0);
}

#[test]
fn one_texture_one_draw_scenario() {
    // One 4-by-4 texture is registered and one textured rectangle covering
    // the whole 800-by-600-point window is drawn at a scale factor of 2:
    // exactly one texture allocation, one draw whose clip rectangle is the
    // full window and which carries the scale the backend multiplies it by,
    // and no frees.
    let mut p = Painter::new();
    let id = TextureId::User(7);
    let full_window = ClipRect {
        min_x: 0.0f32.to_bits(),
        min_y: 0.0f32.to_bits(),
        max_x: 800.0f32.to_bits(),
        max_y: 600.0f32.to_bits(),
    };
    let mut mesh = egui::epaint::Mesh::default();
    mesh.texture_id = egui::TextureId::User(7);
    let prims = vec![FramePrimitive {
        clip_rect: full_window,
        primitive: Primitive::Mesh(MeshPrimitive { texture_id: id, mesh }),
    }];
    let deltas = TextureDeltas { set: vec![(id, image_4x4())], free: Vec::new() };
    let scale = 2.0f32.to_bits();
    let acts = p.paint_and_update_textures(scale, deltas, prims);

    let creates = acts.iter().filter(|a| matches!(a, PaintAction::CreateTexture { .. })).count();
    let frees = acts.iter().filter(|a| matches!(a, PaintAction::FreeTexture { .. })).count();
    let draws = acts.iter().filter(|a| matches!(a, PaintAction::Draw { .. })).count();
    assert_eq!(creates, 1);
    assert_eq!(frees, 0);
    assert_eq!(draws, 1);
    assert_eq!(acts.len(), 3);
    match &acts[0] {
        PaintAction::CreateTexture { id: cid, width, height } => {
            assert_eq!(*cid, id);
            assert_eq!((*width, *height), (4, 4));
        }
        _ => panic!("allocation must come first"),
    }
    match &acts[2] {
        PaintAction::Draw { scale_bits, clip_rect, texture, .. } => {
            assert_eq!(*scale_bits, scale);
            assert_eq!(*clip_rect, full_window);
            assert_eq!(*texture, Some(id));
        }
        _ => panic!("the draw must follow the upload"),
    }
}

#[test]
fn paint_order_sets_then_draws_then_frees() {
    let mut p = Painter::new();
    let _ = p.set_texture(TextureId::User(1), image_4x4());
    let mut mesh = egui::epaint::Mesh::default();
    mesh.texture_id = egui::TextureId::User(1);
    let clip = ClipRect { min_x: 0, min_y: 0, max_x: 0, max_y: 0 };
    let prims = vec![FramePrimitive {
        clip_rect: clip,
        primitive: Primitive::Mesh(MeshPrimitive { texture_id: TextureId::User(1), mesh }),
    }];
    let deltas = TextureDeltas {
        set: vec![(TextureId::User(2), image_4x4())],
        free: vec![TextureId::User(1)],
    };
    let acts = p.paint_and_update_textures(0, deltas, prims);
    // Upload of texture 2, then the draw (texture 1 still live), then the free.
    assert_eq!(acts.len(), 4);
    assert!(matches!(acts[0], PaintAction::CreateTexture { id, .. } if id == TextureId::User(2)));
    assert!(matches!(&acts[1], PaintAction::UploadTexture { id, .. } if *id == TextureId::User(2)));
    assert!(matches!(&acts[2], PaintAction::Draw { texture, .. } if *texture == Some(TextureId::User(1))));
    assert!(matches!(acts[3], PaintAction::FreeTexture { id } if id == TextureId::User(1)));
}

#[test]
fn draw_with_unknown_texture_uses_null_texture() {
    let p = Painter::new();
    let mut mesh = egui::epaint::Mesh::default();
    mesh.texture_id = egui::TextureId::Managed(0);
    let clip = ClipRect { min_x: 0, min_y: 0, max_x: 0, max_y: 0 };
    let prims = vec![FramePrimitive {
        clip_rect: clip,
        primitive: Primitive::Mesh(MeshPrimitive { texture_id: TextureId::Managed(0), mesh }),
    }];
    let acts = p.paint_primitives(0, prims);
    assert_eq!(acts.len(), 1);
    assert!(matches!(&acts[0], PaintAction::Draw { texture: None, .. }));
}

#[test]
fn callback_primitives_are_skipped() {
    let p = Painter::new();
    let clip = ClipRect { min_x: 0, min_y: 0, max_x: 0, max_y: 0 };
    let prims = vec![FramePrimitive { clip_rect: clip, primitive: Primitive::Callback }];
    let acts = p.paint_primitives(0, prims);
    assert_eq!(acts.len(), 0);
}
