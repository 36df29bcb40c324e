use egui_glfw_gl::delta::ImageDelta;
use egui_glfw_gl::gl::{GlCall, GlCommand};
use egui_glfw_gl::registry::{texel_count_is, TextureRegistry};
use egui_glfw_gl::texture::{
    Color32, GuiTexture, TextureFilter, TextureId, TextureOptions, TextureWrapMode,
};

const WHITE: Color32 = Color32 { r: 255, g: 255, b: 255, a: 255 };

fn full_image(width: usize, height: usize) -> ImageDelta {
    ImageDelta {
        size: [width, height],
        pixels: vec![WHITE; width * height],
        options: TextureOptions::linear(),
        pos: None,
    }
}

fn region(x: usize, y: usize, width: usize, height: usize) -> ImageDelta {
    ImageDelta {
        size: [width, height],
        pixels: vec![WHITE; width * height],
        options: TextureOptions::linear(),
        pos: Some([x, y]),
    }
}

#[test]
fn new_registry_is_empty() {
    let registry = TextureRegistry::new();
    assert_eq!(registry.len(), 0);
    assert!(!registry.contains(TextureId::User(0)));
    assert!(registry.get(TextureId::Managed(0)).is_none());
    assert_eq!(registry.find(TextureId::Managed(0)), None);
    assert!(registry.can_allocate());
    assert_eq!(registry.unrealised_count(), 0);
}

#[test]
fn allocate_user_counts_up_from_zero() {
    let mut registry = TextureRegistry::new();
    let first = registry.allocate_user((1, 1), TextureOptions::linear(), vec![0; 4]);
    let second = registry.allocate_user((1, 1), TextureOptions::linear(), vec![0; 4]);
    assert_eq!(first, TextureId::User(0));
    assert_eq!(second, TextureId::User(1));
    assert_eq!(registry.len(), 2);
    assert_eq!(registry.find(first), Some(0));
    assert_eq!(registry.find(second), Some(1));
}

#[test]
fn allocate_user_waits_for_upload() {
    let mut registry = TextureRegistry::new();
    let options = TextureOptions {
        magnification: TextureFilter::Nearest,
        minification: TextureFilter::Nearest,
        wrap_mode: TextureWrapMode::MirroredRepeat,
    };
    let id = registry.allocate_user((2, 1), options, vec![1, 2, 3, 4, 5, 6, 7, 8]);
    let texture = registry.get(id).unwrap();
    assert_eq!(texture.texture_id(), 0);
    assert_eq!(texture.size(), [2, 1]);
    assert_eq!(texture.options(), options);
    assert_eq!(texture.pending_len(), 8);
    assert!(texture.dirty());
    assert_eq!(registry.unrealised_count(), 1);
}

#[test]
fn allocate_user_starts_at_the_current_count() {
    let mut registry = TextureRegistry::new();
    let mut pool = vec![3];
    registry.set_from_delta(TextureId::Managed(0), &full_image(1, 1), &mut pool);
    let id = registry.allocate_user((1, 1), TextureOptions::linear(), vec![0; 4]);
    assert_eq!(id, TextureId::User(1));
}

#[test]
fn allocate_never_reuses_an_identifier() {
    let mut registry = TextureRegistry::new();
    let first = registry.allocate_user((1, 1), TextureOptions::linear(), vec![0; 4]);
    let second = registry.allocate_user((1, 1), TextureOptions::linear(), vec![0; 4]);
    registry.free(first);
    let third = registry.allocate_user((1, 1), TextureOptions::linear(), vec![0; 4]);
    assert_eq!(third, TextureId::User(2));
    assert!(third != first && third != second);
    assert!(registry.contains(second));
    assert!(registry.contains(third));
    assert_eq!(registry.len(), 2);
}

#[test]
fn allocate_steps_over_user_identifiers_that_a_delta_set() {
    let mut registry = TextureRegistry::new();
    let mut pool = vec![3];
    registry.set_from_delta(TextureId::User(5), &full_image(1, 1), &mut pool);
    let id = registry.allocate_user((1, 1), TextureOptions::linear(), vec![0; 4]);
    assert_eq!(id, TextureId::User(6));
    assert_eq!(registry.len(), 2);
}

#[test]
fn allocate_raw_adopts_a_gl_name() {
    let mut registry = TextureRegistry::new();
    let id = registry.allocate_raw(77);
    assert_eq!(id, TextureId::User(0));
    let texture = registry.get(id).unwrap();
    assert_eq!(texture.texture_id(), 77);
    assert_eq!(texture.size(), [0, 0]);
    assert!(!texture.dirty());
    assert_eq!(registry.unrealised_count(), 0);
    assert_eq!(registry.free(id), vec![GlCommand::Call(GlCall::DeleteTexture(77))]);
    assert!(!registry.contains(id));
}

#[test]
fn update_user_replaces_pixels_and_marks_dirty() {
    let mut registry = TextureRegistry::new();
    let id = registry.allocate_user((1, 1), TextureOptions::linear(), vec![0; 4]);
    let mut pool = vec![8];
    registry.upload_pending(&mut pool);
    assert!(!registry.get(id).unwrap().dirty());
    assert_eq!(registry.get(id).unwrap().pending_len(), 0);
    registry.update_user(id, vec![9, 9, 9, 9]);
    let texture = registry.get(id).unwrap();
    assert!(texture.dirty());
    assert_eq!(texture.pending_len(), 4);
    assert_eq!(texture.texture_id(), 8);
}

#[test]
fn install_replaces_in_place_and_hands_the_old_texture_back() {
    let mut registry = TextureRegistry::new();
    let a = TextureId::Managed(0);
    let b = TextureId::Managed(1);
    assert!(registry.install(a, GuiTexture::from_raw(1)).is_none());
    assert!(registry.install(b, GuiTexture::from_raw(2)).is_none());
    let previous = registry.install(a, GuiTexture::from_raw(3)).unwrap();
    assert_eq!(previous.texture_id(), 1);
    assert_eq!(registry.len(), 2);
    assert_eq!(registry.find(a), Some(0));
    assert_eq!(registry.find(b), Some(1));
    assert_eq!(registry.entry(0).0, a);
    assert_eq!(registry.entry(0).1.texture_id(), 3);
}

#[test]
fn free_of_an_unknown_identifier_changes_nothing() {
    let mut registry = TextureRegistry::new();
    registry.allocate_raw(5);
    assert_eq!(registry.free(TextureId::Managed(9)), Vec::<GlCommand>::new());
    assert_eq!(registry.len(), 1);
}

#[test]
fn free_keeps_the_order_of_the_rest() {
    let mut registry = TextureRegistry::new();
    let a = registry.allocate_raw(1);
    let b = registry.allocate_raw(2);
    let c = registry.allocate_raw(3);
    registry.free(b);
    assert_eq!(registry.find(a), Some(0));
    assert_eq!(registry.find(c), Some(1));
}

#[test]
fn free_all_releases_in_list_order() {
    let mut registry = TextureRegistry::new();
    let a = registry.allocate_raw(1);
    let b = registry.allocate_raw(2);
    let c = registry.allocate_raw(3);
    let commands = registry.free_all(&vec![c, TextureId::Managed(4), a, c]);
    assert_eq!(
        commands,
        vec![
            GlCommand::Call(GlCall::DeleteTexture(3)),
            GlCommand::Call(GlCall::DeleteTexture(1)),
        ]
    );
    assert!(!registry.contains(a));
    assert!(registry.contains(b));
    assert!(!registry.contains(c));
}

#[test]
fn duplicate_is_independent_of_its_source() {
    let mut registry = TextureRegistry::new();
    let id = registry.allocate_user((1, 1), TextureOptions::linear(), vec![1, 2, 3, 4]);
    let mut copy = registry.duplicate();
    copy.free(id);
    assert!(registry.contains(id));
    assert!(!copy.contains(id));
    assert_eq!(registry.get(id).unwrap().pending_len(), 4);
}

#[test]
fn texel_count_is_does_not_overflow() {
    assert!(texel_count_is(3, 4, 12));
    assert!(!texel_count_is(3, 4, 11));
    assert!(texel_count_is(0, 9, 0));
    assert!(!texel_count_is(usize::MAX, usize::MAX, 1));
}

#[test]
fn region_update_is_accepted_inside_the_texture_only() {
    let mut registry = TextureRegistry::new();
    let id = TextureId::Managed(0);
    let mut pool = vec![3];
    registry.set_from_delta(id, &full_image(64, 32), &mut pool);
    let none: Vec<u32> = vec![];
    assert!(registry.accepts(id, &region(0, 0, 64, 32), &none));
    assert!(registry.accepts(id, &region(16, 8, 48, 24), &none));
    assert!(registry.accepts(id, &region(64, 32, 0, 0), &none));
    assert!(!registry.accepts(id, &region(17, 8, 48, 24), &none));
    assert!(!registry.accepts(id, &region(16, 9, 48, 24), &none));
    assert!(!registry.accepts(id, &region(65, 0, 0, 0), &none));
    assert!(!registry.accepts(id, &region(usize::MAX, 0, 1, 0), &none));
}

#[test]
fn region_update_needs_a_known_and_realised_texture() {
    let mut registry = TextureRegistry::new();
    let none: Vec<u32> = vec![];
    assert!(!registry.accepts(TextureId::Managed(0), &region(0, 0, 1, 1), &none));
    let id = registry.allocate_user((4, 4), TextureOptions::linear(), vec![0; 64]);
    assert!(!registry.accepts(id, &region(0, 0, 1, 1), &none));
    let mut pool = vec![6];
    registry.upload_pending(&mut pool);
    assert!(registry.accepts(id, &region(0, 0, 1, 1), &none));
}

#[test]
fn image_is_refused_when_texel_count_and_size_differ() {
    let registry = TextureRegistry::new();
    let mut image = full_image(2, 2);
    image.pixels.pop();
    assert!(!registry.accepts(TextureId::Managed(0), &image, &vec![1]));
}

#[test]
fn full_image_needs_a_fresh_name() {
    let registry = TextureRegistry::new();
    assert!(!registry.accepts(TextureId::Managed(0), &full_image(1, 1), &vec![]));
    assert!(registry.accepts(TextureId::Managed(0), &full_image(1, 1), &vec![1]));
}

#[test]
fn full_image_creates_configures_and_uploads_at_once() {
    let mut registry = TextureRegistry::new();
    let mut pool = vec![5, 9];
    let options = TextureOptions {
        magnification: TextureFilter::Nearest,
        minification: TextureFilter::Linear,
        wrap_mode: TextureWrapMode::Repeat,
    };
    let image = ImageDelta {
        size: [1, 1],
        pixels: vec![Color32 { r: 1, g: 2, b: 3, a: 4 }],
        options,
        pos: None,
    };
    let commands = registry.set_from_delta(TextureId::Managed(0), &image, &mut pool);
    assert_eq!(pool, vec![5]);
    assert_eq!(
        commands,
        vec![
            GlCommand::Call(GlCall::BindTexture(9)),
            GlCommand::Call(GlCall::TextureWrapS(TextureWrapMode::Repeat)),
            GlCommand::Call(GlCall::TextureWrapT(TextureWrapMode::Repeat)),
            GlCommand::Call(GlCall::TextureMinFilter(TextureFilter::Linear)),
            GlCommand::Call(GlCall::TextureMagFilter(TextureFilter::Nearest)),
            GlCommand::Call(GlCall::BindTexture(9)),
            GlCommand::TexImage { width: 1, height: 1, pixels: vec![1, 2, 3, 4] },
            GlCommand::Call(GlCall::BindTexture(0)),
        ]
    );
    let texture = registry.get(TextureId::Managed(0)).unwrap();
    assert_eq!(texture.texture_id(), 9);
    assert_eq!(texture.options(), options);
    assert_eq!(texture.size(), [1, 1]);
    assert_eq!(texture.pending_len(), 0);
    assert!(!texture.dirty());
}

#[test]
fn full_image_over_an_existing_texture_releases_the_old_one_last() {
    let mut registry = TextureRegistry::new();
    let id = TextureId::Managed(0);
    let mut pool = vec![5, 9];
    registry.set_from_delta(id, &full_image(1, 1), &mut pool);
    let commands = registry.set_from_delta(id, &full_image(2, 1), &mut pool);
    assert!(pool.is_empty());
    assert_eq!(commands.len(), 9);
    assert_eq!(commands[0], GlCommand::Call(GlCall::BindTexture(5)));
    assert_eq!(commands[8], GlCommand::Call(GlCall::DeleteTexture(9)));
    assert_eq!(registry.len(), 1);
    assert_eq!(registry.get(id).unwrap().texture_id(), 5);
    assert_eq!(registry.get(id).unwrap().size(), [2, 1]);
}

#[test]
fn apply_set_changes_the_registry_like_set_from_delta() {
    let mut with_commands = TextureRegistry::new();
    let mut without_commands = TextureRegistry::new();
    let mut pool_a = vec![5, 9];
    let mut pool_b = vec![5, 9];
    let id = TextureId::Managed(3);
    with_commands.set_from_delta(id, &full_image(2, 2), &mut pool_a);
    without_commands.apply_set(id, &full_image(2, 2), &mut pool_b);
    with_commands.set_from_delta(id, &region(0, 0, 1, 1), &mut pool_a);
    without_commands.apply_set(id, &region(0, 0, 1, 1), &mut pool_b);
    assert_eq!(pool_a, pool_b);
    assert_eq!(with_commands.len(), without_commands.len());
    let a = with_commands.get(id).unwrap();
    let b = without_commands.get(id).unwrap();
    assert_eq!(a.texture_id(), b.texture_id());
    assert_eq!(a.size(), b.size());
    assert_eq!(a.options(), b.options());
    assert_eq!(a.dirty(), b.dirty());
    assert_eq!(a.pending_len(), b.pending_len());
}

#[test]
fn upload_pending_skips_clean_textures() {
    let mut registry = TextureRegistry::new();
    registry.allocate_raw(4);
    let mut pool = vec![1];
    assert_eq!(registry.upload_pending(&mut pool), Vec::<GlCommand>::new());
    assert_eq!(pool, vec![1]);
}

#[test]
fn upload_pending_walks_in_insertion_order_and_takes_names_from_the_end() {
    let mut registry = TextureRegistry::new();
    let a = registry.allocate_user((1, 1), TextureOptions::linear(), vec![1; 4]);
    let b = registry.allocate_user((1, 1), TextureOptions::linear(), vec![2; 4]);
    let mut pool = vec![10, 20, 30];
    let commands = registry.upload_pending(&mut pool);
    assert_eq!(pool, vec![10]);
    assert_eq!(registry.get(a).unwrap().texture_id(), 30);
    assert_eq!(registry.get(b).unwrap().texture_id(), 20);
    assert_eq!(commands.len(), 16);
    assert_eq!(commands[0], GlCommand::Call(GlCall::BindTexture(30)));
    assert_eq!(commands[6], GlCommand::TexImage { width: 1, height: 1, pixels: vec![1; 4] });
    assert_eq!(commands[8], GlCommand::Call(GlCall::BindTexture(20)));
    assert_eq!(commands[14], GlCommand::TexImage { width: 1, height: 1, pixels: vec![2; 4] });
    assert_eq!(registry.unrealised_count(), 0);
}

#[test]
fn upload_pending_of_a_dirty_texture_without_pixels_only_clears_the_flag() {
    let mut registry = TextureRegistry::new();
    let id = registry.allocate_raw(4);
    registry.update_user(id, vec![]);
    assert!(registry.get(id).unwrap().dirty());
    let mut pool = vec![];
    assert_eq!(registry.upload_pending(&mut pool), Vec::<GlCommand>::new());
    assert!(!registry.get(id).unwrap().dirty());
    assert_eq!(registry.get(id).unwrap().texture_id(), 4);
}

#[test]
fn upload_pending_realises_an_adopted_name_of_zero() {
    let mut registry = TextureRegistry::new();
    let id = registry.allocate_raw(0);
    let mut pool = vec![12];
    let commands = registry.upload_pending(&mut pool);
    assert_eq!(registry.get(id).unwrap().texture_id(), 12);
    assert_eq!(commands.len(), 8);
    assert_eq!(commands[6], GlCommand::TexImage { width: 0, height: 0, pixels: vec![] });
}
