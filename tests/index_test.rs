use clip_search::config::{Activation, Config};
use clip_search::index::{
    format_of, get_extension, is_image_path, needs_embedding, record_outcome, should_descend,
    ImageFormat, SaveSchedule, SAVE_INTERVAL,
};
use clip_search::query::{pad_token_ids, TEXT_LEN};
use clip_search::store::Store;

#[test]
fn extension_is_lowercased() {
    assert_eq!(get_extension("photos/Trip.JPG"), "jpg");
    assert_eq!(get_extension("a/b.tar.GZ"), "gz");
    assert_eq!(get_extension("noext"), "");
    assert_eq!(get_extension(".hidden"), "");
    assert_eq!(get_extension("dir.d/file"), "");
}

#[test]
fn image_formats_by_extension() {
    assert_eq!(format_of("jpg"), Some(ImageFormat::Jpeg));
    assert_eq!(format_of("jpeg"), Some(ImageFormat::Jpeg));
    assert_eq!(format_of("png"), Some(ImageFormat::Png));
    assert_eq!(format_of("heic"), Some(ImageFormat::Heif));
    assert_eq!(format_of("heif"), Some(ImageFormat::Heif));
    assert_eq!(format_of("gif"), None);
    assert_eq!(format_of("JPG"), None);
    assert_eq!(ImageFormat::Png.content_type(), "image/png");
    assert_eq!(ImageFormat::Jpeg.content_type(), "image/jpeg");
    assert_eq!(ImageFormat::Heif.content_type(), "image/jpeg");
}

#[test]
fn image_paths_are_recognised() {
    assert!(is_image_path("x/IMG_0001.HEIC"));
    assert!(is_image_path("x/a.png"));
    assert!(!is_image_path("x/notes.txt"));
    assert!(!is_image_path("x/png"));
}

#[test]
fn hidden_directories_are_skipped() {
    assert!(!should_descend(".git"));
    assert!(!should_descend("."));
    assert!(should_descend("photos"));
    assert!(should_descend(""));
}

#[test]
fn only_new_paths_need_embedding() {
    let mut s: Store<Vec<u32>> = Store::new();
    assert!(needs_embedding(&s, "a.jpg"));
    s.insert("a.jpg".to_string(), vec![1]);
    assert!(!needs_embedding(&s, "a.jpg"));
    assert!(needs_embedding(&s, "b.jpg"));
}

#[test]
fn indexing_twice_keeps_embeddings() {
    let paths = ["a.jpg", "b.png", "c.heic"];
    let mut s: Store<Vec<u32>> = Store::new();
    // first run: b fails
    for (i, p) in paths.iter().enumerate() {
        let outcome = if *p == "b.png" { None } else { Some(vec![i as u32]) };
        record_outcome(&mut s, p.to_string(), outcome);
    }
    assert_eq!(s.len(), 2);
    // second run: every embedding differs from the first
    for p in paths.iter() {
        record_outcome(&mut s, p.to_string(), Some(vec![100]));
    }
    assert_eq!(s.get("a.jpg"), Some(&vec![0]));
    assert_eq!(s.get("c.heic"), Some(&vec![2]));
    assert_eq!(s.get("b.png"), Some(&vec![100]));
}

#[test]
fn store_is_saved_every_interval() {
    let mut sched = SaveSchedule::new();
    let mut saves = Vec::new();
    for i in 1..=(2 * SAVE_INTERVAL + 3) {
        if sched.record_processed() {
            saves.push(i);
        }
    }
    assert_eq!(saves, vec![50, 100]);
}

#[test]
fn token_ids_are_padded_and_truncated() {
    let short = pad_token_ids(&vec![49406, 320, 49407], TEXT_LEN);
    assert_eq!(short.len(), 77);
    assert_eq!(&short[..4], &[49406, 320, 49407, 0]);
    assert!(short[3..].iter().all(|&t| t == 0));
    let long: Vec<u32> = (0..100).collect();
    let cut = pad_token_ids(&long, TEXT_LEN);
    assert_eq!(cut, (0..77).collect::<Vec<u32>>());
    assert_eq!(pad_token_ids(&vec![], 3), vec![0, 0, 0]);
}

#[test]
fn clip_configs() {
    let c = Config::clip();
    assert_eq!(c.embed_dim, 512);
    assert_eq!(c.num_attention_heads, 8);
    assert_eq!(c.pad_with.as_deref(), Some("!"));
    assert_eq!(c.activation, Activation::QuickGelu);
    let v = Config::vision();
    assert_eq!(v.embed_dim, 768);
    assert_eq!(v.projection_dim, 512);
    assert_eq!(Config::v1_5().pad_with, None);
    assert_eq!(Config::v2_1().num_hidden_layers, 23);
    assert_eq!(Config::v2_1().activation, Activation::Gelu);
    assert_eq!(Config::sdxl().num_attention_heads, 12);
    assert_eq!(Config::sdxl2().embed_dim, 1280);
    assert_eq!(Config::sdxl2().intermediate_size, 5120);
    assert_eq!(Config::sdxl2().vocab_size, 49408);
    assert_eq!(Config::sdxl2().max_position_embeddings, 77);
}
