use termgfx::graphics_components::{Animation, Image, ImageData};

#[test]
fn test_image_creation() {
    let data = vec![255u8; 30]; // 10 pixels * 3 bytes RGB
    let img = Image::from_rgb(data, 10, 1);
    assert_eq!(img.dimensions(), (10, 1));
    assert!(img.is_dirty());
}

#[test]
fn test_animation_creation() {
    let anim = Animation::new(100, 50);
    assert_eq!(anim.dimensions(), (100, 50));
    assert!(anim.is_playing());
    assert!(anim.is_dirty());
}

#[test]
fn test_animation_play_pause() {
    let mut anim = Animation::new(100, 50);
    assert!(anim.is_playing());

    anim.pause();
    assert!(!anim.is_playing());

    anim.play();
    assert!(anim.is_playing());

    anim.toggle();
    assert!(!anim.is_playing());
}

#[test]
fn test_image_data_rgb_passthrough() {
    let data = vec![1, 2, 3, 4, 5, 6];
    let img_data = ImageData::Rgb(data.clone());
    let result = img_data.to_rgb(2, 1).unwrap();
    assert_eq!(result, data);
}

#[test]
fn test_image_data_rgba_to_rgb() {
    let rgba = vec![1, 2, 3, 255, 4, 5, 6, 255];
    let img_data = ImageData::Rgba(rgba);
    let result = img_data.to_rgb(2, 1).unwrap();
    assert_eq!(result, vec![1, 2, 3, 4, 5, 6]);
}

