use pmxview::paths::{texture_file_path, texture_format, texture_path, ImageKind};

#[test]
fn texture_paths() {
    assert_eq!(texture_path("model", "tex\\face.png", '/'), "model/tex/face.png");
    assert_eq!(texture_path("model", "a\\b\\c.bmp", '\\'), "model/a\\b\\c.bmp");
    assert_eq!(texture_path("", "x.png", '/'), "/x.png");
}

#[test]
fn texture_file_paths() {
    let sep = std::path::MAIN_SEPARATOR;
    let expected = format!("models/miku/tex{}skin.png", sep);
    assert_eq!(texture_file_path("models/miku/miku.pmx", "tex\\skin.png"), Some(expected));
    assert_eq!(texture_file_path("m.pmx", "t.png"), Some("/t.png".to_string()));
    assert_eq!(texture_file_path("/", "t.png"), None);
    assert_eq!(texture_file_path("", "t.png"), None);
}

#[test]
fn texture_formats() {
    assert_eq!(texture_format("tex/sphere.spa"), Some(ImageKind::Bmp));
    assert_eq!(texture_format("tex/sphere.sph"), Some(ImageKind::Bmp));
    assert_eq!(texture_format("tex/skin.png"), Some(ImageKind::Png));
    assert_eq!(texture_format("tex/skin.JPG"), Some(ImageKind::Jpeg));
    assert_eq!(texture_format("tex/skin.tga"), Some(ImageKind::Tga));
    assert_eq!(texture_format("tex/skin.xyz"), None);
    assert_eq!(texture_format("tex/skin"), None);
    assert_eq!(texture_format("tex/skin.PnG"), Some(ImageKind::Png));
    assert_eq!(texture_format("tex/skin.jpeg"), Some(ImageKind::Jpeg));
    assert_eq!(texture_format("tex/skin.pam"), Some(ImageKind::Pnm));
    assert_eq!(texture_format("tex/skin.ff"), Some(ImageKind::Farbfeld));
    assert_eq!(texture_format("tex/skin.TIF"), Some(ImageKind::Tiff));
}
