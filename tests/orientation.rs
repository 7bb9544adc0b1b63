use shapes::{Chirality, Configuration, Orientation, TargaImage, Winding};

#[test]
fn default_configuration() {
    let c = Configuration::default();
    assert_eq!(c.orientation.chirality, Chirality::Right);
    assert_eq!(c.orientation.winding, Winding::Counterclockwise);
    assert!(!c.generate_normals);
    assert!(!c.prefer_strips);
}

#[test]
fn orientation_queries() {
    let o = Orientation { chirality: Chirality::Left, winding: Winding::Clockwise };
    assert!(o.is_left() && !o.is_right() && o.is_cw() && !o.is_ccw());
    let d = Orientation::default();
    assert!(!d.is_left() && d.is_right() && !d.is_cw() && d.is_ccw());
}

#[test]
fn targa_image_keeps_its_pixels() {
    let image = TargaImage::new(vec![1, 2, 3, 4, 5, 6, 7, 8], 2, 1);
    assert_eq!(image.bytes, vec![1, 2, 3, 4, 5, 6, 7, 8]);
    assert_eq!((image.width, image.height), (2, 1));
}

fn tga(width: u16, height: u16, pixels: &[u8]) -> Vec<u8> {
    let mut data = vec![0u8, 0, 2, 0, 0, 0, 0, 0, 0, 0, 0, 0];
    data.extend_from_slice(&width.to_le_bytes());
    data.extend_from_slice(&height.to_le_bytes());
    data.extend_from_slice(&[32, 0]);
    data.extend_from_slice(pixels);
    data
}

#[test]
fn targa_decodes_bgra_to_rgba() {
    let data = tga(2, 1, &[1, 2, 3, 4, 5, 6, 7, 8]);
    let image = match shapes::decode_targa(&data) {
        Ok(image) => image,
        Err(e) => panic!("{:?}", e),
    };
    assert_eq!((image.width, image.height), (2, 1));
    assert_eq!(image.bytes, vec![3, 2, 1, 4, 7, 6, 5, 8]);
}

#[test]
fn targa_rejects_other_formats() {
    let mut data = tga(1, 1, &[1, 2, 3, 4]);
    data[16] = 24;
    assert!(matches!(shapes::decode_targa(&data), Err(shapes::TargaError::UnexpectedFormat)));
}

#[test]
fn targa_rejects_truncated_files() {
    assert!(matches!(shapes::decode_targa(&vec![0u8; 10]), Err(shapes::TargaError::Truncated)));
    let data = tga(2, 2, &[1, 2, 3, 4]);
    assert!(matches!(shapes::decode_targa(&data), Err(shapes::TargaError::Truncated)));
}

#[test]
fn targa_encodes_header_and_bgra() {
    let image = TargaImage::new(vec![1, 2, 3, 4], 1, 1);
    assert_eq!(shapes::encode_targa(&image), tga(1, 1, &[3, 2, 1, 4]));
    let wide = TargaImage::new(vec![0; 4 * 300], 300, 1);
    let bytes = shapes::encode_targa(&wide);
    assert_eq!((bytes[12], bytes[13], bytes[14], bytes[15]), (44, 1, 1, 0));
}

#[test]
fn targa_round_trip() {
    let pixels: Vec<u8> = (0..24).collect();
    let image = TargaImage::new(pixels.clone(), 3, 2);
    let back = match shapes::decode_targa(&shapes::encode_targa(&image)) {
        Ok(image) => image,
        Err(e) => panic!("{:?}", e),
    };
    assert_eq!(back.bytes, pixels);
    assert_eq!((back.width, back.height), (3, 2));
}
