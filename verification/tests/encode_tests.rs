use portal_tools::Color;
use portal_tools::EncodeError;
use portal_tools::colorize::ColorizedImage;
use portal_tools::colorize::TemplateImage;
use portal_tools::colorize::colorize;
use portal_tools::encode::EncoderProfile;
use portal_tools::encode::encode;

fn gradient_template(width: u32, height: u32) -> TemplateImage {
    let n = (width * height) as usize;
    let mut data = Vec::new();
    for p in 0..n {
        data.push((p * 7 % 256) as u8);
        data.push((255 - p * 3 % 256) as u8);
    }
    TemplateImage::new(width, height, data).unwrap()
}

fn decode_pixels(container: &[u8]) -> Vec<u8> {
    let parsed = vtf::from_bytes(container).unwrap();
    let decoded = parsed.highres_image.decode(0).unwrap();
    decoded.to_rgba8().into_raw()
}

#[test]
fn encode_round_trips_dx9_profile() {
    let t = gradient_template(4, 4);
    let image = colorize(&t, Color { r: 0x40, g: 0xA0, b: 0xFF });
    let container = encode(&image, EncoderProfile::Dx9).unwrap();
    assert_eq!(decode_pixels(&container), image.data);
}

#[test]
fn encode_round_trips_dx8_profile() {
    let t = gradient_template(8, 2);
    let image = colorize(&t, Color { r: 0xF2, g: 0xCA, b: 0xA7 });
    let container = encode(&image, EncoderProfile::Dx8).unwrap();
    assert_eq!(decode_pixels(&container), image.data);
}

#[test]
fn encode_writes_container_signature_and_payload() {
    let t = gradient_template(2, 2);
    let image = colorize(&t, Color { r: 10, g: 20, b: 30 });
    let container = encode(&image, EncoderProfile::Dx9).unwrap();
    // "VTF\0" magic, then the header, then the raw RGBA payload.
    assert_eq!(&container[0..4], &[0x56, 0x54, 0x46, 0x00]);
    assert_eq!(container.len(), 64 + image.data.len());
    assert_eq!(&container[64..], &image.data[..]);
}

#[test]
fn encode_rejects_non_power_of_two_width() {
    let image = ColorizedImage { width: 3, height: 1, data: vec![0; 12] };
    assert_eq!(encode(&image, EncoderProfile::Dx9).unwrap_err(), EncodeError::InvalidDimensions);
}

#[test]
fn encode_rejects_zero_dimension() {
    let image = ColorizedImage { width: 0, height: 4, data: vec![] };
    assert_eq!(encode(&image, EncoderProfile::Dx8).unwrap_err(), EncodeError::InvalidDimensions);
}

#[test]
fn encode_error_message() {
    assert_eq!(
        EncodeError::InvalidDimensions.message(),
        "texture dimensions must be powers of two"
    );
}
