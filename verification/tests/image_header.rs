use ec_slimloader_mcxa::jump::{check_image_header, ImageHeader, IMAGE_HEADER_BYTES};

fn image_with(image_len: u32, cert_off: u32) -> Vec<u8> {
    let mut image = vec![0xAAu8; IMAGE_HEADER_BYTES];
    image[0x20..0x24].copy_from_slice(&image_len.to_le_bytes());
    image[0x28..0x2C].copy_from_slice(&cert_off.to_le_bytes());
    image
}

#[test]
fn header_fields_are_little_endian() {
    let header = ImageHeader::read(&image_with(0x0001_2345, 0x0000_1000));
    assert_eq!(header, ImageHeader { image_len: 0x0001_2345, cert_off: 0x1000 });
}

#[test]
fn valid_header_is_accepted() {
    let image = image_with(0x8000, 0x7F00);
    assert_eq!(check_image_header(&image), Ok(ImageHeader { image_len: 0x8000, cert_off: 0x7F00 }));
}

#[test]
fn smallest_valid_image() {
    assert!(check_image_header(&image_with(0x40, 0)).is_ok());
    assert!(check_image_header(&image_with(0x40, 0x3C)).is_ok());
}

#[test]
fn image_shorter_than_vector_table_is_refused() {
    let image = image_with(0x3F, 0);
    assert_eq!(check_image_header(&image), Err(ImageHeader { image_len: 0x3F, cert_off: 0 }));
}

#[test]
fn unaligned_certificate_offset_is_refused() {
    for cert_off in [1u32, 2, 3, 0x101, 0x102] {
        assert!(check_image_header(&image_with(0x1000, cert_off)).is_err());
    }
}

#[test]
fn certificate_offset_outside_image_is_refused() {
    assert!(check_image_header(&image_with(0x1000, 0x1000)).is_err());
    assert!(check_image_header(&image_with(0x1000, 0x2000)).is_err());
    assert!(check_image_header(&image_with(0x1000, 0xFFC)).is_ok());
}

#[test]
fn erased_flash_is_refused() {
    let image = vec![0xFFu8; IMAGE_HEADER_BYTES];
    assert_eq!(
        check_image_header(&image),
        Err(ImageHeader { image_len: 0xFFFF_FFFF, cert_off: 0xFFFF_FFFF })
    );
}
