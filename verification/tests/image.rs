use rustheon::{Memory, IMAGE_BYTES};

#[test]
fn image_of_wrong_size_is_refused() {
    let short = vec![0u8; 65535];
    assert!(Memory::from_image(&short).is_none());
    let long = vec![0u8; 65537];
    assert!(Memory::from_image(&long).is_none());
    let empty: Vec<u8> = Vec::new();
    assert!(Memory::from_image(&empty).is_none());
}

#[test]
fn image_holds_high_byte_first() {
    let mut image = vec![0u8; IMAGE_BYTES];
    image[0] = 0x12;
    image[1] = 0x34;
    image[0x30] = 0xFF;
    image[0x31] = 0xFE;
    image[65534] = 0x80;
    image[65535] = 0x00;
    let memory = Memory::from_image(&image).unwrap();
    assert_eq!(memory.read(0), 0x1234);
    assert_eq!(memory.read(0x18), -2);
    assert_eq!(memory.read(32767), -32768);
    assert_eq!(memory.read(1), 0);
}

#[test]
fn memory_is_written_out_high_byte_first() {
    let mut memory = Memory::new();
    memory.write(0, 0x1234);
    memory.write(0x18, -2);
    memory.write(32767, -32768);
    let image = memory.to_image();
    assert_eq!(image.len(), IMAGE_BYTES);
    assert_eq!(image[0], 0x12);
    assert_eq!(image[1], 0x34);
    assert_eq!(image[0x30], 0xFF);
    assert_eq!(image[0x31], 0xFE);
    assert_eq!(image[65534], 0x80);
    assert_eq!(image[65535], 0x00);
    assert_eq!(image[2], 0);
}

#[test]
fn image_round_trip() {
    let mut image = vec![0u8; IMAGE_BYTES];
    let mut k = 0;
    while k < IMAGE_BYTES {
        image[k] = (k * 7 + k / 256) as u8;
        k += 1;
    }
    let memory = Memory::from_image(&image).unwrap();
    assert_eq!(memory.to_image(), image);
    let again = Memory::from_image(&memory.to_image()).unwrap();
    let mut addr = 0;
    while addr < 32768 {
        assert_eq!(again.read(addr), memory.read(addr));
        addr += 1;
    }
}
