use simple_ffmpeg::{get_color, serialize_frame, Color};

#[test]
fn an_empty_run_has_no_bytes() {
    assert_eq!(serialize_frame(&[]), Vec::<u8>::new());
}

#[test]
fn one_pixel_is_four_bytes_red_first() {
    assert_eq!(serialize_frame(&[0x1122_3344]), vec![0x11, 0x22, 0x33, 0x44]);
    assert_eq!(serialize_frame(&[get_color(9, 8, 7, 6)]), vec![9, 8, 7, 6]);
}

#[test]
fn pixels_keep_their_order() {
    let pixels: [Color; 3] = [0x0102_0304, 0x0506_0708, 0xFFFE_FDFC];
    assert_eq!(
        serialize_frame(&pixels),
        vec![1, 2, 3, 4, 5, 6, 7, 8, 0xFF, 0xFE, 0xFD, 0xFC]
    );
}

#[test]
fn bytes_agree_with_big_endian_words() {
    let mut pixels: Vec<Color> = Vec::new();
    let mut word: u32 = 0x9E37_79B9;
    for _ in 0..1000 {
        pixels.push(word);
        word = word.wrapping_mul(1_664_525).wrapping_add(1_013_904_223);
    }
    let mut expected: Vec<u8> = Vec::new();
    for pixel in &pixels {
        expected.extend_from_slice(&pixel.to_be_bytes());
    }
    assert_eq!(serialize_frame(&pixels), expected);
}

#[test]
fn joined_runs_give_joined_bytes() {
    let first: Vec<Color> = vec![1, 2, 3];
    let second: Vec<Color> = vec![0xAABB_CCDD, 0];
    let mut joined = first.clone();
    joined.extend_from_slice(&second);
    let mut expected = serialize_frame(&first);
    expected.extend_from_slice(&serialize_frame(&second));
    assert_eq!(serialize_frame(&joined), expected);
}
