use piet_direct2d::readback::{pack_rows, required_bytes, ReadbackError, BYTES_PER_PIXEL};

fn padded_surface(width: usize, height: usize, pitch: usize, color: [u8; 4], pad: u8) -> Vec<u8> {
    let mut v = Vec::new();
    for _ in 0..height {
        for x in 0..pitch {
            if x < width * BYTES_PER_PIXEL {
                v.push(color[x % 4]);
            } else {
                v.push(pad);
            }
        }
    }
    v
}

#[test]
fn strips_row_padding() {
    let src = vec![
        1, 2, 3, 4, 5, 6, 7, 8, 0xEE, 0xEE, 0xEE, 0xEE, //
        9, 10, 11, 12, 13, 14, 15, 16, 0xEE, 0xEE, 0xEE, 0xEE,
    ];
    let out = pack_rows(&src, 12, 2, 2).unwrap();
    assert_eq!(out, vec![1, 2, 3, 4, 5, 6, 7, 8, 9, 10, 11, 12, 13, 14, 15, 16]);
}

#[test]
fn last_row_needs_no_padding() {
    let src = vec![1, 2, 3, 4, 0, 0, 0, 0, 5, 6, 7, 8];
    assert_eq!(pack_rows(&src, 8, 1, 2), Ok(vec![1, 2, 3, 4, 5, 6, 7, 8]));
    assert_eq!(
        pack_rows(&src[..11].to_vec(), 8, 1, 2),
        Err(ReadbackError::SourceTooShort)
    );
}

#[test]
fn tight_pitch_copies_everything() {
    let src: Vec<u8> = (0..24).collect();
    assert_eq!(pack_rows(&src, 8, 2, 3), Ok(src.clone()));
}

#[test]
fn pitch_shorter_than_row_is_rejected() {
    let src = vec![0u8; 64];
    assert_eq!(pack_rows(&src, 7, 2, 2), Err(ReadbackError::PitchTooSmall));
    assert_eq!(
        pack_rows(&src, usize::MAX, usize::MAX / 2, 1),
        Err(ReadbackError::PitchTooSmall)
    );
}

#[test]
fn short_source_is_rejected() {
    let src = vec![0u8; 20];
    assert_eq!(pack_rows(&src, 12, 2, 3), Err(ReadbackError::SourceTooShort));
    assert_eq!(
        pack_rows(&src, usize::MAX, 1, 3),
        Err(ReadbackError::SourceTooShort)
    );
}

#[test]
fn empty_surfaces() {
    let src: Vec<u8> = Vec::new();
    assert_eq!(pack_rows(&src, 16, 4, 0), Ok(Vec::new()));
    assert_eq!(pack_rows(&src, 0, 0, 5), Ok(Vec::new()));
}

#[test]
fn solid_color_round_trip() {
    let color = [0x10, 0x80, 0xF0, 0xFF];
    let (w, h, pitch) = (5, 4, 32);
    let src = padded_surface(w, h, pitch, color, 0xAB);
    let out = pack_rows(&src, pitch, w, h).unwrap();
    assert_eq!(out.len(), w * h * 4);
    for px in out.chunks(4) {
        assert_eq!(px, &color[..]);
    }
}

#[test]
fn solid_color_round_trip_large() {
    let color = [1, 2, 3, 4];
    let (w, h, pitch) = (800, 600, 3328);
    let src = padded_surface(w, h, pitch, color, 0);
    let out = pack_rows(&src, pitch, w, h).unwrap();
    assert_eq!(out.len(), 800 * 600 * 4);
    assert!(out.chunks(4).all(|px| px == &color[..]));
}

#[test]
fn mapped_span() {
    assert_eq!(required_bytes(12, 2, 2), Some(20));
    assert_eq!(required_bytes(3328, 800, 600), Some(3328 * 599 + 3200));
    assert_eq!(required_bytes(16, 4, 0), Some(0));
    assert_eq!(required_bytes(usize::MAX, 1, 3), None);
    assert_eq!(required_bytes(8, usize::MAX, 1), None);
}
