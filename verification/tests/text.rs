use idat::text::{dump, render};

#[test]
fn dump_lists_the_bytes_in_decimal() {
    assert_eq!(dump(&[]), "[]");
    assert_eq!(dump(&[0]), "[0]");
    assert_eq!(dump(&[73, 68, 65, 255]), "[73, 68, 65, 255]");
    assert_eq!(dump(&[9, 10, 99, 100, 101, 200]), "[9, 10, 99, 100, 101, 200]");
}

#[test]
fn dump_agrees_with_debug_on_every_byte() {
    for byte in 0..=u8::MAX {
        assert_eq!(dump(&[byte]), format!("{:?}", [byte]));
        assert_eq!(dump(&[byte, 7, byte, 0]), format!("{:?}", [byte, 7, byte, 0]));
    }
}

#[test]
fn render_gives_text_for_utf8() {
    assert_eq!(render(b"IDAX"), "IDAX");
    assert_eq!(render(b"idat"), "idat");
    assert_eq!(render(&[0, 0, 0, 0]), "\0\0\0\0");
    assert_eq!(render("é→".as_bytes()), "é→");
    assert_eq!(render("😀".as_bytes()), "😀");
    assert_eq!(render(&[]), "");
}

#[test]
fn render_dumps_what_is_not_utf8() {
    assert_eq!(render(&[73, 68, 65, 255]), "[73, 68, 65, 255]");
    assert_eq!(render(&[0x80, 0x41, 0x42, 0x43]), "[128, 65, 66, 67]");
    // an overlong encoding and a surrogate
    assert_eq!(render(&[0xc0, 0x80, 0x41, 0x41]), "[192, 128, 65, 65]");
    assert_eq!(render(&[0xed, 0xa0, 0x80, 0x41]), "[237, 160, 128, 65]");
    // a character cut short
    assert_eq!(render(&[0x41, 0x41, 0xe2, 0x86]), "[65, 65, 226, 134]");
}

#[test]
fn render_agrees_with_std_on_four_bytes() {
    let samples: [u8; 12] = [0x00, 0x41, 0x7f, 0x80, 0xbf, 0xc2, 0xe0, 0xed, 0xf0, 0xf4, 0xf5, 0xff];
    for a in samples {
        for b in samples {
            for c in samples {
                for d in samples {
                    let bytes = [a, b, c, d];
                    let expected = match String::from_utf8(bytes.to_vec()) {
                        Ok(text) => text,
                        Err(_) => format!("{:?}", bytes),
                    };
                    assert_eq!(render(&bytes), expected);
                }
            }
        }
    }
}
