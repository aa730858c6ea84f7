use anchor_lang::{AnchorDeserialize, AnchorSerialize};
use music_nft::wire::{read_text, write_text, TextError};

fn encoded(text: &str) -> Vec<u8> {
    let mut out = Vec::new();
    assert!(write_text(text, &mut out));
    out
}

#[test]
fn empty_text_is_four_zero_bytes() {
    assert_eq!(encoded(""), vec![0, 0, 0, 0]);
    assert_eq!(read_text(&[0, 0, 0, 0]), Ok((String::new(), 4)));
}

#[test]
fn text_is_prefixed_with_its_byte_length() {
    assert_eq!(encoded("Aurora"), vec![6, 0, 0, 0, b'A', b'u', b'r', b'o', b'r', b'a']);
    assert_eq!(encoded("é"), vec![2, 0, 0, 0, 0xc3, 0xa9]);
}

#[test]
fn length_prefix_is_little_endian() {
    let long = "x".repeat(300);
    let bytes = encoded(&long);
    assert_eq!(&bytes[..4], &[44, 1, 0, 0]);
    assert_eq!(bytes.len(), 304);
    let longer = "y".repeat(70_000);
    let bytes = encoded(&longer);
    assert_eq!(&bytes[..4], &[0x70, 0x11, 0x01, 0x00]);
    assert_eq!(read_text(&bytes), Ok((longer, 70_004)));
}

#[test]
fn write_text_appends() {
    let mut out = vec![1, 2, 3];
    assert!(write_text("hi", &mut out));
    assert_eq!(out, vec![1, 2, 3, 2, 0, 0, 0, b'h', b'i']);
}

#[test]
fn read_text_leaves_what_follows() {
    let bytes = [3, 0, 0, 0, b'a', b'b', b'c', 0xff, 0xff];
    assert_eq!(read_text(&bytes), Ok(("abc".to_string(), 7)));
}

#[test]
fn read_text_without_a_whole_prefix() {
    assert_eq!(read_text(&[]), Err(TextError::MissingLength));
    assert_eq!(read_text(&[5]), Err(TextError::MissingLength));
    assert_eq!(read_text(&[5, 0, 0]), Err(TextError::MissingLength));
}

#[test]
fn read_text_with_a_short_body() {
    assert_eq!(read_text(&[1, 0, 0, 0]), Err(TextError::MissingBody));
    assert_eq!(read_text(&[3, 0, 0, 0, b'a', b'b']), Err(TextError::MissingBody));
    assert_eq!(read_text(&[0xff, 0xff, 0xff, 0xff, b'a']), Err(TextError::MissingBody));
    assert_eq!(read_text(&[0, 0, 0, 1, b'a', b'b']), Err(TextError::MissingBody));
}

#[test]
fn read_text_that_is_not_utf8() {
    assert_eq!(read_text(&[1, 0, 0, 0, 0xff]), Err(TextError::NotUtf8));
    assert_eq!(read_text(&[2, 0, 0, 0, 0xc3, 0x28]), Err(TextError::NotUtf8));
    // a two-byte character cut in half by the announced length
    assert_eq!(read_text(&[1, 0, 0, 0, 0xc3, 0xa9]), Err(TextError::NotUtf8));
    // a surrogate, and an overlong encoding
    assert_eq!(read_text(&[3, 0, 0, 0, 0xed, 0xa0, 0x80]), Err(TextError::NotUtf8));
    assert_eq!(read_text(&[2, 0, 0, 0, 0xc0, 0x80]), Err(TextError::NotUtf8));
}

#[test]
fn written_text_reads_back() {
    for text in ["", "rare", "N. Vale", "редкость", "🎵", "a\0b", "line\nbreak"] {
        let bytes = encoded(text);
        assert_eq!(read_text(&bytes), Ok((text.to_string(), bytes.len())));
    }
}

#[test]
fn read_text_then_write_gives_the_bytes_read() {
    let inputs: [&[u8]; 4] = [
        &[0, 0, 0, 0],
        &[4, 0, 0, 0, b'r', b'a', b'r', b'e'],
        &[4, 0, 0, 0, 0xf0, 0x9f, 0x8e, 0xb5, 7, 7],
        &[2, 0, 0, 0, 0xd0, 0xbe, 1],
    ];
    for input in inputs {
        let (text, used) = read_text(input).unwrap();
        assert_eq!(encoded(&text), input[..used].to_vec());
    }
}

#[test]
fn write_text_agrees_with_the_runtime_serialiser() {
    for text in ["", "Aurora", "N. Vale", "редкость: rare", "🎵🎵"] {
        let mut theirs = Vec::new();
        AnchorSerialize::serialize(&text.to_string(), &mut theirs).unwrap();
        assert_eq!(encoded(text), theirs);
    }
}

#[test]
fn read_text_agrees_with_the_runtime_deserialiser() {
    let inputs: [&[u8]; 9] = [
        &[],
        &[1, 0],
        &[0, 0, 0, 0],
        &[6, 0, 0, 0, b'A', b'u', b'r', b'o', b'r', b'a', 9, 9],
        &[6, 0, 0, 0, b'A', b'u'],
        &[1, 0, 0, 0, 0xff],
        &[2, 0, 0, 0, 0xc3, 0xa9],
        &[0xff, 0xff, 0xff, 0x7f, 1, 2, 3],
        &[3, 0, 0, 0, 0xed, 0xa0, 0x80],
    ];
    for input in inputs {
        let mut rest: &[u8] = input;
        let theirs = <String as AnchorDeserialize>::deserialize(&mut rest);
        match read_text(input) {
            Ok((text, used)) => {
                assert_eq!(theirs.unwrap(), text);
                assert_eq!(input.len() - rest.len(), used);
            }
            Err(_) => assert!(theirs.is_err()),
        }
    }
}
