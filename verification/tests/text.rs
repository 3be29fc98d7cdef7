//! Texts, numbers, sizes and UTF-16.

use usb_boot::size::gib_string;
use usb_boot::text::{
    chars_of, comes_not_after, contains, decimal_string, first_char, letter_like, shorten,
    string_of, trim_end,
};
use usb_boot::utf16::{decode, encode, encode_z};

#[test]
fn decimals_have_no_leading_zeros() {
    for n in [0u64, 7, 9, 10, 99, 100, 1234567890, u64::MAX] {
        assert_eq!(decimal_string(n), format!("{}", n));
    }
}

#[test]
fn decimals_of_different_numbers_differ() {
    for n in 0u64..2000 {
        assert_ne!(decimal_string(n), decimal_string(n + 1));
        assert_eq!(decimal_string(n).parse::<u64>(), Ok(n));
    }
}

#[test]
fn characters_and_strings_correspond() {
    let s = "U盘 a😀";
    assert_eq!(chars_of(s), s.chars().collect::<Vec<char>>());
    assert_eq!(string_of(&chars_of(s)), s);
    assert_eq!(first_char(s), Some('U'));
    assert_eq!(first_char(""), None);
}

#[test]
fn shortening_counts_characters() {
    assert_eq!(shorten("启动盘WINPE", 4), "启动盘W");
    assert_eq!(shorten("WINPE", 11), "WINPE");
    assert_eq!(shorten("WINPE", 5), "WINPE");
    assert_eq!(shorten("WINPE", 0), "");
}

#[test]
fn trimming_takes_off_the_run_at_the_end() {
    assert_eq!(trim_end("E:", ':'), "E");
    assert_eq!(trim_end("E::", ':'), "E");
    assert_eq!(trim_end("a:b", ':'), "a:b");
    assert_eq!(trim_end(":::", ':'), "");
    assert_eq!(trim_end("A\0B\0\0", '\0'), "A\0B");
}

#[test]
fn letters_are_those_of_ascii() {
    for c in ['A', 'Z', 'a', 'z', '@', '[', '`', '{', '0', ':', '\\', '盘', 'é'] {
        assert_eq!(letter_like(c), c.is_ascii_alphabetic());
    }
}

#[test]
fn searching_finds_texts_anywhere() {
    assert!(contains("virtual disk service error:", "error"));
    assert!(contains("error", "error"));
    assert!(contains("清理失败", "失败"));
    assert!(contains("abc", ""));
    assert!(contains("aaab", "aab"));
    assert!(!contains("eror", "error"));
    assert!(!contains("", "error"));
    assert!(!contains("erro r", "error"));
}

#[test]
fn order_of_strings_is_that_of_std() {
    let all = ["", "C:", "D:", "D", "E:", "a", "盘", "D:x"];
    for a in all {
        for b in all {
            assert_eq!(comes_not_after(a, b), a <= b);
            assert!(comes_not_after(a, b) || comes_not_after(b, a));
            if comes_not_after(a, b) && comes_not_after(b, a) {
                assert_eq!(a, b);
            }
            for c in all {
                if comes_not_after(a, b) && comes_not_after(b, c) {
                    assert!(comes_not_after(a, c));
                }
            }
        }
    }
}

#[test]
fn utf16_is_that_of_std() {
    for s in ["", "D:\\", "启动盘", "a😀b", "\u{10FFFF}\u{FFFF}\u{10000}"] {
        assert_eq!(encode(s), s.encode_utf16().collect::<Vec<u16>>());
        let mut z: Vec<u16> = s.encode_utf16().collect();
        z.push(0);
        assert_eq!(encode_z(s), z);
    }
}

#[test]
fn decoding_gives_back_what_was_encoded() {
    for s in ["", "WINPE", "启动盘", "a😀b"] {
        assert_eq!(decode(&encode(s)), s);
    }
}

#[test]
fn decoding_replaces_lone_surrogates() {
    let cases: [&[u16]; 7] = [
        &[0xD83D, 0xDE00],
        &[0xD83D],
        &[0xDE00],
        &[0xD83D, 0x41],
        &[0xD83D, 0xD83D, 0xDE00],
        &[0xDE00, 0xD83D],
        &[0x41, 0xDFFF, 0xE000, 0xFFFF],
    ];
    for u in cases {
        assert_eq!(decode(u), String::from_utf16_lossy(u));
    }
}

#[test]
fn buffers_of_zeros_give_texts_back() {
    let mut buffer = [0u16; 261];
    for (i, u) in "系统盘 X".encode_utf16().enumerate() {
        buffer[i] = u;
    }
    assert_eq!(trim_end(&decode(&buffer), '\0'), "系统盘 X");
    assert_eq!(trim_end(&decode(&[0u16; 261]), '\0'), "");
}

#[test]
fn sizes_are_shown_as_floats_would_be() {
    let gib: u64 = 1024 * 1024 * 1024;
    let mut sizes = vec![0, 1, gib / 4, gib / 2, gib, 3 * gib / 4, 15_931_539_456, 31_914_983_424];
    for k in 0..400u64 {
        sizes.push(k * gib / 20);
        sizes.push(k * gib / 20 + 1);
        sizes.push((k * gib / 20).wrapping_sub(1) % (1 << 60));
    }
    for k in 50..64u32 {
        sizes.push(1u64 << k);
        sizes.push((1u64 << k) - 1);
        sizes.push((1u64 << k) + 1);
        sizes.push((1u64 << k) + (1u64 << (k - 5)) + 1023);
    }
    sizes.push(u64::MAX);
    sizes.push(u64::MAX - 1023);
    sizes.push(u64::MAX - 1024);
    for n in sizes {
        let gb = n as f64 / 1024.0 / 1024.0 / 1024.0;
        assert_eq!(gib_string(n), format!("{:.1}", gb), "{} bytes", n);
    }
    assert_eq!(gib_string(15_931_539_456), "14.8");
    assert_eq!(gib_string(gib / 4), "0.2");
    assert_eq!(gib_string(3 * gib / 4), "0.8");
}
