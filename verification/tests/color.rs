use bot_utils::color::Color;

#[test]
fn rgb_keeps_the_channels() {
    assert_eq!(Color::rgb(1, 2, 3).channels(), (1, 2, 3));
    assert_eq!(Color::rgb(0, 0, 0).channels(), (0, 0, 0));
    assert_eq!(Color::rgb(255, 255, 255).channels(), (255, 255, 255));
}

#[test]
fn default_color_is_white() {
    assert_eq!(Color::default(), Color::rgb(255, 255, 255));
}

#[test]
fn hex_reads_six_digits() {
    assert_eq!(Color::hex("#FF0000"), Some(Color::rgb(255, 0, 0)));
    assert_eq!(Color::hex("00ff7f"), Some(Color::rgb(0, 255, 127)));
    assert_eq!(Color::hex("#1a2B3c"), Some(Color::rgb(0x1a, 0x2b, 0x3c)));
}

#[test]
fn hex_reads_three_digits() {
    assert_eq!(Color::hex("f0a"), Some(Color::rgb(0xff, 0x00, 0xaa)));
    assert_eq!(Color::hex("#f0a"), Some(Color::rgb(0xff, 0x00, 0xaa)));
    assert_eq!(Color::hex("#123"), Some(Color::rgb(0x11, 0x22, 0x33)));
}

#[test]
fn hex_shorthand_equals_expansion() {
    assert_eq!(Color::hex("#abc"), Color::hex("#aabbcc"));
    assert_eq!(Color::hex("abc"), Color::hex("aabbcc"));
    assert_eq!(Color::hex("#F09"), Color::hex("#FF0099"));
    assert_eq!(Color::hex("#abc"), Some(Color::rgb(0xaa, 0xbb, 0xcc)));
}

#[test]
fn hex_refuses_other_lengths() {
    assert_eq!(Color::hex(""), None);
    assert_eq!(Color::hex("#"), None);
    assert_eq!(Color::hex("#ab"), None);
    assert_eq!(Color::hex("#abcd"), None);
    assert_eq!(Color::hex("#abcde"), None);
    assert_eq!(Color::hex("#abcdef0"), None);
}

#[test]
fn hex_refuses_other_characters() {
    assert_eq!(Color::hex("#ggg"), None);
    assert_eq!(Color::hex("#12345g"), None);
    assert_eq!(Color::hex("#+1+2+3"), None);
    assert_eq!(Color::hex("+12"), None);
    assert_eq!(Color::hex("#ab "), None);
    assert_eq!(Color::hex("a\u{e9}b"), None);
    assert_eq!(Color::hex("\u{ff11}\u{ff12}\u{ff13}"), None);
}

#[test]
fn hex_takes_one_leading_hash_only() {
    assert_eq!(Color::hex("##abc"), None);
    assert_eq!(Color::hex("##aabbcc"), None);
    assert_eq!(Color::hex("abc#"), None);
}

#[test]
fn ansi_code_is_the_foreground_sequence() {
    assert_eq!(Color::rgb(255, 255, 0).ansi_code(), "\x1b[38;2;255;255;0m");
    assert_eq!(Color::rgb(0, 0, 0).ansi_code(), "\x1b[38;2;0;0;0m");
    assert_eq!(Color::rgb(7, 42, 100).ansi_code(), "\x1b[38;2;7;42;100m");
    assert_eq!(Color::rgb(9, 10, 99).ansi_code(), "\x1b[38;2;9;10;99m");
    assert_eq!(Color::rgb(101, 200, 255).ansi_code(), "\x1b[38;2;101;200;255m");
}

#[test]
fn ansi_code_of_every_channel_value() {
    for n in 0..=255u8 {
        assert_eq!(Color::rgb(n, 0, n).ansi_code(), format!("\x1b[38;2;{};0;{}m", n, n));
    }
}
