use pitchperfect::config::{get_binary_path, init_config_dir, Binary};
use pitchperfect::text::{parse_u64, u32_zero_pad5, u64_to_dec};

#[test]
fn binary_paths_live_under_the_config_dir() {
    let config = init_config_dir("/home/user/.config/app".to_string());
    assert_eq!(get_binary_path(&config, "ffmpeg"), "/home/user/.config/app/ffmpeg");
    assert_eq!(Binary::Ytdlp.name(), "yt-dlp");
    assert_eq!(Binary::Ffmpeg.name(), "ffmpeg");
    assert_eq!(Binary::Ytdlp.get_path(&config), "/home/user/.config/app/yt-dlp");
}

#[test]
fn decimal_rendering_has_no_leading_zeros() {
    assert_eq!(u64_to_dec(0), "0");
    assert_eq!(u64_to_dec(42), "42");
    assert_eq!(u64_to_dec(u64::MAX), "18446744073709551615");
    assert_eq!(u32_zero_pad5(0), "00000");
    assert_eq!(u32_zero_pad5(123), "00123");
    assert_eq!(u32_zero_pad5(4294967295), "4294967295");
}

#[test]
fn decimal_parsing_is_exact() {
    assert_eq!(parse_u64("0"), Some(0));
    assert_eq!(parse_u64("007"), Some(7));
    assert_eq!(parse_u64("18446744073709551615"), Some(u64::MAX));
    assert_eq!(parse_u64("18446744073709551616"), None);
    assert_eq!(parse_u64(""), None);
    assert_eq!(parse_u64("12a"), None);
    assert_eq!(parse_u64("-1"), None);
}
