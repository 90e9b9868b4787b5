use dy_os::{Color, ColorCode};

#[test]
fn color_codes_are_the_adapter_codes() {
    let all = [
        Color::Black,
        Color::Blue,
        Color::Green,
        Color::Cyan,
        Color::Red,
        Color::Magenta,
        Color::Brown,
        Color::LightGray,
        Color::DarkGray,
        Color::LightBlue,
        Color::LightGreen,
        Color::LightCyan,
        Color::LightRed,
        Color::Pink,
        Color::Yellow,
        Color::White,
    ];
    for (expected, color) in all.iter().enumerate() {
        assert_eq!(color.code() as usize, expected);
    }
}

#[test]
fn color_code_packs_background_above_foreground() {
    assert_eq!(ColorCode::new(Color::LightGreen, Color::Black), ColorCode(0x0a));
    assert_eq!(ColorCode::new(Color::White, Color::Blue), ColorCode(0x1f));
    assert_eq!(ColorCode::new(Color::Black, Color::White), ColorCode(0xf0));
    assert_eq!(ColorCode::new(Color::Yellow, Color::Red), ColorCode(0x4e));
    assert_eq!(ColorCode::new(Color::Black, Color::Black), ColorCode(0x00));
    assert_eq!(ColorCode::new(Color::White, Color::White), ColorCode(0xff));
}

#[test]
fn color_code_packs_every_pair() {
    let all = [
        Color::Black,
        Color::Blue,
        Color::Green,
        Color::Cyan,
        Color::Red,
        Color::Magenta,
        Color::Brown,
        Color::LightGray,
        Color::DarkGray,
        Color::LightBlue,
        Color::LightGreen,
        Color::LightCyan,
        Color::LightRed,
        Color::Pink,
        Color::Yellow,
        Color::White,
    ];
    for (b, background) in all.iter().enumerate() {
        for (f, foreground) in all.iter().enumerate() {
            let packed = ColorCode::new(*foreground, *background);
            assert_eq!(packed.0 as usize, b * 16 + f);
            assert_eq!((packed.0 & 0x0f) as usize, f);
            assert_eq!((packed.0 >> 4) as usize, b);
        }
    }
}
