use euclid::config::hex_str_to_rgba;
use euclid::shapes::Color;
use euclid::window::{OpenWindow, SaveWindow};

#[test]
fn hex_colour_reads_three_channels() {
    assert_eq!(
        hex_str_to_rgba("#1e90ff".as_bytes()),
        Some(Color { r: 0x1e, g: 0x90, b: 0xff, a: 255 })
    );
    assert_eq!(
        hex_str_to_rgba("#A0b1C2".as_bytes()),
        Some(Color { r: 0xa0, g: 0xb1, b: 0xc2, a: 255 })
    );
}

#[test]
fn hex_colour_ignores_first_and_trailing_characters() {
    assert_eq!(
        hex_str_to_rgba("x000000ff".as_bytes()),
        Some(Color { r: 0, g: 0, b: 0, a: 255 })
    );
}

#[test]
fn hex_colour_takes_a_plus_sign_like_radix_parsing() {
    assert_eq!(u8::from_str_radix("+f", 16), Ok(15));
    assert_eq!(
        hex_str_to_rgba("#+f0a+1".as_bytes()),
        Some(Color { r: 15, g: 10, b: 1, a: 255 })
    );
}

#[test]
fn hex_colour_rejects_bad_text() {
    assert_eq!(hex_str_to_rgba("#12345".as_bytes()), None);
    assert_eq!(hex_str_to_rgba("#12g456".as_bytes()), None);
    assert_eq!(hex_str_to_rgba("#1+3456".as_bytes()), None);
    assert_eq!(hex_str_to_rgba("#++3456".as_bytes()), None);
    assert_eq!(hex_str_to_rgba("".as_bytes()), None);
}

#[test]
fn save_window_offers_current_name_or_unnamed() {
    let mut open = true;
    let mut name: Option<String> = None;
    {
        let window = SaveWindow::new(&mut open, &mut name);
        assert_eq!(window.shown_name(), "unnamed");
        *window.open = false;
    }
    assert!(!open);
    let mut name = Some("triangle".to_string());
    let window = SaveWindow::new(&mut open, &mut name);
    assert_eq!(window.shown_name(), "triangle");
}

#[test]
fn open_window_offers_a_listed_name() {
    let saves = vec!["hexagon".to_string(), "square".to_string()];
    let mut open = true;

    let mut name = Some("square".to_string());
    assert_eq!(OpenWindow::new(&mut open, &mut name).shown_name(&saves), "square");

    let mut name = Some("circle".to_string());
    assert_eq!(OpenWindow::new(&mut open, &mut name).shown_name(&saves), "hexagon");

    let mut name: Option<String> = None;
    assert_eq!(OpenWindow::new(&mut open, &mut name).shown_name(&saves), "hexagon");
    assert_eq!(OpenWindow::new(&mut open, &mut name).shown_name(&vec![]), "no saves");
}
