use tk_pie::rgb::Rgb;
use tk_pie::util::{display_len, pack_str32, wheel};

#[test]
fn test_rgb_as_u32() {
    let rgb = Rgb::new(0x11, 0x22, 0xCC);
    let rgb_u32: u32 = Rgb::slice_as_u32s(&[rgb])[0];
    assert_eq!(rgb_u32, 0x2211CC00);
}

#[test]
fn rgb_components_roundtrip() {
    let rgb = Rgb::new(1, 2, 3);
    assert_eq!(rgb.components(), [1, 2, 3]);
    assert_eq!(Rgb::new(200, 100, 50).div(2).components(), [100, 50, 25]);
}

#[test]
fn wheel_colors() {
    assert_eq!(wheel(0).components(), [255, 0, 0]);
    assert_eq!(wheel(85).components(), [0, 255, 0]);
    assert_eq!(wheel(170).components(), [0, 0, 255]);
    assert_eq!(wheel(255).components(), [255, 0, 0]);
    assert_eq!(wheel(100).components(), [0, 210, 45]);
    for pos in 0..=255u8 {
        let [r, g, b] = wheel(pos).components();
        assert_eq!(r as u32 + g as u32 + b as u32, 255);
    }
}

#[test]
fn msgpack_str32() {
    assert_eq!(display_len("héllo"), 6);
    assert_eq!(pack_str32("ab"), vec![0xdb, 0, 0, 0, 2, b'a', b'b']);
}

#[test]
fn whole_colors_of_wheel_and_division() {
    assert_eq!(wheel(0), Rgb::new(255, 0, 0));
    assert_eq!(wheel(255), Rgb::new(255, 0, 0));
    assert_eq!(wheel(85), Rgb::new(0, 255, 0));
    assert_eq!(wheel(170), Rgb::new(0, 0, 255));
    assert_eq!(Rgb::new(200, 101, 7).div(3), Rgb::new(66, 33, 2));
    assert_eq!(Rgb::slice_as_u32s(&[Rgb::new(200, 101, 7).div(3)]), vec![0x2142_0200]);
}
