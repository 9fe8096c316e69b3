use tk_pie::button::Button;
use tk_pie::editor::edit_mode::{assign_button, ButtonIdentifier, EditMode, EditModeWrapper};
use tk_pie::editor::mat::Mat;
use tk_pie::editor::ron_utils::RonEdit;
use tk_pie::editor::serial::port::{HostRead, ReadBuffer};
use tk_pie::editor::serial::scan::{is_bus_name, is_serial_candidate, is_serial_device, parse_env, parse_properties, pick_serial};
use tk_pie::editor::serial::state::SerialLog;
use tk_pie::keys::Key;
use tk_pie::layer::Layer;
use tk_pie::serial_proto::owned::{ChangeLayer, DeviceMsg, LogRecord};
use tk_pie::usb::serial::Unpacked;

#[test]
fn mat_shapes() {
    let mut m: Mat<u8> = Mat::new();
    assert_eq!(m.size(), (0, 0));
    m.push_row(1);
    assert_eq!(m.size(), (1, 1));
    m.push_col(2);
    m.push_row(3);
    assert_eq!(m.size(), (2, 2));
    assert_eq!(m.iter_rf().into_iter().copied().collect::<Vec<_>>(), vec![1, 2, 3, 3]);
    assert_eq!(m.iter_cf().into_iter().copied().collect::<Vec<_>>(), vec![1, 3, 2, 3]);
    *m.get_mut(1, 0).unwrap() = 9;
    assert!(m.get_mut(2, 0).is_none());
    assert_eq!(m.iter_rf().into_iter().copied().collect::<Vec<_>>(), vec![1, 9, 3, 3]);
    m.remove_col(0);
    assert_eq!(m.size(), (1, 2));
    m.remove_row(1);
    assert_eq!(m.size(), (1, 1));
    m.remove_row(0);
    assert_eq!(m.size(), (0, 0));
}

fn ron_layer(buttons: Vec<Button>) -> RonEdit<Layer> {
    RonEdit { t: Layer { buttons }, ron: String::new(), error: String::new() }
}

#[test]
fn edit_mode_assigns_keys() {
    let mut wrapper = EditModeWrapper::default();
    wrapper.toggle_edit_mode();
    assert_eq!(wrapper.edit_mode, Some(EditMode { selected_button: None }));
    let mut layers = Mat::new();
    layers.push_row(ron_layer(vec![Button::Key(Key::A)]));
    // nothing selected: nothing happens
    assert_eq!(wrapper.assign_key(&mut layers, Some(Button::Key(Key::B))), None);
    wrapper.edit_mode = Some(EditMode {
        selected_button: Some(ButtonIdentifier { layer_x: 0, layer_y: 0, index: 3 }),
    });
    assert_eq!(wrapper.assign_key(&mut layers, Some(Button::Key(Key::B))), Some((0, 0)));
    assert_eq!(wrapper.edit_mode, Some(EditMode { selected_button: None }));
    let layer = layers.get_mut(0, 0).unwrap();
    assert_eq!(
        layer.t.buttons,
        vec![Button::Key(Key::A), Button::Empty, Button::Empty, Button::Key(Key::B)]
    );
    wrapper.toggle_edit_mode();
    assert_eq!(wrapper.edit_mode, None);
}

#[test]
fn assign_button_pads() {
    let mut buttons = vec![Button::Key(Key::A), Button::Key(Key::B)];
    assign_button(&mut buttons, 0, Button::Key(Key::C));
    assert_eq!(buttons, vec![Button::Key(Key::C), Button::Key(Key::B)]);
    assign_button(&mut buttons, 2, Button::Empty);
    assert_eq!(buttons.len(), 3);
}

const UDEV: &str = "DEVPATH='/devices/x'\nID_MODEL='Tangentbord1'\nID_SERIAL=Tux_Tangentbord1_1\r\nID_SERIAL_SHORT='1'\nnot a pair\nID_VENDOR='Tux'\nID_VENDOR_ID='b00b'\nID_USB_TYPE='generic'\nID_USB_DRIVER='cdc_acm'\nID_MODEL='Tangentbord1'";

#[test]
fn udev_properties() {
    let pairs = parse_env(UDEV);
    assert_eq!(pairs.len(), 9);
    assert_eq!(pairs[0], ("DEVPATH".to_string(), "/devices/x".to_string()));
    assert_eq!(pairs[2], ("ID_SERIAL".to_string(), "Tux_Tangentbord1_1".to_string()));
    let props = parse_properties(&pairs).unwrap();
    assert_eq!(props.model, "Tangentbord1");
    assert_eq!(props.serial_short, "1");
    assert!(is_serial_device(&props));
    let partial = parse_env("ID_MODEL='x'\n");
    assert!(parse_properties(&partial).is_none());
}

#[test]
fn env_edge_cases() {
    assert!(parse_env("").is_empty());
    assert_eq!(parse_env("A=''b=c''\n\nB="), vec![
        ("A".to_string(), "b=c".to_string()),
        ("B".to_string(), String::new()),
    ]);
}

fn log(n: u64) -> DeviceMsg {
    DeviceMsg::Log(LogRecord { timestamp: n, level: "INFO".into(), message: format!("{n}") })
}

#[test]
fn serial_log_keeps_ten() {
    let mut s = SerialLog::new();
    for n in 0..15 {
        s.on_message(log(n));
    }
    assert_eq!(s.logs.len(), 10);
    assert_eq!(s.logs.front().unwrap().timestamp, 5);
    s.on_message(DeviceMsg::ChangeLayer(ChangeLayer { x: 1, y: 2 }));
    assert_eq!(s.active_layer, Some((1, 2)));
}

#[test]
fn host_read_buffer() {
    let mut b = ReadBuffer::new();
    assert_eq!(b.on_read(&[]), HostRead::Eof);
    assert_eq!(b.on_read(&[1, 2, 3]), HostRead::Decode);
    assert!(b.timeout_armed());
    assert!(b.after_unpack(Unpacked::Message { consumed: 1 }));
    assert_eq!(b.pending(), &[2, 3]);
    assert!(!b.after_unpack(Unpacked::UnexpectedEof));
    assert!(!b.after_unpack(Unpacked::Corrupt));
    assert!(!b.timeout_armed());
    assert_eq!(b.on_read(&vec![0u8; 20000]), HostRead::Overflow);
    assert!(b.pending().is_empty());
}

#[test]
fn serial_device_choice() {
    assert!(is_bus_name("bus/usb/001/002"));
    assert!(is_bus_name("bus"));
    assert!(!is_bus_name("ttyACM0"));
    assert!(!is_bus_name("busy/x"));
    assert!(!is_bus_name("bu"));

    let keyboard = parse_env(UDEV);
    let other = parse_env("ID_MODEL='Mouse'\nID_SERIAL=a\nID_SERIAL_SHORT=b\nID_VENDOR=c\nID_VENDOR_ID=d\nID_USB_TYPE=e\nID_USB_DRIVER=f\n");
    let cands = vec![
        ("bus/usb/001".to_string(), keyboard.clone()),
        ("input/mouse0".to_string(), other.clone()),
        ("ttyACM0".to_string(), keyboard.clone()),
        ("ttyACM1".to_string(), keyboard.clone()),
    ];
    assert_eq!(pick_serial(&cands), Some(2));
    assert_eq!(pick_serial(&cands[..2].to_vec()), None);
    assert_eq!(pick_serial(&vec![]), None);
}

#[test]
fn removing_columns_keeps_the_matrix_rectangular() {
    let mut m: Mat<u8> = Mat::new();
    m.push_row(1);
    m.push_col(2);
    m.push_col(3);
    m.push_row(4);
    assert_eq!(m.size(), (3, 2));
    m.remove_col(1);
    assert_eq!(m.size(), (2, 2));
    assert_eq!(m.iter_rf().into_iter().copied().collect::<Vec<_>>(), vec![1, 3, 4, 4]);
    m.remove_col(1);
    assert_eq!(m.size(), (1, 2));
    m.remove_col(0);
    assert_eq!(m.size(), (0, 0));
}

#[test]
fn serial_candidates_one_by_one() {
    let keyboard = parse_env(UDEV);
    assert!(is_serial_candidate("ttyACM0", &keyboard));
    assert!(!is_serial_candidate("bus/usb/001", &keyboard));
    assert!(!is_serial_candidate("ttyACM0", &parse_env("ID_MODEL='Tangentbord1'\n")));
}
