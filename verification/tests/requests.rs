use nvim_event_logger::request::{
    nvim_attach, nvim_execute, send_request, Argument, RequestIds, BUFREAD_HOOK, REQUEST,
};

fn header(id: [u8; 4], method: &str) -> Vec<u8> {
    let mut bytes: Vec<u8> = vec![0x94, 0xd0, 0x00, 0xce];
    bytes.extend_from_slice(&id);
    bytes.push(0xa0 | method.len() as u8);
    bytes.extend_from_slice(method.as_bytes());
    bytes
}

#[test]
fn attach_request_has_the_expected_bytes() {
    let out = nvim_attach(1);
    let mut expected: Vec<u8> = header([0, 0, 0, 1], "ui_attach");
    expected.push(0x93);
    expected.extend_from_slice(&[0xd3, 0, 0, 0, 0, 0, 0, 0, 80]);
    expected.extend_from_slice(&[0xd3, 0, 0, 0, 0, 0, 0, 0, 24]);
    expected.push(0xc3);
    assert_eq!(out.pending(), &expected[..]);
    assert!(!out.is_complete());
}

#[test]
fn attach_request_carries_its_identifier() {
    let first = nvim_attach(1);
    let second = nvim_attach(0xdead_beef);
    assert_eq!(&first.pending()[4..8], &[0, 0, 0, 1]);
    assert_eq!(&second.pending()[4..8], &[0xde, 0xad, 0xbe, 0xef]);
    assert_eq!(&first.pending()[8..], &second.pending()[8..]);
}

#[test]
fn command_request_carries_the_command() {
    let out = nvim_execute(7, "echo 1").unwrap();
    let mut expected: Vec<u8> = header([0, 0, 0, 7], "vim_command");
    expected.push(0x91);
    expected.push(0xa6);
    expected.extend_from_slice(b"echo 1");
    assert_eq!(out.pending(), &expected[..]);
}

#[test]
fn hook_command_is_sent_as_one_string() {
    let out = nvim_execute(2, BUFREAD_HOOK).unwrap();
    let mut expected: Vec<u8> = header([0, 0, 0, 2], "vim_command");
    expected.push(0x91);
    expected.push(0xd9);
    expected.push(BUFREAD_HOOK.len() as u8);
    expected.extend_from_slice(BUFREAD_HOOK.as_bytes());
    assert_eq!(BUFREAD_HOOK, "au BufRead * call rpcnotify(1, \"bufread\", bufname(\"\"))");
    assert_eq!(out.pending(), &expected[..]);
}

#[test]
fn empty_command_is_a_request_too() {
    let out = nvim_execute(3, "").unwrap();
    let mut expected: Vec<u8> = header([0, 0, 0, 3], "vim_command");
    expected.push(0x91);
    expected.push(0xa0);
    assert_eq!(out.pending(), &expected[..]);
}

#[test]
fn send_request_encodes_every_kind_of_argument() {
    let args = vec![
        Argument::Integer(-1),
        Argument::Boolean(false),
        Argument::Text("é".to_string()),
    ];
    let out = send_request(0x0102_0304, "m", &args).unwrap();
    let mut expected: Vec<u8> = header([1, 2, 3, 4], "m");
    expected.push(0x93);
    expected.extend_from_slice(&[0xd3, 0xff, 0xff, 0xff, 0xff, 0xff, 0xff, 0xff, 0xff]);
    expected.push(0xc2);
    expected.extend_from_slice(&[0xa2, 0xc3, 0xa9]);
    assert_eq!(out.pending(), &expected[..]);
}

#[test]
fn send_request_without_arguments() {
    let out = send_request(9, "ping", &Vec::new()).unwrap();
    let mut expected: Vec<u8> = header([0, 0, 0, 9], "ping");
    expected.push(0x90);
    assert_eq!(out.pending(), &expected[..]);
}

#[test]
fn send_request_with_many_arguments_uses_the_long_array_form() {
    let mut args: Vec<Argument> = Vec::new();
    for _ in 0..16 {
        args.push(Argument::Boolean(true));
    }
    let out = send_request(1, "m", &args).unwrap();
    let mut expected: Vec<u8> = header([0, 0, 0, 1], "m");
    expected.extend_from_slice(&[0xdc, 0, 16]);
    expected.extend_from_slice(&[0xc3; 16]);
    assert_eq!(out.pending(), &expected[..]);
}

#[test]
fn request_kind_is_zero() {
    assert_eq!(REQUEST, 0);
    assert_eq!(nvim_attach(1).pending()[2], 0);
}

#[test]
fn request_ids_count_up_from_one() {
    let mut ids = RequestIds::new();
    assert_eq!(ids.allocate(), Some(1));
    assert_eq!(ids.allocate(), Some(2));
    assert_eq!(ids.allocate(), Some(3));
}

#[test]
fn request_ids_never_repeat() {
    let mut ids = RequestIds::new();
    let mut last: u32 = 0;
    for _ in 0..1000 {
        let id: u32 = ids.allocate().unwrap();
        assert!(id > last);
        last = id;
    }
}

#[test]
fn request_ids_go_on_after_the_last_one_used() {
    let mut ids = RequestIds::after(41);
    assert_eq!(ids.allocate(), Some(42));
    assert_eq!(ids.allocate(), Some(43));
}

#[test]
fn request_ids_run_out_after_the_largest() {
    let mut ids = RequestIds::after(u32::MAX - 1);
    assert_eq!(ids.allocate(), Some(u32::MAX));
    assert_eq!(ids.allocate(), None);
    assert_eq!(ids.allocate(), None);
}
