use qarax::console::{
    console_input_action, console_open, console_read_output, ConsoleAction, ConsoleInput, PtyRead,
    CONSOLE_CHUNK_SIZE,
};

fn input(vm_id: &str, data: &[u8], resize: bool) -> ConsoleInput {
    ConsoleInput {
        vm_id: vm_id.to_string(),
        data: data.to_vec(),
        resize,
        cols: 80,
        rows: 24,
    }
}

#[test]
fn attach_opens_on_the_first_message() {
    let (vm_id, data) = console_open(Some(input("vm-1", b"ls\n", false))).unwrap();
    assert_eq!(vm_id, "vm-1");
    assert_eq!(data, b"ls\n");
    assert_eq!(console_open(None).unwrap_err(), "Empty input stream");
}

#[test]
fn inbound_messages_route_by_kind() {
    match console_input_action(input("vm-1", b"", true)) {
        ConsoleAction::Resize(cols, rows) => assert_eq!((cols, rows), (80, 24)),
        _ => panic!("a resize message must resize"),
    }
    match console_input_action(input("vm-1", b"echo\n", false)) {
        ConsoleAction::Write(data) => assert_eq!(data, b"echo\n"),
        _ => panic!("data must be written"),
    }
    assert!(matches!(
        console_input_action(input("vm-1", b"", false)),
        ConsoleAction::Ignore
    ));
}

#[test]
fn pty_reads_map_onto_the_stream() {
    assert!(console_read_output(PtyRead::Eof).is_none());
    let out = console_read_output(PtyRead::Data(b"boot".to_vec())).unwrap();
    assert!(!out.error);
    assert_eq!(out.data, b"boot");
    assert!(out.error_message.is_empty());
    let out = console_read_output(PtyRead::Failed("gone".to_string())).unwrap();
    assert!(out.error);
    assert!(out.data.is_empty());
    assert_eq!(out.error_message, "PTY read error: gone");
    assert_eq!(CONSOLE_CHUNK_SIZE, 4096);
}
