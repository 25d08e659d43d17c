use nxt::error::Error;
use nxt::exchange::Request;
use nxt::motor::{OutMode, OutPort, RegulationMode, RunState, RUN_FOREVER};
use nxt::sensor::{InPort, SensorMode, SensorType};
use nxt::system::{BufType, FileHandle, FindFileHandle, ModuleHandle};
use nxt::{Nxt, MAX_INBOX_ID, MAX_MESSAGE_LEN};

fn bytes(r: Result<Request, Error>) -> Vec<u8> {
    r.unwrap().bytes().to_vec()
}

fn named(head: &[u8], name: &str, tail: &[u8]) -> Vec<u8> {
    let mut v = head.to_vec();
    v.extend_from_slice(name.as_bytes());
    v.resize(head.len() + 20, 0);
    v.extend_from_slice(tail);
    v
}

const HANDLE: FileHandle = FileHandle { handle: 5, len: 9 };

#[test]
fn commands_without_arguments() {
    let nxt = Nxt::unnamed();
    assert_eq!(bytes(nxt.get_battery_level()), [0, 0x0b]);
    assert_eq!(bytes(nxt.stop_program()), [0, 0x01]);
    assert_eq!(bytes(nxt.stop_sound_playback()), [0, 0x0c]);
    assert_eq!(bytes(nxt.keep_alive()), [0, 0x0d]);
    assert_eq!(bytes(nxt.get_current_program_name()), [0, 0x11]);
    assert_eq!(bytes(nxt.get_firmware_version()), [1, 0x88]);
    assert_eq!(bytes(nxt.get_bt_addr()), [1, 0x9a]);
    assert_eq!(bytes(nxt.get_device_info()), [1, 0x9b]);
    assert_eq!(bytes(nxt.delete_user_flash()), [1, 0xa0]);
    assert_eq!(bytes(nxt.bluetooth_factory_reset()), [1, 0xa4]);
}

#[test]
fn readme_motor_commands() {
    let nxt = Nxt::unnamed();
    let run = nxt.set_output_state(
        OutPort::A,
        80,
        OutMode::on() | OutMode::regulated(),
        RegulationMode::Speed,
        0,
        RunState::Running,
        RUN_FOREVER,
    );
    assert_eq!(bytes(run), [0, 4, 0, 80, 5, 1, 0, 0x20, 0, 0, 0, 0]);
    let stop = nxt.set_output_state(
        OutPort::A,
        0,
        OutMode::idle(),
        RegulationMode::default(),
        0,
        RunState::Running,
        RUN_FOREVER,
    );
    assert_eq!(bytes(stop), [0, 4, 0, 0, 0, 0, 0, 0x20, 0, 0, 0, 0]);
}

#[test]
fn motor_commands_with_negative_numbers() {
    let nxt = Nxt::unnamed();
    let r = nxt.set_output_state(
        OutPort::ABC,
        -80,
        OutMode::brake() | OutMode::on(),
        RegulationMode::Sync,
        -1,
        RunState::RampDown,
        0x0102_0304,
    );
    assert_eq!(bytes(r), [0, 4, 6, 0xb0, 3, 2, 0xff, 0x40, 4, 3, 2, 1]);
    assert_eq!(bytes(nxt.get_output_state(OutPort::B)), [0, 6, 1]);
    assert_eq!(bytes(nxt.reset_motor_position(OutPort::C, true)), [0, 0x0a, 2, 1]);
    assert_eq!(bytes(nxt.reset_motor_position(OutPort::BC, false)), [0, 0x0a, 5, 0]);
}

#[test]
fn sensor_commands() {
    let nxt = Nxt::unnamed();
    let r = nxt.set_input_mode(InPort::S2, SensorType::LowSpeed9V, SensorMode::AngleSteps);
    assert_eq!(bytes(r), [0, 5, 1, 0x0b, 0xe0]);
    assert_eq!(bytes(nxt.get_input_values(InPort::S4)), [0, 7, 3]);
    assert_eq!(bytes(nxt.reset_input_scaled_value(InPort::S1)), [0, 8, 0]);
    assert_eq!(bytes(nxt.ls_get_status(InPort::S3)), [0, 0x0e, 2]);
    assert_eq!(bytes(nxt.ls_read(InPort::S3)), [0, 0x10, 2]);
    assert_eq!(bytes(nxt.ls_write(InPort::S3, &[2, 0x42], 1)), [0, 0x0f, 2, 2, 1, 2, 0x42]);
}

#[test]
fn low_speed_data_is_limited() {
    let nxt = Nxt::unnamed();
    let longest = vec![7; MAX_MESSAGE_LEN];
    assert_eq!(bytes(nxt.ls_write(InPort::S1, &longest, 0)).len(), 63);
    let too_long = vec![7; MAX_MESSAGE_LEN + 1];
    assert_eq!(
        nxt.ls_write(InPort::S1, &too_long, 0).unwrap_err(),
        Error::Serialise("Data too long")
    );
}

#[test]
fn sounds() {
    let nxt = Nxt::unnamed();
    assert_eq!(bytes(nxt.play_tone(440, 500)), [0, 3, 0xb8, 1, 0xf4, 1]);
    assert_eq!(bytes(nxt.play_sound("a.rso", true)), named(&[0, 2, 1], "a.rso", &[]));
    assert_eq!(bytes(nxt.play_sound("a.rso", false)), named(&[0, 2, 0], "a.rso", &[]));
}

#[test]
fn programs() {
    let nxt = Nxt::unnamed();
    assert_eq!(bytes(nxt.start_program("demo.rxe")), named(&[0, 0], "demo.rxe", &[]));
}

#[test]
fn messages() {
    let nxt = Nxt::unnamed();
    assert_eq!(bytes(nxt.message_write(3, b"hi")), [0, 9, 3, 3, b'h', b'i', 0]);
    assert_eq!(bytes(nxt.message_write(0, b"")), [0, 9, 0, 1, 0]);
    assert_eq!(bytes(nxt.message_read(10, 0, true)), [0, 0x13, 10, 0, 1]);
}

#[test]
fn messages_are_limited() {
    let nxt = Nxt::unnamed();
    let longest = vec![1; MAX_MESSAGE_LEN];
    let sent = bytes(nxt.message_write(MAX_INBOX_ID, &longest));
    assert_eq!(sent.len(), 63);
    assert_eq!(&sent[..4], [0, 9, 19, 59]);
    assert_eq!(
        nxt.message_write(MAX_INBOX_ID + 1, b"hi").unwrap_err(),
        Error::Serialise("Invalid mailbox ID")
    );
    let too_long = vec![1; MAX_MESSAGE_LEN + 1];
    assert_eq!(
        nxt.message_write(0, &too_long).unwrap_err(),
        Error::Serialise("Message too long (max 58 bytes)")
    );
    assert_eq!(
        nxt.message_write(20, &too_long).unwrap_err(),
        Error::Serialise("Invalid mailbox ID")
    );
}

#[test]
fn opening_files() {
    let nxt = Nxt::unnamed();
    let len = [4, 3, 2, 1];
    let n = 0x0102_0304;
    assert_eq!(bytes(nxt.file_open_read("f")), named(&[1, 0x80], "f", &[]));
    assert_eq!(bytes(nxt.file_open_write("f", n)), named(&[1, 0x81], "f", &len));
    assert_eq!(bytes(nxt.file_open_write_linear("f", n)), named(&[1, 0x89], "f", &len));
    assert_eq!(bytes(nxt.file_open_read_linear("f", n)), named(&[1, 0x8a], "f", &len));
    assert_eq!(bytes(nxt.file_open_write_data("f", n)), named(&[1, 0x8b], "f", &len));
    assert_eq!(bytes(nxt.file_open_append_data("f")), named(&[1, 0x8c], "f", &[]));
    assert_eq!(bytes(nxt.file_delete("f")), named(&[1, 0x85], "f", &[]));
    assert_eq!(bytes(nxt.file_find_first("*.*")), named(&[1, 0x86], "*.*", &[]));
    assert_eq!(bytes(nxt.module_find_first("*.*")), named(&[1, 0x90], "*.*", &[]));
}

#[test]
fn file_names_are_limited() {
    let nxt = Nxt::unnamed();
    let longest = "fifteen_chars_x.rxe";
    assert_eq!(longest.len(), 19);
    assert_eq!(bytes(nxt.file_delete(longest)), named(&[1, 0x85], longest, &[]));
    let too_long = "fifteen_chars_xy.rxe";
    let error = Error::Serialise("String too long");
    assert_eq!(nxt.file_delete(too_long).unwrap_err(), error);
    assert_eq!(nxt.file_open_read(too_long).unwrap_err(), error);
    assert_eq!(nxt.file_open_write(too_long, 1).unwrap_err(), error);
    assert_eq!(nxt.start_program(too_long).unwrap_err(), error);
    assert_eq!(nxt.play_sound(too_long, true).unwrap_err(), error);
    assert_eq!(nxt.module_find_first(too_long).unwrap_err(), error);
    // the limit is on bytes, not on characters
    assert_eq!(nxt.file_delete("\u{e4}\u{e4}\u{e4}\u{e4}\u{e4}\u{e4}\u{e4}\u{e4}\u{e4}\u{e4}").unwrap_err(), error);
}

#[test]
fn open_files() {
    let nxt = Nxt::unnamed();
    assert_eq!(bytes(nxt.file_read(&HANDLE, 0x10)), [1, 0x82, 5, 0x10, 0, 0, 0]);
    assert_eq!(bytes(nxt.file_write(&HANDLE, &[8, 9])), [1, 0x83, 5, 8, 9]);
    assert_eq!(bytes(nxt.file_close(&HANDLE)), [1, 0x84, 5]);
    let found = FindFileHandle { handle: 6, name: String::from("f"), len: 0 };
    assert_eq!(bytes(nxt.file_find_next(&found)), [1, 0x87, 6]);
}

#[test]
fn data_must_fit_into_a_packet() {
    let nxt = Nxt::unnamed();
    assert_eq!(bytes(nxt.file_write(&HANDLE, &[0; 61])).len(), 64);
    assert_eq!(
        nxt.file_write(&HANDLE, &[0; 62]).unwrap_err(),
        Error::Serialise("Packet too long")
    );
    assert_eq!(bytes(nxt.write_io_map(1, 2, &[0; 54])).len(), 64);
    assert_eq!(
        nxt.write_io_map(1, 2, &[0; 55]).unwrap_err(),
        Error::Serialise("Packet too long")
    );
    assert_eq!(
        nxt.write_io_map(1, 2, &vec![0; 0xffff]).unwrap_err(),
        Error::Serialise("Packet too long")
    );
    assert_eq!(nxt.write_io_map(1, 2, &vec![0; 0x1_0000]).unwrap_err(), Error::TryFromInt);
}

#[test]
fn modules() {
    let nxt = Nxt::unnamed();
    let module = ModuleHandle { handle: 7, name: String::from("m"), id: 1, len: 2, iomap_len: 3 };
    assert_eq!(bytes(nxt.module_find_next(&module)), [1, 0x91, 7]);
    assert_eq!(bytes(nxt.module_close(&module)), [1, 0x92, 7]);
    assert_eq!(
        bytes(nxt.read_io_map(0xa0001, 119, 32)),
        [1, 0x94, 1, 0, 0x0a, 0, 119, 0, 32, 0]
    );
    assert_eq!(
        bytes(nxt.write_io_map(0xa0001, 0x102, &[8, 9])),
        [1, 0x95, 1, 0, 0x0a, 0, 2, 1, 2, 0, 8, 9]
    );
}

#[test]
fn booting_needs_to_be_sure() {
    let nxt = Nxt::unnamed();
    let mut expected = vec![1, 0x97];
    expected.extend_from_slice(b"Let's dance: SAMBA\0");
    assert_eq!(bytes(nxt.boot(true)), expected);
    assert_eq!(
        nxt.boot(false).unwrap_err(),
        Error::Serialise("Are you sure? This is not recoverable")
    );
}

#[test]
fn brick_names_are_limited() {
    let nxt = Nxt::unnamed();
    let mut expected = vec![1, 0x98];
    expected.extend_from_slice(b"robot\0\0\0\0\0\0\0\0\0\0\0");
    assert_eq!(bytes(nxt.set_brick_name("robot")), expected);
    assert_eq!(bytes(nxt.set_brick_name("exactly fifteen")).len(), 18);
    assert_eq!(
        nxt.set_brick_name("just over fifteen").unwrap_err(),
        Error::Serialise("String too long")
    );
}

#[test]
fn polling() {
    let nxt = Nxt::unnamed();
    assert_eq!(bytes(nxt.poll_command_length(BufType::Poll)), [1, 0xa1, 0]);
    assert_eq!(bytes(nxt.poll_command(BufType::HighSpeed, 12)), [1, 0xa2, 1, 12]);
}
