use nxt::error::{Error, ERR_NO_PROG};
use nxt::exchange::Request;
use nxt::motor::{OutMode, OutPort, OutputState, RegulationMode, RunState};
use nxt::protocol::Packet;
use nxt::sensor::{InPort, InputValues, SensorMode, SensorType};
use nxt::system::{BufType, DeviceInfo, FileHandle, FindFileHandle, FwVersion, ModuleHandle};
use nxt::Nxt;

fn answer(r: Result<Request, Error>, reply: &[u8]) -> Result<Packet, Error> {
    let req = r.unwrap();
    let written = req.bytes().len();
    req.sent(written).unwrap().recv(reply)
}

/// The reply to the request with the given payload and status zero
fn reply(r: Result<Request, Error>, payload: &[u8]) -> Packet {
    let req = r.unwrap();
    let mut bytes = vec![2, req.bytes()[1], 0];
    bytes.extend_from_slice(payload);
    answer(Ok(req), &bytes).unwrap()
}

const TRUNCATED: Error = Error::Parse("Unexpected end of packet");

fn padded(head: &[u8], text: &[u8], len: usize, tail: &[u8]) -> Vec<u8> {
    let mut v = head.to_vec();
    v.extend_from_slice(text);
    v.resize(head.len() + len, 0);
    v.extend_from_slice(tail);
    v
}

#[test]
fn incomplete_write_is_reported() {
    let nxt = Nxt::unnamed();
    assert_eq!(nxt.stop_program().unwrap().sent(1).unwrap_err(), Error::Write);
    assert_eq!(nxt.stop_program().unwrap().sent(3).unwrap_err(), Error::Write);
    assert!(nxt.stop_program().unwrap().sent(2).is_ok());
}

#[test]
fn refused_command_reports_status() {
    let nxt = Nxt::unnamed();
    assert_eq!(
        answer(nxt.stop_program(), &[2, 1, 0xec]).unwrap_err(),
        Error::Status(ERR_NO_PROG)
    );
    // the status comes first, even if the reply is to another command
    assert_eq!(
        answer(nxt.stop_program(), &[2, 3, 0xec]).unwrap_err(),
        Error::Status(ERR_NO_PROG)
    );
}

#[test]
fn reply_to_another_command_is_a_mismatch() {
    let nxt = Nxt::unnamed();
    assert_eq!(answer(nxt.stop_program(), &[2, 3, 0]).unwrap_err(), Error::ReplyMismatch);
    assert!(answer(nxt.stop_program(), &[2, 1, 0]).is_ok());
}

#[test]
fn malformed_answers_are_rejected() {
    let nxt = Nxt::unnamed();
    assert_eq!(answer(nxt.stop_program(), &[]).unwrap_err(), TRUNCATED);
    assert_eq!(answer(nxt.stop_program(), &[2]).unwrap_err(), TRUNCATED);
    assert_eq!(answer(nxt.stop_program(), &[2, 1]).unwrap_err(), TRUNCATED);
    assert_eq!(
        answer(nxt.stop_program(), &[1, 1, 0]).unwrap_err(),
        Error::Parse("Not a reply packet")
    );
    assert_eq!(
        answer(nxt.stop_program(), &[2, 0x7f, 0]).unwrap_err(),
        Error::Parse("Invalid opcode")
    );
}

#[test]
fn recorded_input_values() {
    let nxt = Nxt::unnamed();
    let bytes = [2, 7, 0, 0, 1, 0, 1, 0x20, 0xff, 3, 0xff, 3, 0, 0, 0xff, 3];
    let recv = answer(nxt.get_input_values(InPort::S1), &bytes).unwrap();
    assert_eq!(
        Nxt::get_input_values_reply(recv),
        Ok(InputValues {
            port: InPort::S1,
            valid: true,
            calibrated: false,
            sensor_type: SensorType::Switch,
            sensor_mode: SensorMode::Bool,
            raw_value: 1023,
            normalised_value: 1023,
            scaled_value: 0,
            calibrated_value: 1023,
        })
    );
}

#[test]
fn input_values_errors_come_in_order() {
    let nxt = Nxt::unnamed();
    let read = |p: &[u8]| Nxt::get_input_values_reply(reply(nxt.get_input_values(InPort::S1), p));
    assert_eq!(read(&[]), Err(TRUNCATED));
    assert_eq!(read(&[4]), Err(Error::Parse("Invalid input port")));
    assert_eq!(read(&[0, 1, 0]), Err(TRUNCATED));
    assert_eq!(read(&[0, 1, 0, 0x12]), Err(Error::Parse("Invalid sensor type")));
    assert_eq!(read(&[0, 1, 0, 1]), Err(TRUNCATED));
    assert_eq!(read(&[0, 1, 0, 1, 1]), Err(Error::Parse("Invalid sensor mode")));
    assert_eq!(read(&[0, 1, 0, 1, 0, 1, 2, 3, 4, 5, 6, 7]), Err(TRUNCATED));
    let v = read(&[3, 0, 9, 0x11, 0xc0, 1, 2, 3, 4, 0xff, 0xff, 0, 0x80, 99]).unwrap();
    assert_eq!((v.valid, v.calibrated), (false, true));
    assert_eq!((v.raw_value, v.normalised_value), (0x201, 0x403));
    assert_eq!((v.scaled_value, v.calibrated_value), (-1, i16::MIN));
}

#[test]
fn output_state() {
    let nxt = Nxt::unnamed();
    let read = |p: &[u8]| Nxt::get_output_state_reply(reply(nxt.get_output_state(OutPort::B), p));
    let bytes = [
        1, 0xb0, 5, 1, 0x7f, 0x20, 0x68, 1, 0, 0, 0xff, 0xff, 0xff, 0xff, 0, 0, 0, 0x80, 4, 3, 2, 1,
    ];
    assert_eq!(
        read(&bytes),
        Ok(OutputState {
            port: OutPort::B,
            power: -80,
            mode: OutMode::on() | OutMode::regulated(),
            regulation_mode: RegulationMode::Speed,
            turn_ratio: 127,
            run_state: RunState::Running,
            tacho_limit: 360,
            tacho_count: -1,
            block_tacho_count: i32::MIN,
            rotation_count: 0x0102_0304,
        })
    );
    assert_eq!(read(&bytes[..21]), Err(TRUNCATED));
    assert_eq!(read(&[7]), Err(Error::Parse("Invalid output port")));
    assert_eq!(read(&[0, 0, 0]), Err(TRUNCATED));
    assert_eq!(read(&[0, 0, 0, 3]), Err(Error::Parse("Invalid regulation mode")));
    assert_eq!(read(&[0, 0, 0, 0, 0, 1]), Err(Error::Parse("Invalid run state")));
}

#[test]
fn numbers() {
    let nxt = Nxt::unnamed();
    assert_eq!(Nxt::get_battery_level_reply(reply(nxt.get_battery_level(), &[0x40, 0x1f])), Ok(8000));
    assert_eq!(Nxt::get_battery_level_reply(reply(nxt.get_battery_level(), &[1])), Err(TRUNCATED));
    assert_eq!(Nxt::keep_alive_reply(reply(nxt.keep_alive(), &[4, 3, 2, 1])), Ok(0x0102_0304));
    assert_eq!(Nxt::keep_alive_reply(reply(nxt.keep_alive(), &[4, 3, 2])), Err(TRUNCATED));
    assert_eq!(Nxt::ls_get_status_reply(reply(nxt.ls_get_status(InPort::S1), &[6])), Ok(6));
    let poll = nxt.poll_command_length(BufType::Poll);
    assert_eq!(Nxt::poll_command_length_reply(reply(poll, &[0, 9])), Ok(9));
    let write = nxt.write_io_map(1, 2, &[3]);
    assert_eq!(Nxt::write_io_map_reply(reply(write, &[1, 0, 0, 0, 2, 1])), Ok(0x102));
    let h = FileHandle { handle: 5, len: 9 };
    assert_eq!(Nxt::file_write_reply(reply(nxt.file_write(&h, &[1]), &[5, 1, 0, 0, 0])), Ok(1));
}

#[test]
fn firmware_version_has_minor_number_first() {
    let nxt = Nxt::unnamed();
    let read = |p: &[u8]| Nxt::get_firmware_version_reply(reply(nxt.get_firmware_version(), p));
    assert_eq!(read(&[124, 1, 28, 2]), Ok(FwVersion { prot: (1, 124), fw: (2, 28) }));
    assert_eq!(read(&[124, 1, 28]), Err(TRUNCATED));
}

#[test]
fn runs_of_bytes() {
    let nxt = Nxt::unnamed();
    assert_eq!(Nxt::ls_read_reply(reply(nxt.ls_read(InPort::S1), &[2, 8, 9, 0])), Ok(vec![8, 9]));
    assert_eq!(Nxt::ls_read_reply(reply(nxt.ls_read(InPort::S1), &[3, 8, 9])), Err(TRUNCATED));
    assert_eq!(Nxt::ls_read_reply(reply(nxt.ls_read(InPort::S1), &[])), Err(TRUNCATED));
    let read = nxt.message_read(0, 0, true);
    assert_eq!(Nxt::message_read_reply(reply(read, &[0, 3, b'h', b'i', 0])), Ok(b"hi\0".to_vec()));
    let h = FileHandle { handle: 5, len: 9 };
    assert_eq!(Nxt::file_read_reply(reply(nxt.file_read(&h, 1), &[5, 1, 42])), Ok(vec![42]));
    let poll = nxt.poll_command(BufType::Poll, 2);
    assert_eq!(Nxt::poll_command_reply(reply(poll, &[0, 2, 8, 9])), Ok(vec![8, 9]));
    let map = nxt.read_io_map(1, 2, 3);
    assert_eq!(
        Nxt::read_io_map_reply(reply(map, &[1, 0, 0, 0, 2, 0, 8, 9, 7])),
        Ok(vec![8, 9])
    );
    let map = nxt.read_io_map(1, 2, 3);
    assert_eq!(Nxt::read_io_map_reply(reply(map, &[1, 0, 0, 0, 2, 1, 8, 9])), Err(TRUNCATED));
    assert_eq!(Nxt::boot_reply(reply(nxt.boot(true), b"Yes\0")), Ok(b"Yes\0".to_vec()));
    assert_eq!(Nxt::boot_reply(reply(nxt.boot(true), b"Yes")), Err(TRUNCATED));
    let addr = [0, 0x16, 0x53, 1, 2, 3];
    assert_eq!(Nxt::get_bt_addr_reply(reply(nxt.get_bt_addr(), &addr)), Ok(addr));
    assert_eq!(Nxt::get_bt_addr_reply(reply(nxt.get_bt_addr(), &addr[..5])), Err(TRUNCATED));
}

#[test]
fn file_handles() {
    let nxt = Nxt::unnamed();
    let given = Ok(FileHandle { handle: 3, len: 100 });
    assert_eq!(Nxt::file_open_write_reply(reply(nxt.file_open_write("f", 100), &[3]), 100), given);
    let r = nxt.file_open_write_data("f", 100);
    assert_eq!(Nxt::file_open_write_data_reply(reply(r, &[3]), 100), given);
    let r = nxt.file_open_read_linear("f", 100);
    assert_eq!(Nxt::file_open_read_linear_reply(reply(r, &[3]), 100), given);
    let r = nxt.file_open_write_linear("f", 100);
    assert_eq!(Nxt::file_open_write_linear_reply(reply(r, &[3]), 100), given);
    let told = Ok(FileHandle { handle: 3, len: 0x201 });
    let p = [3, 1, 2, 0, 0];
    assert_eq!(Nxt::file_open_read_reply(reply(nxt.file_open_read("f"), &p)), told);
    let r = nxt.file_open_append_data("f");
    assert_eq!(Nxt::file_open_append_data_reply(reply(r, &p)), told);
    assert_eq!(
        Nxt::file_open_read_reply(reply(nxt.file_open_read("f"), &p[..4])),
        Err(TRUNCATED)
    );
    assert_eq!(
        Nxt::file_open_write_reply(reply(nxt.file_open_write("f", 100), &[]), 100),
        Err(TRUNCATED)
    );
}

#[test]
fn found_files() {
    let nxt = Nxt::unnamed();
    let first = |p: &[u8]| Nxt::file_find_first_reply(reply(nxt.file_find_first("*.*"), p));
    let found = first(&padded(&[1], "d\u{e9}mo.rxe".as_bytes(), 20, &[0x10, 0, 0, 0]));
    let expected = FindFileHandle { handle: 1, name: String::from("d\u{e9}mo.rxe"), len: 16 };
    assert_eq!(found, Ok(expected));
    assert_eq!(first(&[1, b'a']), Err(TRUNCATED));
    assert_eq!(first(&padded(&[1], b"a", 20, &[1, 2, 3])), Err(TRUNCATED));
    assert_eq!(first(&padded(&[1], &[0xff], 20, &[])), Err(Error::Parse("Invalid UTF-8")));
    let handle = FindFileHandle { handle: 1, name: String::new(), len: 0 };
    let next = reply(nxt.file_find_next(&handle), &padded(&[2], b"b\0c", 20, &[0, 1, 0, 0]));
    let expected = FindFileHandle { handle: 2, name: String::from("b"), len: 256 };
    assert_eq!(Nxt::file_find_next_reply(next), Ok(expected));
}

#[test]
fn found_modules() {
    let nxt = Nxt::unnamed();
    let tail = [1, 0, 0x0a, 0, 0, 1, 0, 0, 0x50, 2];
    let p = padded(&[1], b"Display.mod", 20, &tail);
    let expected = || ModuleHandle {
        handle: 1,
        name: String::from("Display.mod"),
        id: 0xa0001,
        len: 0x100,
        iomap_len: 0x250,
    };
    let first = reply(nxt.module_find_first("*.*"), &p);
    assert_eq!(Nxt::module_find_first_reply(first), Ok(expected()));
    let next = reply(nxt.module_find_next(&expected()), &p);
    assert_eq!(Nxt::module_find_next_reply(next), Ok(expected()));
    let short = reply(nxt.module_find_first("*.*"), &p[..30]);
    assert_eq!(Nxt::module_find_first_reply(short), Err(TRUNCATED));
}

#[test]
fn current_program() {
    let nxt = Nxt::unnamed();
    let read = |p: &[u8]| Nxt::get_current_program_name_reply(reply(nxt.get_current_program_name(), p));
    assert_eq!(read(&padded(&[], b"demo.rxe", 20, &[])), Ok(String::from("demo.rxe")));
    assert_eq!(read(b"demo.rxe"), Err(TRUNCATED));
    // a field without terminator is text to its end
    assert_eq!(read(&[b'x'; 20]), Ok("x".repeat(20)));
}

fn device_info_payload() -> Vec<u8> {
    padded(&[], b"robot", 15, &[0, 0x16, 0x53, 1, 2, 3, 99, 10, 20, 30, 40, 0, 0, 1, 0])
}

#[test]
fn device_info() {
    let nxt = Nxt::unnamed();
    let read = |p: &[u8]| Nxt::get_device_info_reply(reply(nxt.get_device_info(), p));
    let payload = device_info_payload();
    assert_eq!(
        read(&payload),
        Ok(DeviceInfo {
            name: String::from("robot"),
            bt_addr: [0, 0x16, 0x53, 1, 2, 3],
            signal_strength: (10, 20, 30, 40),
            flash: 0x1_0000,
        })
    );
    for len in 0..payload.len() {
        assert_eq!(read(&payload[..len]), Err(TRUNCATED));
    }
}

#[test]
fn brick_takes_its_name_from_device_info() {
    let nxt = Nxt::unnamed();
    assert_eq!(nxt.name(), "");
    let recv = reply(nxt.get_device_info(), &device_info_payload());
    let brick = Nxt::init(recv).ok().unwrap();
    assert_eq!(brick.name(), "robot");
    assert_eq!(brick.clone().name(), "robot");
    let bad = reply(nxt.get_device_info(), &[0xff; 30]);
    assert_eq!(Nxt::init(bad).err(), Some(Error::Parse("Invalid UTF-8")));
}

#[test]
fn file_name_sent_is_file_name_read() {
    let nxt = Nxt::unnamed();
    let sent = nxt.file_delete("song.rso").unwrap();
    let field = sent.bytes()[2..].to_vec();
    let recv = reply(nxt.get_current_program_name(), &field);
    assert_eq!(Nxt::get_current_program_name_reply(recv), Ok(String::from("song.rso")));
}
