use nxt::motor::{OutMode, OutPort, RegulationMode, RunState};
use nxt::opcode::Opcode;
use nxt::protocol::Packet;
use nxt::sensor::{InPort, SensorMode, SensorType};

#[test]
fn codes_are_found_again() {
    let mut counts = [0; 7];
    for code in 0..=u8::MAX {
        if let Ok(v) = Opcode::try_from(code) {
            assert_eq!(v.code(), code);
            assert_eq!(v.command_type(), u8::from(code >= 0x80));
            counts[0] += 1;
        }
        if let Ok(v) = OutPort::try_from(code) {
            assert_eq!(v.code(), code);
            counts[1] += 1;
        }
        if let Ok(v) = RegulationMode::try_from(code) {
            assert_eq!(v.code(), code);
            counts[2] += 1;
        }
        if let Ok(v) = RunState::try_from(code) {
            assert_eq!(v.code(), code);
            counts[3] += 1;
        }
        if let Ok(v) = InPort::try_from(code) {
            assert_eq!(v.code(), code);
            counts[4] += 1;
        }
        if let Ok(v) = SensorType::try_from(code) {
            assert_eq!(v.code(), code);
            counts[5] += 1;
        }
        if let Ok(v) = SensorMode::try_from(code) {
            assert_eq!(v.code(), code);
            counts[6] += 1;
        }
    }
    assert_eq!(counts, [45, 7, 3, 4, 4, 18, 8]);
}

#[test]
fn mode_flags_combine() {
    assert_eq!(OutMode::on() | OutMode::brake() | OutMode::regulated(), OutMode(7));
    assert_eq!(OutMode::from(5), OutMode::on() | OutMode::regulated());
    assert_eq!(OutMode::idle() | OutMode::idle(), OutMode(0));
}

#[test]
fn packet_values_are_read_back() {
    let mut pkt = Packet::new(Opcode::DirectPlayTone);
    pkt.push_u8(200);
    pkt.push_i8(-128);
    pkt.push_bool(true);
    pkt.push_u16(0xfffe);
    pkt.push_u32(0xffff_fffe);
    pkt.push_str("h\u{e9}", 4).unwrap();
    pkt.push_slice(&[1, 2]);
    assert_eq!(pkt.read_u8(), Ok(200));
    assert_eq!(pkt.read_i8(), Ok(-128));
    assert_eq!(pkt.read_bool(), Ok(true));
    assert_eq!(pkt.read_i16(), Ok(-2));
    assert_eq!(pkt.read_i32(), Ok(-2));
    assert_eq!(pkt.read_string(5), Ok(String::from("h\u{e9}")));
    assert!(pkt.read_slice(3).is_err());
    assert_eq!(pkt.read_slice(2), Ok(vec![1, 2]));
    assert!(pkt.read_u8().is_err());
}
