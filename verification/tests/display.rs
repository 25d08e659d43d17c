use nxt::display::{DisplayRead, DisplayStep};
use nxt::{Nxt, DISPLAY_DATA_LEN, DISPLAY_HEIGHT, DISPLAY_WIDTH};

#[test]
fn display_is_read_in_chunks() {
    assert_eq!(DISPLAY_DATA_LEN, 800);
    assert_eq!(DISPLAY_WIDTH * DISPLAY_HEIGHT, 6400);
    let screen: Vec<u8> = (0..DISPLAY_DATA_LEN).map(|i| (i % 251) as u8).collect();
    let nxt = Nxt::unnamed();
    let mut read = DisplayRead::new();
    let mut chunks = 0;
    let data = loop {
        let req = match nxt.get_display_data(&read).unwrap() {
            DisplayStep::Send(req) => req,
            DisplayStep::Complete(data) => break data,
        };
        let b = req.bytes().to_vec();
        assert_eq!(&b[..6], [1, 0x94, 1, 0, 0x0a, 0]);
        let offset = usize::from(b[6]) + 256 * usize::from(b[7]) - 119;
        let count = usize::from(b[8]) + 256 * usize::from(b[9]);
        assert_eq!(offset, 32 * chunks);
        assert_eq!(count, 32);
        let mut answer = vec![2, 0x94, 0, 1, 0, 0x0a, 0, 32, 0];
        answer.extend_from_slice(&screen[offset..offset + count]);
        let recv = req.sent(b.len()).unwrap().recv(&answer).unwrap();
        read.push_chunk(&Nxt::read_io_map_reply(recv).unwrap());
        chunks += 1;
    };
    assert_eq!(chunks, 25);
    assert!(read.is_complete());
    assert_eq!(data.to_vec(), screen);
}
