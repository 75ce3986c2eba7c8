use usbd_serial::Buffer;

const DATA: &[u8] = &[1, 2, 3, 4, 5, 6, 7, 8, 9, 10, 11, 12];
const LEN: usize = 5;

fn buf() -> Buffer {
    Buffer::new(vec![0u8; LEN])
}

#[test]
fn write() {
    let mut b = buf();

    assert_eq!(b.write(&DATA[0..2]), 2);
    assert_eq!(b.available_write(), LEN - 2);
    assert_eq!(b.available_read(), 2);

    assert_eq!(b.write(&DATA[0..5]), 3);
    assert_eq!(b.available_write(), 0);
    assert_eq!(b.available_read(), LEN);
}

#[test]
fn read() {
    let mut b = buf();

    assert_eq!(b.write(&DATA[0..4]), 4);

    let _ = b.read(3, |data| {
        assert_eq!(data, &DATA[0..3]);
        Ok::<usize, ()>(data.len())
    });
    let _ = b.read(1, |data| {
        assert_eq!(data, &DATA[3..4]);
        Ok::<usize, ()>(data.len())
    });
    let _ = b.read(1, |data| {
        assert_eq!(data, &[]);
        Ok::<usize, ()>(data.len())
    });
}

#[test]
fn clear() {
    let mut b = buf();

    b.write(&DATA[0..2]);
    b.clear();

    assert_eq!(b.available_write(), LEN);
    assert_eq!(b.available_read(), 0);
}

#[test]
fn discard() {
    let mut b = buf();

    assert_eq!(b.write(&DATA[0..4]), 4);
    let _ = b.read(2, |data| {
        assert_eq!(data, &DATA[0..2]);
        Ok::<usize, ()>(data.len())
    });

    assert_eq!(b.write(&DATA[4..7]), 3);
    let _ = b.read(5, |data| {
        assert_eq!(data, &DATA[2..7]);
        Ok::<usize, ()>(data.len())
    });

    assert_eq!(b.available_read(), 0);
}

#[test]
fn write_all_reserves_a_window() {
    let mut b = buf();

    // a window larger than the whole store is refused without calling back
    let r: Result<usize, ()> = b.write_all(LEN + 1, |_w| panic!("window must not be handed out"));
    assert_eq!(r, Ok(0));

    // a window of 3 bytes, partially used
    let r: Result<usize, ()> = b.write_all(3, |w| {
        assert_eq!(w.len(), 3);
        w[0] = 42;
        w[1] = 43;
        Ok(2)
    });
    assert_eq!(r, Ok(2));
    assert_eq!(b.available_read(), 2);

    let _ = b.read(2, |data| {
        assert_eq!(data, &[42, 43]);
        Ok::<usize, ()>(data.len())
    });
    assert_eq!(b.available_read(), 0);
}

#[test]
fn write_all_compacts_and_keeps_errors_out() {
    let mut b = buf();

    assert_eq!(b.write(&DATA[0..4]), 4);
    let _ = b.read(3, |data| {
        assert_eq!(data, &DATA[0..3]);
        Ok::<usize, ()>(data.len())
    });

    // 4 bytes of room exist only after compaction
    let r: Result<usize, ()> = b.write_all(4, |w| {
        assert_eq!(w.len(), 4);
        w.copy_from_slice(&DATA[4..8]);
        Ok(4)
    });
    assert_eq!(r, Ok(4));

    // an error from the callback commits nothing
    let r: Result<usize, &str> = b.write_all(0, |_w| Err("no"));
    assert_eq!(r, Err("no"));

    let _ = b.read(5, |data| {
        assert_eq!(data, &DATA[3..8]);
        Ok::<usize, ()>(data.len())
    });
}
