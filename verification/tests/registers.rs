use breeze_tool::registers::{RegisterSnapshot, REGISTER_COUNT};

fn counting_registers() -> RegisterSnapshot {
    RegisterSnapshot {
        inidisp: 1,
        obsel: 2,
        bgmode: 3,
        mosaic: 4,
        m7sel: 5,
        w12sel: 6,
        w34sel: 7,
        wobjsel: 8,
        wbglog: 9,
        wobjlog: 10,
        tm: 11,
        ts: 12,
        tmw: 13,
        tsw: 14,
        cgwsel: 15,
        cgadsub: 16,
        setini: 17,
    }
}

#[test]
fn register_table_has_17_entries() {
    assert_eq!(REGISTER_COUNT, 17);
    let addrs: Vec<u16> = (0..REGISTER_COUNT).map(RegisterSnapshot::addr).collect();
    assert_eq!(
        addrs,
        vec![
            0x2100, 0x2101, 0x2105, 0x2106, 0x211a, 0x2123, 0x2124, 0x2125, 0x212a, 0x212b,
            0x212c, 0x212d, 0x212e, 0x212f, 0x2130, 0x2131, 0x2133
        ]
    );
    let names: Vec<&str> = (0..REGISTER_COUNT).map(RegisterSnapshot::name).collect();
    assert_eq!(
        names,
        vec![
            "INIDISP", "OBSEL", "BGMODE", "MOSAIC", "M7SEL", "W12SEL", "W34SEL", "WOBJSEL",
            "WBGLOG", "WOBJLOG", "TM", "TS", "TMW", "TSW", "CGWSEL", "CGADSUB", "SETINI"
        ]
    );
}

#[test]
fn register_values_by_position() {
    let regs = counting_registers();
    for i in 0..REGISTER_COUNT {
        assert_eq!(regs.value(i), i as u8 + 1);
    }
}

#[test]
fn register_values_by_address() {
    let regs = counting_registers();
    assert_eq!(regs.get(0x2100), Some(1));
    assert_eq!(regs.get(0x2101), Some(2));
    assert_eq!(regs.get(0x211a), Some(5));
    assert_eq!(regs.get(0x2131), Some(16));
    assert_eq!(regs.get(0x2133), Some(17));
    for i in 0..REGISTER_COUNT {
        assert_eq!(regs.get(RegisterSnapshot::addr(i)), Some(regs.value(i)));
    }
}

#[test]
fn register_that_is_not_shown_has_no_value() {
    let regs = counting_registers();
    assert_eq!(regs.get(0x2102), None);
    assert_eq!(regs.get(0x2132), None);
    assert_eq!(regs.get(0), None);
    assert_eq!(regs.get(0xffff), None);
}
