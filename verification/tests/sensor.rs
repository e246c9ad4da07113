use gyrolog::bus::{read_frame, write_frame, BusOp};
use gyrolog::sensor::{
    combine_raw, decode_sample, init_plan, is_byte_swapped, scale_axis, scale_of, InitError,
    RegWrite, CTRL_REG1, CTRL_REG2, CTRL_REG4, CTRL_REG5, WHO_AM_I,
};

#[test]
fn identity_gate_accepts_the_expected_device() {
    let writes = init_plan(0xd4).expect("a matching identity yields the writes");
    assert_eq!(
        writes,
        vec![
            RegWrite { reg: 0x20, value: 0xff },
            RegWrite { reg: 0x21, value: 0x00 },
            RegWrite { reg: 0x23, value: 0x10 },
            RegWrite { reg: 0x24, value: 0x10 },
        ]
    );
    assert_eq!(writes[0].reg, CTRL_REG1);
    assert_eq!(writes[1].reg, CTRL_REG2);
    assert_eq!(writes[2].reg, CTRL_REG4);
    assert_eq!(writes[3].reg, CTRL_REG5);
}

#[test]
fn identity_gate_refuses_any_other_identity() {
    assert_eq!(init_plan(0x00), Err(InitError::UnexpectedDevice));
    assert_eq!(init_plan(0xd3), Err(InitError::UnexpectedDevice));
    assert_eq!(init_plan(0xd5), Err(InitError::UnexpectedDevice));
    assert_eq!(init_plan(0xff), Err(InitError::UnexpectedDevice));
    for identity in 0..=0xffu8 {
        if identity != 0xd4 {
            assert_eq!(init_plan(identity), Err(InitError::UnexpectedDevice));
        }
    }
}

#[test]
fn read_transactions_set_the_top_address_bit() {
    let ops = read_frame(WHO_AM_I);
    assert_eq!(
        ops,
        vec![
            BusOp::Select,
            BusOp::Exchange(0x8f),
            BusOp::Exchange(0x00),
            BusOp::Release,
        ]
    );
    let ops = read_frame(0x28);
    assert_eq!(ops[1], BusOp::Exchange(0xa8));
}

#[test]
fn write_transactions_clear_the_top_address_bit() {
    let ops = write_frame(CTRL_REG1, 0xff);
    assert_eq!(
        ops,
        vec![
            BusOp::Select,
            BusOp::Exchange(0x20),
            BusOp::Exchange(0xff),
            BusOp::Release,
        ]
    );
    let ops = write_frame(0xa3, 0x10);
    assert_eq!(ops[1], BusOp::Exchange(0x23));
}

#[test]
fn chip_select_brackets_every_transaction() {
    for reg in [0x0fu8, 0x20, 0x23, 0x28, 0x2d] {
        let read = read_frame(reg);
        assert_eq!(read.len(), 4);
        assert_eq!(read[0], BusOp::Select);
        assert_eq!(read[3], BusOp::Release);
        let write = write_frame(reg, 0x55);
        assert_eq!(write.len(), 4);
        assert_eq!(write[0], BusOp::Select);
        assert_eq!(write[3], BusOp::Release);
    }
}

#[test]
fn plain_byte_order_keeps_the_low_register_least_significant() {
    assert!(!is_byte_swapped(0x10));
    assert_eq!(combine_raw(0x34, 0x12, false), 0x1234);
}

#[test]
fn swapped_byte_order_makes_the_low_register_most_significant() {
    assert!(is_byte_swapped(0x50));
    assert_eq!(combine_raw(0x34, 0x12, true), 0x3412);
}

#[test]
fn scale_table_follows_the_control_register() {
    assert_eq!(scale_of(0x00), 875);
    assert_eq!(scale_of(0x10), 1750);
    assert_eq!(scale_of(0x20), 7000);
    assert_eq!(scale_of(0x30), 0);
    assert_eq!(scale_of(0x57), 1750);
    assert_eq!(scale_of(0xef), 7000);
}

#[test]
fn scaling_divides_by_one_hundred_truncating() {
    assert_eq!(scale_axis(100, 1750), 1750);
    assert_eq!(scale_axis(1, 875), 8);
    assert_eq!(scale_axis(-1, 875), -8);
    assert_eq!(scale_axis(3, 875), 26);
    assert_eq!(scale_axis(0, 7000), 0);
    assert_eq!(scale_axis(i16::MAX, 7000), 2293690);
    assert_eq!(scale_axis(i16::MIN, 7000), -2293760);
}

#[test]
fn negative_raw_values_decode_signed_not_wrapped() {
    assert_eq!(combine_raw(0xf0, 0xff, false), -16);
    assert_eq!(combine_raw(0xf0, 0xff, true), -3841);
    assert_eq!(combine_raw(0x00, 0x80, false), i16::MIN);
    assert_eq!(combine_raw(0x80, 0x00, true), i16::MIN);
    assert_eq!(scale_axis(-16, 875), -140);
}

#[test]
fn sample_decodes_all_three_axes() {
    let s = decode_sample(0x10, 0x64, 0x00, 0x01, 0x00, 0xf0, 0xff);
    assert_eq!(s.x, 1750);
    assert_eq!(s.y, 17);
    assert_eq!(s.z, -280);
}

#[test]
fn swapped_sample_reverses_byte_roles() {
    let s = decode_sample(0x40, 0x12, 0x34, 0x00, 0x00, 0x00, 0x00);
    assert_eq!(s.x, (0x1234 * 875) / 100);
}

#[test]
fn reserved_scale_zeroes_every_axis() {
    let s = decode_sample(0x30, 0x34, 0x12, 0xff, 0x7f, 0xf0, 0xff);
    assert_eq!(s.x, 0);
    assert_eq!(s.y, 0);
    assert_eq!(s.z, 0);
}
