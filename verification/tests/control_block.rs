use rserial::windows::dcb::{
    configure, get_dcb, set_baud_rate, set_data_bits, set_dcb, set_flow_control, set_parity,
    set_stop_bits, set_timeouts,
};
use rserial::windows::ffi::{
    fBinary, fDtrControl, fInX, fOutX, fOutxCtsFlow, fOutxDsrFlow, fParity, fRtsControl,
    HostCall, COMMTIMEOUTS, DCB,
};
use rserial::{DataBits, FlowCtrl, Parity, Serial, StopBits, Timeout};

fn all_parities() -> Vec<Parity> {
    vec![Parity::NoParity, Parity::Odd, Parity::Even, Parity::Mark, Parity::Space]
}

fn all_flow_modes() -> Vec<FlowCtrl> {
    vec![
        FlowCtrl::NoFlow,
        FlowCtrl::XOnXOff,
        FlowCtrl::RtsCts,
        FlowCtrl::DtrDsr,
        FlowCtrl::RtsCtsXOnXOff,
        FlowCtrl::DtrDsrXOnXOff,
    ]
}

fn sample_flags() -> Vec<u32> {
    vec![0, 1, 2, 0x4, 0x8, 0x30, 0x300, 0x3000, 0x3004, 0x333E, 0x0000_FFFF, 0xFFFF_FFFF, 0xA5A5_5A5A]
}

fn block_with_flags(flags: u32) -> DCB {
    let mut dcb = DCB::new();
    dcb.fBits = flags;
    dcb
}

fn busy_block() -> DCB {
    DCB {
        DCBlength: 28,
        BaudRate: 1200,
        fBits: 0xA5A5_5A5A,
        wReserved: 1,
        XonLim: 2048,
        XoffLim: 512,
        ByteSize: 7,
        Parity: 3,
        StopBits: 1,
        XonChar: 17,
        XoffChar: 19,
        ErrorChar: -1,
        EofChar: 26,
        EvtChar: 13,
        wReserved1: 9,
    }
}

#[test]
fn new_block_is_all_zero() {
    let dcb = DCB::new();
    assert_eq!(
        dcb,
        DCB {
            DCBlength: 0,
            BaudRate: 0,
            fBits: 0,
            wReserved: 0,
            XonLim: 0,
            XoffLim: 0,
            ByteSize: 0,
            Parity: 0,
            StopBits: 0,
            XonChar: 0,
            XoffChar: 0,
            ErrorChar: 0,
            EofChar: 0,
            EvtChar: 0,
            wReserved1: 0,
        }
    );
}

#[test]
fn baud_rate_is_copied_verbatim() {
    for rate in [0u32, 1, 9600, 115200, 123_457, u32::MAX] {
        let mut dcb = busy_block();
        set_baud_rate(&mut dcb, rate);
        assert_eq!(dcb, DCB { BaudRate: rate, ..busy_block() });
    }
}

#[test]
fn data_bits_read_back_as_their_number() {
    let cases = [
        (DataBits::Five, 5u8),
        (DataBits::Six, 6u8),
        (DataBits::Seven, 7u8),
        (DataBits::Eight, 8u8),
    ];
    for (bits, size) in cases {
        let mut dcb = busy_block();
        set_data_bits(&mut dcb, bits);
        assert_eq!(dcb.ByteSize, size);
        assert_eq!(dcb, DCB { ByteSize: size, ..busy_block() });
    }
}

#[test]
fn stop_bits_use_host_codes() {
    let mut dcb = busy_block();
    set_stop_bits(&mut dcb, StopBits::One);
    assert_eq!(dcb, DCB { StopBits: 0, ..busy_block() });
    set_stop_bits(&mut dcb, StopBits::Two);
    assert_eq!(dcb, DCB { StopBits: 2, ..busy_block() });
}

#[test]
fn parity_writes_code_and_enable_bit() {
    let cases = [
        (Parity::NoParity, 0u8),
        (Parity::Odd, 1u8),
        (Parity::Even, 2u8),
        (Parity::Mark, 3u8),
        (Parity::Space, 4u8),
    ];
    for (parity, code) in cases {
        for flags in sample_flags() {
            let before = DCB { fBits: flags, ..busy_block() };
            let mut dcb = before;
            set_parity(&mut dcb, parity);
            let expected_flags: u32 = if code == 0 { flags & !0x2 } else { flags | 0x2 };
            assert_eq!(dcb, DCB { Parity: code, fBits: expected_flags, ..before });
            assert_eq!(dcb.fBits & fParity != 0, parity != Parity::NoParity);
            assert_eq!(dcb.fBits & !fParity, flags & !fParity);
        }
    }
}

#[test]
fn parity_on_zero_block_sets_only_its_bit() {
    let mut dcb = DCB::new();
    set_parity(&mut dcb, Parity::Odd);
    assert_eq!(dcb.fBits, 0x0000_0002);
    assert_eq!(dcb.Parity, 1);
    set_parity(&mut dcb, Parity::NoParity);
    assert_eq!(dcb, DCB::new());
}

#[test]
fn parity_is_idempotent_and_last_write_wins() {
    for first in all_parities() {
        for second in all_parities() {
            for flags in sample_flags() {
                let mut once = block_with_flags(flags);
                set_parity(&mut once, second);

                let mut twice = block_with_flags(flags);
                set_parity(&mut twice, second);
                set_parity(&mut twice, second);
                assert_eq!(twice, once);

                let mut after_other = block_with_flags(flags);
                set_parity(&mut after_other, first);
                set_parity(&mut after_other, second);
                assert_eq!(after_other, once);
            }
        }
    }
}

#[test]
fn flow_control_exact_flag_words() {
    let all: u32 = 0xFFFF_FFFF;
    let cases = [
        (FlowCtrl::NoFlow, all, 0xFFFF_CCFBu32),
        (FlowCtrl::NoFlow, 0u32, 0u32),
        (FlowCtrl::NoFlow, 0x3304, 0),
        (FlowCtrl::NoFlow, 0x0038, 0x0038),
        (FlowCtrl::XOnXOff, 0, 0x0300),
        (FlowCtrl::XOnXOff, 0x3004, 0x3304),
        (FlowCtrl::XOnXOff, all, all),
        (FlowCtrl::RtsCts, all, 0xFFFF_CFFB),
        (FlowCtrl::RtsCts, 0x3304, 0x0300),
        (FlowCtrl::RtsCts, 0, 0),
        (FlowCtrl::DtrDsr, all, 0xFFFF_FFC7),
        (FlowCtrl::DtrDsr, 0x0038, 0),
        (FlowCtrl::DtrDsr, 0x3304, 0x3304),
        (FlowCtrl::RtsCtsXOnXOff, all, all),
        (FlowCtrl::RtsCtsXOnXOff, 0, 0),
        (FlowCtrl::RtsCtsXOnXOff, 0x1234, 0x1234),
        (FlowCtrl::DtrDsrXOnXOff, all, all),
        (FlowCtrl::DtrDsrXOnXOff, 0, 0),
        (FlowCtrl::DtrDsrXOnXOff, 0x1234, 0x1234),
    ];
    for (mode, before, after) in cases {
        let start = DCB { fBits: before, ..busy_block() };
        let mut dcb = start;
        set_flow_control(&mut dcb, mode);
        assert_eq!(dcb, DCB { fBits: after, ..start });
    }
}

#[test]
fn flow_control_is_idempotent() {
    for mode in all_flow_modes() {
        for flags in sample_flags() {
            let mut once = block_with_flags(flags);
            set_flow_control(&mut once, mode);
            let mut twice = once;
            set_flow_control(&mut twice, mode);
            assert_eq!(twice, once);
        }
    }
}

#[test]
fn no_flow_after_any_mode_clears_its_groups() {
    let governed: u32 = fOutxCtsFlow | fRtsControl | fOutX | fInX;
    assert_eq!(governed, 0x3304);
    for mode in all_flow_modes() {
        for flags in sample_flags() {
            let mut dcb = block_with_flags(flags);
            set_flow_control(&mut dcb, mode);
            set_flow_control(&mut dcb, FlowCtrl::NoFlow);
            assert_eq!(dcb.fBits & governed, 0);

            let mut baseline = block_with_flags(flags);
            set_flow_control(&mut baseline, FlowCtrl::NoFlow);
            if mode != FlowCtrl::DtrDsr {
                assert_eq!(dcb, baseline);
            } else {
                assert_eq!(dcb.fBits, baseline.fBits & !(fOutxDsrFlow | fDtrControl));
            }
        }
    }
}

#[test]
fn no_flow_leaves_dsr_and_dtr_groups_as_they_were() {
    let mut dcb = block_with_flags(fOutxDsrFlow);
    set_flow_control(&mut dcb, FlowCtrl::XOnXOff);
    set_flow_control(&mut dcb, FlowCtrl::NoFlow);
    assert_eq!(dcb.fBits, 0x0000_0008);

    let mut dcb = block_with_flags(fOutxDsrFlow | fDtrControl);
    set_flow_control(&mut dcb, FlowCtrl::DtrDsr);
    set_flow_control(&mut dcb, FlowCtrl::NoFlow);
    assert_eq!(dcb.fBits, 0);

    let every_group: u32 = fOutxCtsFlow | fRtsControl | fOutX | fInX | fOutxDsrFlow | fDtrControl;
    for mode in all_flow_modes() {
        let mut dcb = block_with_flags(0xFFFF_FFFF & !(fOutxDsrFlow | fDtrControl));
        set_flow_control(&mut dcb, mode);
        set_flow_control(&mut dcb, FlowCtrl::NoFlow);
        assert_eq!(dcb.fBits & every_group, 0);
    }
}

#[test]
fn parity_and_flow_control_do_not_disturb_each_other() {
    for parity in all_parities() {
        for mode in all_flow_modes() {
            for flags in sample_flags() {
                let mut a = block_with_flags(flags);
                set_parity(&mut a, parity);
                set_flow_control(&mut a, mode);

                let mut b = block_with_flags(flags);
                set_flow_control(&mut b, mode);
                set_parity(&mut b, parity);
                assert_eq!(a, b);

                let mut c = block_with_flags(flags);
                set_flow_control(&mut c, mode);
                assert_eq!(c.fBits & fParity, flags & fParity);
                assert_eq!(c.fBits & fBinary, flags & fBinary);
            }
        }
    }
}

#[test]
fn configure_writes_all_five_settings() {
    let serial = Serial::new("COM3", 57600)
        .with_data_bit(DataBits::Seven)
        .with_stop_bit(StopBits::Two)
        .with_parity(Parity::Even)
        .with_flow_ctrl(FlowCtrl::XOnXOff);
    let mut dcb = DCB::new();
    configure(&mut dcb, &serial);
    assert_eq!(
        dcb,
        DCB { BaudRate: 57600, ByteSize: 7, StopBits: 2, Parity: 2, fBits: 0x0302, ..DCB::new() }
    );

    let mut dcb = busy_block();
    configure(&mut dcb, &Serial::new("COM3", 9600));
    assert_eq!(
        dcb,
        DCB {
            BaudRate: 9600,
            ByteSize: 8,
            StopBits: 0,
            Parity: 0,
            fBits: 0xA5A5_5A5A & !0x3306,
            ..busy_block()
        }
    );
}

#[test]
fn configure_equals_the_setters_in_order() {
    for parity in all_parities() {
        for mode in all_flow_modes() {
            let serial = Serial::new("X", 300)
                .with_data_bit(DataBits::Five)
                .with_stop_bit(StopBits::Two)
                .with_parity(parity)
                .with_flow_ctrl(mode);
            let mut whole = busy_block();
            configure(&mut whole, &serial);

            let mut by_hand = busy_block();
            set_baud_rate(&mut by_hand, 300);
            set_data_bits(&mut by_hand, DataBits::Five);
            set_stop_bits(&mut by_hand, StopBits::Two);
            set_parity(&mut by_hand, parity);
            set_flow_control(&mut by_hand, mode);
            assert_eq!(whole, by_hand);
            assert_eq!(whole.fBits & fParity != 0, parity != Parity::NoParity);
        }
    }
}

fn limits(constant: u32) -> COMMTIMEOUTS {
    COMMTIMEOUTS {
        ReadIntervalTimeout: 0,
        ReadTotalTimeoutMultiplier: 0,
        ReadTotalTimeoutConstant: constant,
        WriteTotalTimeoutMultiplier: 0,
        WriteTotalTimeoutConstant: 0,
    }
}

#[test]
fn timeouts_bound_reads_only() {
    assert_eq!(
        set_timeouts(11, Timeout::from_millis(500)),
        HostCall::SetCommTimeouts { hFile: 11, timeouts: limits(500) }
    );
    assert_eq!(
        set_timeouts(0, Timeout::from_secs(0)),
        HostCall::SetCommTimeouts { hFile: 0, timeouts: limits(0) }
    );
    assert_eq!(
        set_timeouts(3, Timeout::new(1, 999_999_999).unwrap()),
        HostCall::SetCommTimeouts { hFile: 3, timeouts: limits(1_999) }
    );
    assert_eq!(
        set_timeouts(3, Timeout::new(0, 999_999).unwrap()),
        HostCall::SetCommTimeouts { hFile: 3, timeouts: limits(0) }
    );
}

#[test]
fn timeouts_keep_the_low_32_bits_of_the_millisecond_count() {
    assert_eq!(
        set_timeouts(1, Timeout::from_millis(0xFFFF_FFFF)),
        HostCall::SetCommTimeouts { hFile: 1, timeouts: limits(0xFFFF_FFFF) }
    );
    assert_eq!(
        set_timeouts(1, Timeout::from_millis(0x1_0000_0000)),
        HostCall::SetCommTimeouts { hFile: 1, timeouts: limits(0) }
    );
    assert_eq!(
        set_timeouts(1, Timeout::from_millis(0x1_0000_01F4)),
        HostCall::SetCommTimeouts { hFile: 1, timeouts: limits(500) }
    );
    let longest = Timeout::new(u64::MAX, 999_999_999).unwrap();
    let expected: u32 = ((u64::MAX as u128 * 1000 + 999) % 0x1_0000_0000) as u32;
    assert_eq!(expected, 0xFFFF_FFFF);
    assert_eq!(
        set_timeouts(1, longest),
        HostCall::SetCommTimeouts { hFile: 1, timeouts: limits(expected) }
    );
}

#[test]
fn block_calls_carry_handle_and_block() {
    assert_eq!(get_dcb(42), HostCall::GetCommState { hFile: 42, dcb: DCB::new() });
    assert_eq!(
        set_dcb(42, busy_block()),
        HostCall::SetCommState { hFile: 42, dcb: busy_block() }
    );
}
