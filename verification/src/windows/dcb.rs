//! Writing the portable settings into the device control block.
//!
//! Each setter touches the fields and flag bits of its own setting and
//! nothing else, never fails, and gives the same block when applied twice.
//! Whether the host accepts the resulting combination shows only when the
//! block is applied to a device.

use vstd::prelude::*;
use crate::{DataBits, FlowCtrl, Parity, Serial, SerialView, StopBits, Timeout};
use crate::windows::ffi::{
    BYTE, COMMTIMEOUTS, DCB, DWORD, EVENPARITY, HANDLE, HostCall, MARKPARITY, NOPARITY, ODDPARITY,
    ONESTOPBITS, SPACEPARITY, TWOSTOPBITS, fDtrControl, fInX, fOutX, fOutxCtsFlow, fOutxDsrFlow,
    fParity, fRtsControl,
};

verus! {

/// The byte-size field for a number of data bits: the number itself.
pub open spec fn data_bits_code(data_bits: DataBits) -> BYTE {
    match data_bits {
        DataBits::Five => 5,
        DataBits::Six => 6,
        DataBits::Seven => 7,
        DataBits::Eight => 8,
    }
}

/// The host's code for a number of stop bits.
pub open spec fn stop_bits_code(stop_bits: StopBits) -> BYTE {
    match stop_bits {
        StopBits::One => ONESTOPBITS,
        StopBits::Two => TWOSTOPBITS,
    }
}

/// The host's code for a parity scheme.
pub open spec fn parity_code(parity: Parity) -> BYTE {
    match parity {
        Parity::NoParity => NOPARITY,
        Parity::Odd => ODDPARITY,
        Parity::Even => EVENPARITY,
        Parity::Mark => MARKPARITY,
        Parity::Space => SPACEPARITY,
    }
}

/// The flag word with the parity-enable bit set for every scheme but
/// `NoParity`, for which it is cleared.
pub open spec fn parity_flags(flags: DWORD, parity: Parity) -> DWORD {
    if parity == Parity::NoParity {
        flags & !fParity
    } else {
        flags | fParity
    }
}

/// The CTS output-flow bit and the RTS control pair.
pub open spec fn rts_cts_mask() -> DWORD {
    fOutxCtsFlow | fRtsControl
}

/// The DSR output-flow bit and the DTR control pair.
pub open spec fn dtr_dsr_mask() -> DWORD {
    fOutxDsrFlow | fDtrControl
}

/// The XON/XOFF output and input bits.
pub open spec fn xon_xoff_mask() -> DWORD {
    fOutX | fInX
}

/// Every flow-control bit group that `NoFlow` governs.
pub open spec fn no_flow_mask() -> DWORD {
    rts_cts_mask() | xon_xoff_mask()
}

/// Every flow-control bit group of the flag word, the DSR and DTR groups
/// included.
pub open spec fn flow_mask() -> DWORD {
    rts_cts_mask() | xon_xoff_mask() | dtr_dsr_mask()
}

/// The flag word after a flow-control mode has been selected.
pub open spec fn flow_control_flags(flags: DWORD, flow_ctrl: FlowCtrl) -> DWORD {
    match flow_ctrl {
        FlowCtrl::NoFlow => (flags & !rts_cts_mask()) & !xon_xoff_mask(),
        FlowCtrl::XOnXOff => flags | xon_xoff_mask(),
        FlowCtrl::RtsCts => flags & !rts_cts_mask(),
        FlowCtrl::DtrDsr => flags & !dtr_dsr_mask(),
        FlowCtrl::RtsCtsXOnXOff => flags,
        FlowCtrl::DtrDsrXOnXOff => flags,
    }
}

/// The block with the baud rate replaced.
pub open spec fn with_baud_rate(dcb: DCB, baud_rate: u32) -> DCB {
    DCB { BaudRate: baud_rate, ..dcb }
}

/// The block with the byte size of `data_bits`.
pub open spec fn with_data_bits(dcb: DCB, data_bits: DataBits) -> DCB {
    DCB { ByteSize: data_bits_code(data_bits), ..dcb }
}

/// The block with the stop-bit code of `stop_bits`.
pub open spec fn with_stop_bits(dcb: DCB, stop_bits: StopBits) -> DCB {
    DCB { StopBits: stop_bits_code(stop_bits), ..dcb }
}

/// The block with the parity code of `parity` and the parity-enable bit in
/// line with it.
pub open spec fn with_parity(dcb: DCB, parity: Parity) -> DCB {
    DCB { Parity: parity_code(parity), fBits: parity_flags(dcb.fBits, parity), ..dcb }
}

/// The block with `flow_ctrl` selected in its flag word.
pub open spec fn with_flow_control(dcb: DCB, flow_ctrl: FlowCtrl) -> DCB {
    DCB { fBits: flow_control_flags(dcb.fBits, flow_ctrl), ..dcb }
}

/// The block after all five line settings of `serial` have been written
/// into it: baud rate, data bits, stop bits, parity, flow control.
pub open spec fn configured(dcb: DCB, serial: SerialView) -> DCB {
    with_flow_control(
        with_parity(
            with_stop_bits(
                with_data_bits(with_baud_rate(dcb, serial.baud_rate), serial.data_bit),
                serial.stop_bit,
            ),
            serial.parity,
        ),
        serial.flow_ctrl,
    )
}

/// The time limits for a device whose reads are to give up after `timeout`:
/// a read waits up to the whole span for its first byte, and writes wait
/// without limit. The span is counted in whole milliseconds and kept modulo
/// 2^32, the width of the native field.
pub open spec fn comm_timeouts(timeout: Timeout) -> COMMTIMEOUTS {
    COMMTIMEOUTS {
        ReadIntervalTimeout: 0,
        ReadTotalTimeoutMultiplier: 0,
        ReadTotalTimeoutConstant: (timeout.millis() % 0x1_0000_0000) as u32,
        WriteTotalTimeoutMultiplier: 0,
        WriteTotalTimeoutConstant: 0,
    }
}

/// Whether the block asks the host to check and generate parity.
pub open spec fn parity_enabled(dcb: DCB) -> bool {
    dcb.fBits & fParity != 0
}

/// The call that fetches the device's control block. The host is handed a
/// zeroed block, so a fetch that fails leaves every field zero.
pub fn get_dcb(handle: HANDLE) -> (call: HostCall)
    ensures
        call == (HostCall::GetCommState { hFile: handle, dcb: DCB::zeroed() }),
{
    HostCall::GetCommState { hFile: handle, dcb: DCB::new() }
}

/// The call that applies `dcb` to the device.
pub fn set_dcb(handle: HANDLE, dcb: DCB) -> (call: HostCall)
    ensures
        call == (HostCall::SetCommState { hFile: handle, dcb }),
{
    HostCall::SetCommState { hFile: handle, dcb }
}

/// Copies the rate into the block as it is. The host judges it when the
/// block is applied.
pub fn set_baud_rate(dcb: &mut DCB, baud_rate: u32)
    ensures
        *final(dcb) == with_baud_rate(*old(dcb), baud_rate),
{
    dcb.BaudRate = baud_rate;
}

/// Writes the number of data bits into the byte-size field.
pub fn set_data_bits(dcb: &mut DCB, data_bits: DataBits)
    ensures
        *final(dcb) == with_data_bits(*old(dcb), data_bits),
{
    dcb.ByteSize = match data_bits {
        DataBits::Five => 5,
        DataBits::Six => 6,
        DataBits::Seven => 7,
        DataBits::Eight => 8,
    }
}

/// Writes the host's code for the number of stop bits.
pub fn set_stop_bits(dcb: &mut DCB, stop_bits: StopBits)
    ensures
        *final(dcb) == with_stop_bits(*old(dcb), stop_bits),
{
    dcb.StopBits = match stop_bits {
        StopBits::One => ONESTOPBITS,
        StopBits::Two => TWOSTOPBITS,
    }
}

/// Writes the parity code and brings the parity-enable flag in line with it:
/// the host ignores the code unless the flag agrees.
pub fn set_parity(dcb: &mut DCB, parity: Parity)
    ensures
        *final(dcb) == with_parity(*old(dcb), parity),
        parity_enabled(*final(dcb)) <==> parity != Parity::NoParity,
        parity_enabled(*final(dcb)) <==> final(dcb).Parity != NOPARITY,
        final(dcb).fBits & !fParity == old(dcb).fBits & !fParity,
{
    dcb.Parity = match parity {
        Parity::NoParity => NOPARITY,
        Parity::Odd => ODDPARITY,
        Parity::Even => EVENPARITY,
        Parity::Mark => MARKPARITY,
        Parity::Space => SPACEPARITY,
    };
    let flags: DWORD = dcb.fBits;
    match parity {
        Parity::NoParity => {
            dcb.fBits = flags & !fParity;
        },
        _ => {
            dcb.fBits = flags | fParity;
        },
    }
    proof {
        lemma_parity_flag(flags, parity);
    }
}

/// Selects a flow-control mode in the flag word.
///
/// `NoFlow` clears the CTS output-flow bit, the RTS control pair and both
/// XON/XOFF bits. `XOnXOff` sets both XON/XOFF bits and leaves the hardware
/// bits alone. `RtsCts` clears the CTS output-flow bit and the RTS control
/// pair; `DtrDsr` clears the DSR output-flow bit and the DTR control pair.
/// The two combined modes change nothing: a caller who selects one gets no
/// flow control from it.
pub fn set_flow_control(dcb: &mut DCB, flow_ctrl: FlowCtrl)
    ensures
        *final(dcb) == with_flow_control(*old(dcb), flow_ctrl),
        final(dcb).fBits & !flow_mask() == old(dcb).fBits & !flow_mask(),
        flow_ctrl == FlowCtrl::NoFlow ==> final(dcb).fBits & no_flow_mask() == 0,
        flow_ctrl == FlowCtrl::XOnXOff ==> final(dcb).fBits & xon_xoff_mask() == xon_xoff_mask(),
        flow_ctrl == FlowCtrl::RtsCts ==> final(dcb).fBits & rts_cts_mask() == 0,
        flow_ctrl == FlowCtrl::DtrDsr ==> final(dcb).fBits & dtr_dsr_mask() == 0,
{
    let flags: DWORD = dcb.fBits;
    match flow_ctrl {
        FlowCtrl::NoFlow => {
            let hardware_cleared: DWORD = flags & !(fOutxCtsFlow | fRtsControl);
            dcb.fBits = hardware_cleared & !(fOutX | fInX);
        },
        FlowCtrl::XOnXOff => {
            dcb.fBits = flags | (fOutX | fInX);
        },
        FlowCtrl::RtsCts => {
            dcb.fBits = flags & !(fOutxCtsFlow | fRtsControl);
        },
        FlowCtrl::DtrDsr => {
            dcb.fBits = flags & !(fOutxDsrFlow | fDtrControl);
        },
        FlowCtrl::RtsCtsXOnXOff => {},
        FlowCtrl::DtrDsrXOnXOff => {},
    }
    proof {
        lemma_flow_control_keeps_other_flags(flags, flow_ctrl);
        lemma_flow_control_groups(flags, flow_ctrl);
    }
}

/// The call that sets the device's time limits for a read timeout of
/// `timeout`.
pub fn set_timeouts(handle: HANDLE, timeout: Timeout) -> (call: HostCall)
    ensures
        call == (HostCall::SetCommTimeouts { hFile: handle, timeouts: comm_timeouts(timeout) }),
{
    let mills: u128 = timeout.as_millis();
    let timeouts = COMMTIMEOUTS {
        ReadIntervalTimeout: 0,
        ReadTotalTimeoutMultiplier: 0,
        ReadTotalTimeoutConstant: (mills % 0x1_0000_0000) as DWORD,
        WriteTotalTimeoutMultiplier: 0,
        WriteTotalTimeoutConstant: 0,
    };
    HostCall::SetCommTimeouts { hFile: handle, timeouts }
}

/// Writes the five line settings of `serial` into the block, in the order
/// baud rate, data bits, stop bits, parity, flow control.
pub fn configure(dcb: &mut DCB, serial: &Serial)
    ensures
        *final(dcb) == configured(*old(dcb), serial@),
{
    set_baud_rate(dcb, serial.baud_rate());
    set_data_bits(dcb, serial.data_bit());
    set_stop_bits(dcb, serial.stop_bit());
    set_parity(dcb, serial.parity());
    set_flow_control(dcb, serial.flow_ctrl());
}

/// The parity-enable bit of `parity_flags` is set exactly for the schemes
/// other than `NoParity`, and no other bit differs from `flags`.
pub proof fn lemma_parity_flag(flags: DWORD, parity: Parity)
    ensures
        parity_flags(flags, parity) & fParity != 0 <==> parity != Parity::NoParity,
        parity_flags(flags, parity) & !fParity == flags & !fParity,
{
    assert((flags & !fParity) & fParity == 0) by (bit_vector);
    assert((flags | fParity) & fParity != 0) by (bit_vector);
    assert((flags & !fParity) & !fParity == flags & !fParity) by (bit_vector);
    assert((flags | fParity) & !fParity == flags & !fParity) by (bit_vector);
}

/// Selecting a flow-control mode changes no bit outside the flow-control
/// groups: binary mode, parity checking and the rest stay as they were.
pub proof fn lemma_flow_control_keeps_other_flags(flags: DWORD, flow_ctrl: FlowCtrl)
    ensures
        flow_control_flags(flags, flow_ctrl) & !flow_mask() == flags & !flow_mask(),
        flow_control_flags(flags, flow_ctrl) & fParity == flags & fParity,
{
    assert(((flags & !rts_cts_mask()) & !xon_xoff_mask()) & !flow_mask() == flags & !flow_mask())
        by (bit_vector);
    assert((flags | xon_xoff_mask()) & !flow_mask() == flags & !flow_mask()) by (bit_vector);
    assert((flags & !rts_cts_mask()) & !flow_mask() == flags & !flow_mask()) by (bit_vector);
    assert((flags & !dtr_dsr_mask()) & !flow_mask() == flags & !flow_mask()) by (bit_vector);
    assert(((flags & !rts_cts_mask()) & !xon_xoff_mask()) & fParity == flags & fParity)
        by (bit_vector);
    assert((flags | xon_xoff_mask()) & fParity == flags & fParity) by (bit_vector);
    assert((flags & !rts_cts_mask()) & fParity == flags & fParity) by (bit_vector);
    assert((flags & !dtr_dsr_mask()) & fParity == flags & fParity) by (bit_vector);
}

/// What each mode does to the group it governs, and that it leaves every
/// bit outside that group alone.
pub proof fn lemma_flow_control_groups(flags: DWORD, flow_ctrl: FlowCtrl)
    ensures
        flow_ctrl == FlowCtrl::NoFlow ==> {
            &&& flow_control_flags(flags, flow_ctrl) & no_flow_mask() == 0
            &&& flow_control_flags(flags, flow_ctrl) & !no_flow_mask() == flags & !no_flow_mask()
        },
        flow_ctrl == FlowCtrl::XOnXOff ==> {
            &&& flow_control_flags(flags, flow_ctrl) & xon_xoff_mask() == xon_xoff_mask()
            &&& flow_control_flags(flags, flow_ctrl) & !xon_xoff_mask() == flags & !xon_xoff_mask()
        },
        flow_ctrl == FlowCtrl::RtsCts ==> {
            &&& flow_control_flags(flags, flow_ctrl) & rts_cts_mask() == 0
            &&& flow_control_flags(flags, flow_ctrl) & !rts_cts_mask() == flags & !rts_cts_mask()
        },
        flow_ctrl == FlowCtrl::DtrDsr ==> {
            &&& flow_control_flags(flags, flow_ctrl) & dtr_dsr_mask() == 0
            &&& flow_control_flags(flags, flow_ctrl) & !dtr_dsr_mask() == flags & !dtr_dsr_mask()
        },
        flow_ctrl == FlowCtrl::RtsCtsXOnXOff || flow_ctrl == FlowCtrl::DtrDsrXOnXOff
            ==> flow_control_flags(flags, flow_ctrl) == flags,
{
    assert(((flags & !rts_cts_mask()) & !xon_xoff_mask()) & no_flow_mask() == 0) by (bit_vector);
    assert(((flags & !rts_cts_mask()) & !xon_xoff_mask()) & !no_flow_mask() == flags
        & !no_flow_mask()) by (bit_vector);
    assert((flags | xon_xoff_mask()) & xon_xoff_mask() == xon_xoff_mask()) by (bit_vector);
    assert((flags | xon_xoff_mask()) & !xon_xoff_mask() == flags & !xon_xoff_mask())
        by (bit_vector);
    assert((flags & !rts_cts_mask()) & rts_cts_mask() == 0) by (bit_vector);
    assert((flags & !rts_cts_mask()) & !rts_cts_mask() == flags & !rts_cts_mask())
        by (bit_vector);
    assert((flags & !dtr_dsr_mask()) & dtr_dsr_mask() == 0) by (bit_vector);
    assert((flags & !dtr_dsr_mask()) & !dtr_dsr_mask() == flags & !dtr_dsr_mask())
        by (bit_vector);
}

/// Reading the byte-size field back tells the number of data bits apart:
/// it holds 5, 6, 7 or 8, each for one setting only.
pub proof fn lemma_data_bits_read_back(dcb: DCB, data_bits: DataBits)
    ensures
        with_data_bits(dcb, data_bits).ByteSize == 5 <==> data_bits == DataBits::Five,
        with_data_bits(dcb, data_bits).ByteSize == 6 <==> data_bits == DataBits::Six,
        with_data_bits(dcb, data_bits).ByteSize == 7 <==> data_bits == DataBits::Seven,
        with_data_bits(dcb, data_bits).ByteSize == 8 <==> data_bits == DataBits::Eight,
{
}

/// The parity setting of a block depends on the last scheme written and on
/// nothing written before it. Writing one scheme twice gives the block that
/// writing it once gives. The parity-enable bit is set exactly when the last
/// scheme is not `NoParity`, and so agrees with the parity field.
pub proof fn lemma_parity_last_wins(dcb: DCB, first: Parity, second: Parity)
    ensures
        with_parity(with_parity(dcb, first), second) == with_parity(dcb, second),
        with_parity(with_parity(dcb, second), second) == with_parity(dcb, second),
        parity_enabled(with_parity(dcb, second)) <==> second != Parity::NoParity,
        parity_enabled(with_parity(dcb, second)) <==> with_parity(dcb, second).Parity != NOPARITY,
{
    let flags = dcb.fBits;
    assert((flags & !fParity) & !fParity == flags & !fParity) by (bit_vector);
    assert((flags | fParity) & !fParity == flags & !fParity) by (bit_vector);
    assert((flags & !fParity) | fParity == flags | fParity) by (bit_vector);
    assert((flags | fParity) | fParity == flags | fParity) by (bit_vector);
    lemma_parity_flag(flags, second);
}

/// Selecting `NoFlow` after any mode, on any block, leaves the CTS, RTS and
/// XON/XOFF groups clear. Unless the mode in between was `DtrDsr`, the block
/// is the one that `NoFlow` alone gives. The DSR and DTR groups are not
/// governed by `NoFlow`: they end clear when the mode in between was
/// `DtrDsr` or when they were clear to begin with.
pub proof fn lemma_no_flow_restores_baseline(dcb: DCB, flow_ctrl: FlowCtrl)
    ensures
        with_flow_control(with_flow_control(dcb, flow_ctrl), FlowCtrl::NoFlow).fBits
            & no_flow_mask() == 0,
        flow_ctrl != FlowCtrl::DtrDsr ==> with_flow_control(
            with_flow_control(dcb, flow_ctrl),
            FlowCtrl::NoFlow,
        ) == with_flow_control(dcb, FlowCtrl::NoFlow),
        flow_ctrl == FlowCtrl::DtrDsr || dcb.fBits & dtr_dsr_mask() == 0 ==> with_flow_control(
            with_flow_control(dcb, flow_ctrl),
            FlowCtrl::NoFlow,
        ).fBits & flow_mask() == 0,
{
    let flags = dcb.fBits;
    let selected = flow_control_flags(flags, flow_ctrl);
    assert(((selected & !rts_cts_mask()) & !xon_xoff_mask()) & no_flow_mask() == 0)
        by (bit_vector);
    match flow_ctrl {
        FlowCtrl::NoFlow => {
            assert((((flags & !rts_cts_mask()) & !xon_xoff_mask()) & !rts_cts_mask())
                & !xon_xoff_mask() == (flags & !rts_cts_mask()) & !xon_xoff_mask())
                by (bit_vector);
        },
        FlowCtrl::XOnXOff => {
            assert(((flags | xon_xoff_mask()) & !rts_cts_mask()) & !xon_xoff_mask() == (flags
                & !rts_cts_mask()) & !xon_xoff_mask()) by (bit_vector);
        },
        FlowCtrl::RtsCts => {
            assert(((flags & !rts_cts_mask()) & !rts_cts_mask()) & !xon_xoff_mask() == (flags
                & !rts_cts_mask()) & !xon_xoff_mask()) by (bit_vector);
        },
        FlowCtrl::DtrDsr => {
            assert((((flags & !dtr_dsr_mask()) & !rts_cts_mask()) & !xon_xoff_mask())
                & flow_mask() == 0) by (bit_vector);
        },
        FlowCtrl::RtsCtsXOnXOff => {},
        FlowCtrl::DtrDsrXOnXOff => {},
    }
    assert(flags & dtr_dsr_mask() == 0 ==> ((flags & !rts_cts_mask()) & !xon_xoff_mask())
        & flow_mask() == 0) by (bit_vector);
}

/// Selecting a flow-control mode twice gives the block that selecting it
/// once gives.
pub proof fn lemma_flow_control_idempotent(dcb: DCB, flow_ctrl: FlowCtrl)
    ensures
        with_flow_control(with_flow_control(dcb, flow_ctrl), flow_ctrl) == with_flow_control(
            dcb,
            flow_ctrl,
        ),
{
    let flags = dcb.fBits;
    assert((((flags & !rts_cts_mask()) & !xon_xoff_mask()) & !rts_cts_mask()) & !xon_xoff_mask()
        == (flags & !rts_cts_mask()) & !xon_xoff_mask()) by (bit_vector);
    assert((flags | xon_xoff_mask()) | xon_xoff_mask() == flags | xon_xoff_mask())
        by (bit_vector);
    assert((flags & !rts_cts_mask()) & !rts_cts_mask() == flags & !rts_cts_mask())
        by (bit_vector);
    assert((flags & !dtr_dsr_mask()) & !dtr_dsr_mask() == flags & !dtr_dsr_mask())
        by (bit_vector);
}

/// Parity and flow control live in separate bits of the flag word: writing
/// them in either order gives the same block, and selecting a flow-control
/// mode never changes the parity-enable bit.
pub proof fn lemma_parity_flow_control_independent(dcb: DCB, parity: Parity, flow_ctrl: FlowCtrl)
    ensures
        with_flow_control(with_parity(dcb, parity), flow_ctrl) == with_parity(
            with_flow_control(dcb, flow_ctrl),
            parity,
        ),
        parity_enabled(with_flow_control(dcb, flow_ctrl)) == parity_enabled(dcb),
{
    let flags = dcb.fBits;
    lemma_flow_control_keeps_other_flags(flags, flow_ctrl);
    match flow_ctrl {
        FlowCtrl::NoFlow => {
            assert(((flags & !fParity) & !rts_cts_mask()) & !xon_xoff_mask() == ((flags
                & !rts_cts_mask()) & !xon_xoff_mask()) & !fParity) by (bit_vector);
            assert(((flags | fParity) & !rts_cts_mask()) & !xon_xoff_mask() == ((flags
                & !rts_cts_mask()) & !xon_xoff_mask()) | fParity) by (bit_vector);
        },
        FlowCtrl::XOnXOff => {
            assert((flags & !fParity) | xon_xoff_mask() == (flags | xon_xoff_mask()) & !fParity)
                by (bit_vector);
            assert((flags | fParity) | xon_xoff_mask() == (flags | xon_xoff_mask()) | fParity)
                by (bit_vector);
        },
        FlowCtrl::RtsCts => {
            assert((flags & !fParity) & !rts_cts_mask() == (flags & !rts_cts_mask()) & !fParity)
                by (bit_vector);
            assert((flags | fParity) & !rts_cts_mask() == (flags & !rts_cts_mask()) | fParity)
                by (bit_vector);
        },
        FlowCtrl::DtrDsr => {
            assert((flags & !fParity) & !dtr_dsr_mask() == (flags & !dtr_dsr_mask()) & !fParity)
                by (bit_vector);
            assert((flags | fParity) & !dtr_dsr_mask() == (flags & !dtr_dsr_mask()) | fParity)
                by (bit_vector);
        },
        FlowCtrl::RtsCtsXOnXOff => {},
        FlowCtrl::DtrDsrXOnXOff => {},
    }
}

/// After all five settings are written, each field holds the code of its
/// setting and the parity-enable bit agrees with the parity setting,
/// whatever the block held before.
pub proof fn lemma_configured_fields(dcb: DCB, serial: SerialView)
    ensures
        configured(dcb, serial).BaudRate == serial.baud_rate,
        configured(dcb, serial).ByteSize == data_bits_code(serial.data_bit),
        configured(dcb, serial).StopBits == stop_bits_code(serial.stop_bit),
        configured(dcb, serial).Parity == parity_code(serial.parity),
        configured(dcb, serial).fBits == flow_control_flags(
            parity_flags(dcb.fBits, serial.parity),
            serial.flow_ctrl,
        ),
        parity_enabled(configured(dcb, serial)) <==> serial.parity != Parity::NoParity,
{
    let before = with_stop_bits(
        with_data_bits(with_baud_rate(dcb, serial.baud_rate), serial.data_bit),
        serial.stop_bit,
    );
    lemma_parity_flag(before.fBits, serial.parity);
    lemma_parity_flow_control_independent(
        with_parity(before, serial.parity),
        serial.parity,
        serial.flow_ctrl,
    );
}

} // verus!
