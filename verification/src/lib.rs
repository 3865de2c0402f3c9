//! Serial-port configuration and the decisions around a host's native
//! serial device, kept free of I/O: every function here maps plain values to
//! plain values, and the caller performs the host calls it is handed.

use vstd::prelude::*;
use crate::windows::com::{COMPort, OpenStep, Stage, acquires};

pub mod windows;

verus! {

/// Classification of a failure met while opening a port.
#[derive(Debug, Clone, Copy, PartialEq, Eq, Structural)]
pub enum ErrorKind {
    NotFound,
    TimeOut,
    Unknown,
}

/// A failure met while opening a port: its kind and a readable description.
#[derive(Debug)]
pub struct Error {
    kind: ErrorKind,
    desc: String,
}

impl Error {
    pub closed spec fn spec_kind(&self) -> ErrorKind {
        self.kind
    }

    pub closed spec fn spec_desc(&self) -> Seq<char> {
        self.desc@
    }

    pub fn new(kind: ErrorKind, desc: &str) -> (e: Self)
        ensures
            e.spec_kind() == kind,
            e.spec_desc() == desc@,
    {
        Self { kind, desc: desc.to_owned() }
    }

    #[verifier::when_used_as_spec(spec_kind)]
    pub fn kind(&self) -> (k: ErrorKind)
        ensures
            k == self.spec_kind(),
    {
        self.kind
    }

    pub fn desc(&self) -> (d: &str)
        ensures
            d@ == self.spec_desc(),
    {
        self.desc.as_str()
    }
}

/// Marks the types that stand for an open serial port.
pub trait Port: Send {
}

/// Number of data bits in a character frame.
#[derive(Debug, Copy, Clone, PartialEq, Eq, Structural)]
pub enum DataBits {
    Five,
    Six,
    Seven,
    Eight,
}

/// Number of stop bits closing a character frame. The host also knows a
/// one-and-a-half mode; it is not offered here.
#[derive(Debug, Copy, Clone, PartialEq, Eq, Structural)]
pub enum StopBits {
    One,
    Two,
}

/// Parity scheme of a character frame.
#[derive(Debug, Copy, Clone, PartialEq, Eq, Structural)]
pub enum Parity {
    NoParity,
    Odd,
    Even,
    Mark,
    Space,
}

/// Flow-control mode. The two combined modes are declared but select no flow
/// control: selecting one leaves the control block as it was.
#[derive(Debug, Copy, Clone, PartialEq, Eq, Structural)]
pub enum FlowCtrl {
    NoFlow,
    XOnXOff,
    RtsCts,
    DtrDsr,
    RtsCtsXOnXOff,
    DtrDsrXOnXOff,
}

pub const NANOS_PER_SEC: u32 = 1_000_000_000;

pub const NANOS_PER_MILLI: u32 = 1_000_000;

pub const MILLIS_PER_SEC: u64 = 1_000;

/// A non-negative span of time: whole seconds and the nanoseconds beyond
/// them, always fewer than a second's worth.
#[derive(Debug, Copy, Clone, PartialEq, Eq, Structural)]
pub struct Timeout {
    secs: u64,
    nanos: u32,
}

impl Timeout {
    #[verifier::type_invariant]
    pub closed spec fn wf(self) -> bool {
        self.nanos < NANOS_PER_SEC
    }

    pub closed spec fn spec_as_secs(self) -> u64 {
        self.secs
    }

    pub closed spec fn spec_subsec_nanos(self) -> u32 {
        self.nanos
    }

    /// The span in whole milliseconds; what is left below a millisecond is
    /// cut off.
    pub open spec fn millis(self) -> nat {
        (self.spec_as_secs() * MILLIS_PER_SEC + self.spec_subsec_nanos() / NANOS_PER_MILLI) as nat
    }

    /// The span of `secs` seconds and `nanos` nanoseconds, where `nanos`
    /// stays below one second.
    pub fn new(secs: u64, nanos: u32) -> (t: Option<Self>)
        ensures
            nanos < NANOS_PER_SEC <==> t is Some,
            t matches Some(t) ==> t.spec_as_secs() == secs && t.spec_subsec_nanos() == nanos,
    {
        if nanos < NANOS_PER_SEC {
            Some(Timeout { secs, nanos })
        } else {
            None
        }
    }

    pub fn from_secs(secs: u64) -> (t: Self)
        ensures
            t.spec_as_secs() == secs,
            t.spec_subsec_nanos() == 0,
    {
        Timeout { secs, nanos: 0 }
    }

    pub fn from_millis(millis: u64) -> (t: Self)
        ensures
            t.spec_as_secs() == millis / MILLIS_PER_SEC,
            t.spec_subsec_nanos() == (millis % MILLIS_PER_SEC) * NANOS_PER_MILLI,
            t.millis() == millis,
    {
        let sub: u32 = (millis % MILLIS_PER_SEC) as u32;
        let t = Timeout { secs: millis / MILLIS_PER_SEC, nanos: sub * NANOS_PER_MILLI };
        assert(t.millis() == millis) by {
            assert((sub * NANOS_PER_MILLI) / (NANOS_PER_MILLI as int) == sub) by (nonlinear_arith)
                requires
                    NANOS_PER_MILLI == 1_000_000,
            ;
        }
        t
    }

    #[verifier::when_used_as_spec(spec_as_secs)]
    pub fn as_secs(self) -> (s: u64)
        ensures
            s == self.spec_as_secs(),
    {
        self.secs
    }

    #[verifier::when_used_as_spec(spec_subsec_nanos)]
    pub fn subsec_nanos(self) -> (n: u32)
        ensures
            n == self.spec_subsec_nanos(),
            n < NANOS_PER_SEC,
    {
        proof {
            use_type_invariant(self);
        }
        self.nanos
    }

    pub fn as_millis(self) -> (m: u128)
        ensures
            m == self.millis(),
    {
        let whole: u128 = self.secs as u128;
        let below: u128 = (self.nanos / NANOS_PER_MILLI) as u128;
        assert(whole * 1_000 + below <= u128::MAX) by (nonlinear_arith)
            requires
                whole <= u64::MAX,
                below <= u32::MAX,
        ;
        whole * 1_000 + below
    }
}

/// What a `Serial` holds, as plain values.
pub ghost struct SerialView {
    pub path: Seq<char>,
    pub baud_rate: u32,
    pub data_bit: DataBits,
    pub stop_bit: StopBits,
    pub parity: Parity,
    pub flow_ctrl: FlowCtrl,
    pub timeout: Timeout,
}

/// The wished-for parameters of a port: which device, and how its line is
/// to be driven.
#[derive(Debug)]
pub struct Serial {
    path: String,
    baud_rate: u32,
    data_bit: DataBits,
    stop_bit: StopBits,
    parity: Parity,
    flow_ctrl: FlowCtrl,
    timeout: Timeout,
}

impl View for Serial {
    type V = SerialView;

    closed spec fn view(&self) -> SerialView {
        SerialView {
            path: self.path@,
            baud_rate: self.baud_rate,
            data_bit: self.data_bit,
            stop_bit: self.stop_bit,
            parity: self.parity,
            flow_ctrl: self.flow_ctrl,
            timeout: self.timeout,
        }
    }
}

impl Clone for Serial {
    fn clone(&self) -> (copy: Self)
        ensures
            copy@ == self@,
    {
        Serial {
            path: self.path.clone(),
            baud_rate: self.baud_rate,
            data_bit: self.data_bit,
            stop_bit: self.stop_bit,
            parity: self.parity,
            flow_ctrl: self.flow_ctrl,
            timeout: self.timeout,
        }
    }
}

impl Serial {
    /// The configuration for the device `path` at `baud_rate`, with eight data
    /// bits, one stop bit, no parity, no flow control and a read timeout of
    /// half a second.
    pub fn new(path: &str, baud_rate: u32) -> (s: Self)
        ensures
            s@.path == path@,
            s@.baud_rate == baud_rate,
            s@.data_bit == DataBits::Eight,
            s@.stop_bit == StopBits::One,
            s@.parity == Parity::NoParity,
            s@.flow_ctrl == FlowCtrl::NoFlow,
            s@.timeout.as_secs() == 0,
            s@.timeout.subsec_nanos() == 500_000_000,
            s@.timeout.millis() == 500,
    {
        Serial {
            path: path.to_owned(),
            baud_rate,
            data_bit: DataBits::Eight,
            stop_bit: StopBits::One,
            parity: Parity::NoParity,
            flow_ctrl: FlowCtrl::NoFlow,
            timeout: Timeout::from_millis(500),
        }
    }

    /// The same configuration with another number of data bits.
    pub fn with_data_bit(self, data_bit: DataBits) -> (s: Self)
        ensures
            s@ == (SerialView { data_bit, ..self@ }),
    {
        Serial { data_bit, ..self }
    }

    /// The same configuration with another number of stop bits.
    pub fn with_stop_bit(self, stop_bit: StopBits) -> (s: Self)
        ensures
            s@ == (SerialView { stop_bit, ..self@ }),
    {
        Serial { stop_bit, ..self }
    }

    /// The same configuration with another parity scheme.
    pub fn with_parity(self, parity: Parity) -> (s: Self)
        ensures
            s@ == (SerialView { parity, ..self@ }),
    {
        Serial { parity, ..self }
    }

    /// The same configuration with another flow-control mode.
    pub fn with_flow_ctrl(self, flow_ctrl: FlowCtrl) -> (s: Self)
        ensures
            s@ == (SerialView { flow_ctrl, ..self@ }),
    {
        Serial { flow_ctrl, ..self }
    }

    /// The same configuration with another read timeout.
    pub fn with_timeout(self, timeout: Timeout) -> (s: Self)
        ensures
            s@ == (SerialView { timeout, ..self@ }),
    {
        Serial { timeout, ..self }
    }

    /// Begins the opening of the port that this configuration describes.
    pub fn open(&self) -> (first: OpenStep)
        ensures
            first matches OpenStep::Call(state, call) && {
                &&& state.stage() == Stage::Acquiring
                &&& state.port() is None
                &&& acquires(call, self@.path)
            },
    {
        COMPort::open(self)
    }

    pub fn path(&self) -> (path: &str)
        ensures
            path@ == self@.path,
    {
        self.path.as_str()
    }

    pub fn baud_rate(&self) -> (baud_rate: u32)
        ensures
            baud_rate == self@.baud_rate,
    {
        self.baud_rate
    }

    pub fn data_bit(&self) -> (data_bit: DataBits)
        ensures
            data_bit == self@.data_bit,
    {
        self.data_bit
    }

    pub fn stop_bit(&self) -> (stop_bit: StopBits)
        ensures
            stop_bit == self@.stop_bit,
    {
        self.stop_bit
    }

    pub fn parity(&self) -> (parity: Parity)
        ensures
            parity == self@.parity,
    {
        self.parity
    }

    pub fn flow_ctrl(&self) -> (flow_ctrl: FlowCtrl)
        ensures
            flow_ctrl == self@.flow_ctrl,
    {
        self.flow_ctrl
    }

    pub fn timeout(&self) -> (timeout: Timeout)
        ensures
            timeout == self@.timeout,
    {
        self.timeout
    }
}

} // verus!
