//! The open port and the decisions of opening, reading, writing and release.
//!
//! Nothing here touches the host. Each operation comes as a `HostCall` for
//! the caller to perform and a function that judges the host's answer, so
//! every operation maps to exactly one native call.

use vstd::prelude::*;
use crate::{Error, ErrorKind, Port, Serial, Timeout};
use crate::windows::dcb::{comm_timeouts, configure, configured, get_dcb, set_dcb, set_timeouts};
use crate::windows::ffi::{
    BOOL, DCB, DWORD, FILE_ATTRIBUTE_NORMAL, GENERIC_READ, GENERIC_WRITE, HANDLE, HostCall,
    INVALID_HANDLE_VALUE, OPEN_EXISTING, WCHAR,
};

verus! {

/// The UTF-16 code units of one character: itself below U+10000, a
/// surrogate pair from there on.
pub open spec fn utf16_units(c: char) -> Seq<WCHAR> {
    if (c as u32) < 0x10000 {
        seq![c as u32 as WCHAR]
    } else {
        seq![
            (0xD800 + (c as u32 - 0x10000) / 0x400) as WCHAR,
            (0xDC00 + (c as u32 - 0x10000) % 0x400) as WCHAR,
        ]
    }
}

/// The UTF-16 encoding of a string: the code units of its characters, in
/// order.
pub open spec fn encode_utf16(s: Seq<char>) -> Seq<WCHAR>
    decreases s.len(),
{
    if s.len() == 0 {
        Seq::empty()
    } else {
        encode_utf16(s.drop_last()) + utf16_units(s.last())
    }
}

/// The code units of the device namespace prefix, `\\.\`.
pub open spec fn device_prefix() -> Seq<WCHAR> {
    seq![0x5Cu16, 0x5Cu16, 0x2Eu16, 0x5Cu16]
}

/// The wide string that names the device `name` to the host: the device
/// namespace prefix, the name in UTF-16, and a closing NUL.
pub open spec fn wide_path(name: Seq<char>) -> Seq<WCHAR> {
    device_prefix() + encode_utf16(name) + seq![0u16]
}

/// Builds the wide string that names the device `name` to the host.
pub fn device_path(name: &str) -> (path: Vec<WCHAR>)
    ensures
        path@ == wide_path(name@),
{
    let mut path: Vec<WCHAR> = Vec::new();
    path.push(0x5C);
    path.push(0x5C);
    path.push(0x2E);
    path.push(0x5C);
    assert(path@ == device_prefix() + encode_utf16(name@.take(0)));
    let n: usize = name.unicode_len();
    let mut i: usize = 0;
    while i < n
        invariant
            i <= n,
            n == name@.len(),
            path@ == device_prefix() + encode_utf16(name@.take(i as int)),
        decreases n - i,
    {
        let c: char = name.get_char(i);
        let v: u32 = c as u32;
        if v < 0x10000 {
            path.push(v as WCHAR);
        } else {
            let offset: u32 = v - 0x10000;
            path.push((0xD800 + offset / 0x400) as WCHAR);
            path.push((0xDC00 + offset % 0x400) as WCHAR);
        }
        proof {
            let next = name@.take(i + 1);
            assert(next.drop_last() == name@.take(i as int));
            assert(next.last() == c);
        }
        i += 1;
    }
    assert(name@.take(n as int) == name@);
    path.push(0);
    path
}

/// A failed read, write or flush. These are failures of the transport and
/// use the host's own codes, not the kinds of `Error`.
#[derive(Debug, Copy, Clone, PartialEq, Eq, Structural)]
pub enum IoError {
    /// The read's time limit passed before a byte arrived.
    TimedOut,
    /// The host reported failure; the code is its last error.
    Host(DWORD),
}

/// What the host answered to a `ReadFile`, `WriteFile` or `FlushFileBuffers`
/// call: the call's result, zero for failure; the number of bytes it says it
/// moved; and the last error it recorded, which counts only after a failure.
#[derive(Debug, Copy, Clone, PartialEq, Eq, Structural)]
pub struct IoReply {
    pub status: BOOL,
    pub transferred: DWORD,
    pub last_error: DWORD,
}

/// What the host answered to one call of the opening sequence.
#[derive(Debug, Copy, Clone, PartialEq, Eq, Structural)]
pub enum OpenReply {
    /// The value `CreateFileW` returned.
    Handle(HANDLE),
    /// The result of `SetCommTimeouts` or `SetCommState`.
    Status(BOOL),
    /// The block as `GetCommState` left it.
    Block(DCB),
}

/// An open serial port. It owns its native handle: no second port holds
/// the same handle, and once released it asks nothing more of the host.
#[derive(Debug)]
pub struct COMPort {
    handle: HANDLE,
    timeout: Timeout,
    open: bool,
}

impl Port for COMPort {
}

/// The host call of the opening sequence that is under way.
#[derive(Debug, Copy, Clone, PartialEq, Eq, Structural)]
pub enum Stage {
    Acquiring,
    SettingTimeouts,
    Fetching,
    Applying,
}

/// How far the opening of a port has come: the call under way and, once a
/// handle is there, the port that owns it. Only the opening sequence makes
/// and advances such a state.
#[derive(Debug)]
pub struct Opening {
    stage: Stage,
    port: Option<COMPort>,
}

/// One move of the opening sequence: a host call to perform, with the state
/// to come back to, or the end of the sequence.
#[derive(Debug)]
pub enum OpenStep {
    Call(Opening, HostCall),
    Done(Result<COMPort, Error>),
}

/// Whether `call` opens the device `path` as a serial port is opened: by its
/// wide path, for reading and writing at once, unshared, and only if the
/// device exists.
pub open spec fn acquires(call: HostCall, path: Seq<char>) -> bool {
    call matches HostCall::CreateFileW {
        lpFileName,
        dwDesiredAccess,
        dwShareMode,
        dwCreationDisposition,
        dwFlagsAndAttributes,
        hTemplateFile,
    } && {
        &&& lpFileName@ == wide_path(path)
        &&& dwDesiredAccess == GENERIC_READ | GENERIC_WRITE
        &&& dwShareMode == 0
        &&& dwCreationDisposition == OPEN_EXISTING
        &&& dwFlagsAndAttributes == FILE_ATTRIBUTE_NORMAL
        &&& hTemplateFile == 0
    }
}

/// The block that a reply to `GetCommState` carries; the zeroed block where
/// it carries none.
pub open spec fn fetched_block(reply: OpenReply) -> DCB {
    match reply {
        OpenReply::Block(dcb) => dcb,
        _ => DCB::zeroed(),
    }
}

impl Opening {
    /// There is a port from the moment the handle is acquired, and it is
    /// open.
    #[verifier::type_invariant]
    pub closed spec fn wf(self) -> bool {
        match self.port {
            Some(port) => self.stage != Stage::Acquiring && port.is_open(),
            None => self.stage == Stage::Acquiring,
        }
    }

    pub closed spec fn spec_stage(&self) -> Stage {
        self.stage
    }

    /// The port made so far: none before the handle is acquired.
    pub closed spec fn port(&self) -> Option<COMPort> {
        self.port
    }

    /// The number of host calls still to be answered.
    pub open spec fn remaining(self) -> nat {
        match self.stage() {
            Stage::Acquiring => 4,
            Stage::SettingTimeouts => 3,
            Stage::Fetching => 2,
            Stage::Applying => 1,
        }
    }

    #[verifier::when_used_as_spec(spec_stage)]
    pub fn stage(&self) -> (stage: Stage)
        ensures
            stage == self.spec_stage(),
    {
        self.stage
    }

    /// Takes the host's answer to the call under way and decides what comes
    /// next.
    ///
    /// - `Acquiring`: a handle other than the invalid one makes the port,
    ///   which keeps the configured timeout, and the time limits are set
    ///   next. Any other answer ends the sequence with an `Unknown` error;
    ///   no port comes to be.
    /// - `SettingTimeouts`: the control block is fetched next, whatever the
    ///   answer.
    /// - `Fetching`: the five line settings are written into the block the
    ///   host left, and the result is applied next. An answer without a block
    ///   counts as the zeroed block.
    /// - `Applying`: the port is handed out, open, whatever the answer.
    pub fn step(self, serial: &Serial, reply: OpenReply) -> (next: OpenStep)
        ensures
            match self.stage() {
                Stage::Acquiring => match reply {
                    OpenReply::Handle(handle) if handle != INVALID_HANDLE_VALUE => {
                        &&& next matches OpenStep::Call(state, call)
                        &&& state.stage() == Stage::SettingTimeouts
                        &&& state.port() matches Some(port)
                        &&& port.is_open()
                        &&& port.handle() == handle
                        &&& port.timeout() == serial@.timeout
                        &&& call == (HostCall::SetCommTimeouts {
                            hFile: handle,
                            timeouts: comm_timeouts(serial@.timeout),
                        })
                    },
                    _ => {
                        &&& next matches OpenStep::Done(Err(e))
                        &&& e.kind() == ErrorKind::Unknown
                        &&& e.spec_desc() == "Invalid handle"@
                    },
                },
                Stage::SettingTimeouts => {
                    &&& next matches OpenStep::Call(state, call)
                    &&& state.stage() == Stage::Fetching
                    &&& state.port() == self.port()
                    &&& self.port() matches Some(port)
                    &&& call == (HostCall::GetCommState { hFile: port.handle(), dcb: DCB::zeroed() })
                },
                Stage::Fetching => {
                    &&& next matches OpenStep::Call(state, call)
                    &&& state.stage() == Stage::Applying
                    &&& state.port() == self.port()
                    &&& self.port() matches Some(port)
                    &&& call == (HostCall::SetCommState {
                        hFile: port.handle(),
                        dcb: configured(fetched_block(reply), serial@),
                    })
                },
                Stage::Applying => {
                    &&& next matches OpenStep::Done(Ok(port))
                    &&& self.port() == Some(port)
                    &&& port.is_open()
                },
            },
            next matches OpenStep::Call(state, _) ==> state.remaining() < self.remaining(),
    {
        proof {
            use_type_invariant(&self);
        }
        match self.port {
            None => {
                match reply {
                    OpenReply::Handle(handle) => {
                        if handle == INVALID_HANDLE_VALUE {
                            OpenStep::Done(Err(Error::new(ErrorKind::Unknown, "Invalid handle")))
                        } else {
                            let mut com = COMPort::open_from_handle(handle);
                            com.timeout = serial.timeout();
                            let call = set_timeouts(handle, serial.timeout());
                            OpenStep::Call(
                                Opening { stage: Stage::SettingTimeouts, port: Some(com) },
                                call,
                            )
                        }
                    },
                    _ => OpenStep::Done(Err(Error::new(ErrorKind::Unknown, "Invalid handle"))),
                }
            },
            Some(com) => {
                match self.stage {
                    Stage::Fetching => {
                        let mut dcb = match reply {
                            OpenReply::Block(dcb) => dcb,
                            _ => DCB::new(),
                        };
                        configure(&mut dcb, serial);
                        let call = set_dcb(com.handle, dcb);
                        OpenStep::Call(Opening { stage: Stage::Applying, port: Some(com) }, call)
                    },
                    Stage::Applying => OpenStep::Done(Ok(com)),
                    _ => {
                        let call = get_dcb(com.handle);
                        OpenStep::Call(Opening { stage: Stage::Fetching, port: Some(com) }, call)
                    },
                }
            },
        }
    }
}

/// The byte count of a buffer as the host takes it: modulo 2^32, the width
/// of the native parameter.
pub open spec fn native_len(len: usize) -> DWORD {
    (len as int % 0x1_0000_0000) as DWORD
}

impl COMPort {
    /// The number of the native handle that the port owns.
    pub closed spec fn handle(&self) -> HANDLE {
        self.handle
    }

    pub closed spec fn spec_timeout(&self) -> Timeout {
        self.timeout
    }

    pub closed spec fn spec_is_open(&self) -> bool {
        self.open
    }

    /// The port as it is after release: closed, all else as before.
    pub closed spec fn released(self) -> COMPort {
        COMPort { open: false, ..self }
    }

    /// The host call that a release of this port asks for: closing the
    /// handle while the port is open, none once it is closed.
    pub open spec fn release_call(self) -> Option<HostCall> {
        if self.is_open() {
            Some(HostCall::CloseHandle { hObject: self.handle() })
        } else {
            None
        }
    }

    /// Begins the opening of the port that `serial` describes: the device is
    /// to be opened by its path for reading and writing at once, unshared,
    /// and only if it exists.
    pub fn open(serial: &Serial) -> (first: OpenStep)
        ensures
            first matches OpenStep::Call(state, call) && {
                &&& state.stage() == Stage::Acquiring
                &&& state.port() is None
                &&& acquires(call, serial@.path)
            },
    {
        let path = device_path(serial.path());
        OpenStep::Call(
            Opening { stage: Stage::Acquiring, port: None },
            HostCall::CreateFileW {
                lpFileName: path,
                dwDesiredAccess: GENERIC_READ | GENERIC_WRITE,
                dwShareMode: 0,
                dwCreationDisposition: OPEN_EXISTING,
                dwFlagsAndAttributes: FILE_ATTRIBUTE_NORMAL,
                hTemplateFile: 0,
            },
        )
    }

    fn open_from_handle(handle: HANDLE) -> (com: Self)
        ensures
            com.is_open(),
            com.handle() == handle,
            com.timeout().as_secs() == 0,
            com.timeout().subsec_nanos() == 0,
    {
        Self { handle, timeout: Timeout::from_secs(0), open: true }
    }

    /// The read timeout the port was opened with.
    #[verifier::when_used_as_spec(spec_timeout)]
    pub fn timeout(&self) -> (timeout: Timeout)
        ensures
            timeout == self.spec_timeout(),
    {
        self.timeout
    }

    #[verifier::when_used_as_spec(spec_is_open)]
    pub fn is_open(&self) -> (open: bool)
        ensures
            open == self.spec_is_open(),
    {
        self.open
    }

    /// The call that reads up to `len` bytes into a buffer of that length;
    /// none once the port is released.
    pub fn read_request(&self, len: usize) -> (call: Option<HostCall>)
        ensures
            call == if self.is_open() {
                Some(
                    HostCall::ReadFile {
                        hFile: self.handle(),
                        nNumberOfBytesToRead: native_len(len),
                    },
                )
            } else {
                None
            },
    {
        if self.open {
            Some(
                HostCall::ReadFile {
                    hFile: self.handle,
                    nNumberOfBytesToRead: (len as u64 % 0x1_0000_0000) as DWORD,
                },
            )
        } else {
            None
        }
    }

    /// Judges the host's answer to a read.
    ///
    /// A failed call gives the host's error. A call that succeeded without
    /// moving a byte is how the host reports that the time limit passed: it
    /// gives `TimedOut`, never a count of zero. Otherwise the result is the
    /// count the host reported; bytes of the buffer beyond it hold no data.
    pub fn read(&self, reply: IoReply) -> (result: Result<usize, IoError>)
        ensures
            result == if reply.status == 0 {
                Err::<usize, IoError>(IoError::Host(reply.last_error))
            } else if reply.transferred == 0 {
                Err(IoError::TimedOut)
            } else {
                Ok(reply.transferred as usize)
            },
            result != Ok::<usize, IoError>(0),
    {
        match reply.status {
            0 => Err(IoError::Host(reply.last_error)),
            _ => {
                if reply.transferred != 0 {
                    Ok(reply.transferred as usize)
                } else {
                    Err(IoError::TimedOut)
                }
            },
        }
    }

    /// The call that writes a buffer of `len` bytes; none once the port is
    /// released.
    pub fn write_request(&self, len: usize) -> (call: Option<HostCall>)
        ensures
            call == if self.is_open() {
                Some(
                    HostCall::WriteFile {
                        hFile: self.handle(),
                        nNumberOfBytesToWrite: native_len(len),
                    },
                )
            } else {
                None
            },
    {
        if self.open {
            Some(
                HostCall::WriteFile {
                    hFile: self.handle,
                    nNumberOfBytesToWrite: (len as u64 % 0x1_0000_0000) as DWORD,
                },
            )
        } else {
            None
        }
    }

    /// Judges the host's answer to a write.
    ///
    /// A failed call gives the host's error. Otherwise the result is the
    /// count the host reported, which may be less than was asked for: a
    /// partial transfer is no error, and going on with the rest is up to the
    /// caller.
    pub fn write(&self, reply: IoReply) -> (result: Result<usize, IoError>)
        ensures
            result == if reply.status == 0 {
                Err::<usize, IoError>(IoError::Host(reply.last_error))
            } else {
                Ok(reply.transferred as usize)
            },
    {
        match reply.status {
            0 => Err(IoError::Host(reply.last_error)),
            _ => Ok(reply.transferred as usize),
        }
    }

    /// The call that makes the host complete its buffered writes; none once
    /// the port is released.
    pub fn flush_request(&self) -> (call: Option<HostCall>)
        ensures
            call == if self.is_open() {
                Some(HostCall::FlushFileBuffers { hFile: self.handle() })
            } else {
                None
            },
    {
        if self.open {
            Some(HostCall::FlushFileBuffers { hFile: self.handle })
        } else {
            None
        }
    }

    /// Judges the host's answer to a flush: a failed call gives the host's
    /// error.
    pub fn flush(&self, reply: IoReply) -> (result: Result<(), IoError>)
        ensures
            result == if reply.status == 0 {
                Err::<(), IoError>(IoError::Host(reply.last_error))
            } else {
                Ok(())
            },
    {
        match reply.status {
            0 => Err(IoError::Host(reply.last_error)),
            _ => Ok(()),
        }
    }

    /// Releases the port. The first release hands out the call that closes
    /// the handle; the port is closed from then on, and a later release asks
    /// for nothing. What the host answers to the closing is of no account.
    pub fn release(&mut self) -> (call: Option<HostCall>)
        ensures
            *final(self) == old(self).released(),
            call == old(self).release_call(),
            !final(self).is_open(),
            final(self).handle() == old(self).handle(),
            final(self).timeout() == old(self).timeout(),
    {
        if self.open {
            self.open = false;
            Some(HostCall::CloseHandle { hObject: self.handle })
        } else {
            None
        }
    }

    /// A released port is closed and keeps its handle's number and timeout.
    /// Releasing it again changes nothing and asks for no call, so over any
    /// number of releases the handle is closed at most once.
    pub proof fn lemma_release_once(self)
        ensures
            !self.released().is_open(),
            self.released().handle() == self.handle(),
            self.released().timeout() == self.timeout(),
            self.released().release_call() is None,
            self.released().released() == self.released(),
            self.release_call() is Some <==> self.is_open(),
    {
    }
}

} // verus!
