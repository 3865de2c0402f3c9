//! The host's native records, constants and calls, as plain values.
//!
//! Names follow the host's own documentation so that a record here can be
//! held against the native layout field by field.
#![allow(non_snake_case, non_camel_case_types, non_upper_case_globals)]

use vstd::prelude::*;

verus! {

pub type BYTE = u8;

pub type CHAR = i8;

pub type WORD = u16;

pub type DWORD = u32;

pub type BOOL = i32;

pub type WCHAR = u16;

/// A native handle, by its numeric value.
pub type HANDLE = usize;

pub const GENERIC_READ: DWORD = 0x80000000;

pub const GENERIC_WRITE: DWORD = 0x40000000;

pub const OPEN_EXISTING: DWORD = 0x3;

pub const FILE_ATTRIBUTE_NORMAL: DWORD = 0x80;

/// The value the host returns in place of a handle when it could not open
/// the device: all bits set.
pub const INVALID_HANDLE_VALUE: HANDLE = usize::MAX;

/// Read and write time limits of a device, in milliseconds. A zero constant
/// with a zero multiplier sets no limit.
#[derive(Debug, Copy, Clone, PartialEq, Eq, Structural)]
pub struct COMMTIMEOUTS {
    pub ReadIntervalTimeout: DWORD,
    pub ReadTotalTimeoutMultiplier: DWORD,
    pub ReadTotalTimeoutConstant: DWORD,
    pub WriteTotalTimeoutMultiplier: DWORD,
    pub WriteTotalTimeoutConstant: DWORD,
}

/// The device control block: every line-level setting of a serial device in
/// one record. `fBits` packs the mode flags, laid out by the masks below.
#[derive(Debug, Copy, Clone, PartialEq, Eq, Structural)]
pub struct DCB {
    pub DCBlength: DWORD,
    pub BaudRate: DWORD,
    pub fBits: DWORD,
    pub wReserved: WORD,
    pub XonLim: WORD,
    pub XoffLim: WORD,
    pub ByteSize: BYTE,
    pub Parity: BYTE,
    pub StopBits: BYTE,
    pub XonChar: CHAR,
    pub XoffChar: CHAR,
    pub ErrorChar: CHAR,
    pub EofChar: CHAR,
    pub EvtChar: CHAR,
    pub wReserved1: WORD,
}

impl DCB {
    /// The block with every field zero.
    pub open spec fn zeroed() -> DCB {
        DCB {
            DCBlength: 0,
            BaudRate: 0,
            fBits: 0,
            wReserved: 0,
            XonLim: 0,
            XoffLim: 0,
            ByteSize: 0,
            Parity: 0,
            StopBits: 0,
            XonChar: 0,
            XoffChar: 0,
            ErrorChar: 0,
            EofChar: 0,
            EvtChar: 0,
            wReserved1: 0,
        }
    }

    pub fn new() -> (dcb: Self)
        ensures
            dcb == DCB::zeroed(),
    {
        DCB {
            DCBlength: 0,
            BaudRate: 0,
            fBits: 0,
            wReserved: 0,
            XonLim: 0,
            XoffLim: 0,
            ByteSize: 0,
            Parity: 0,
            StopBits: 0,
            XonChar: 0,
            XoffChar: 0,
            ErrorChar: 0,
            EofChar: 0,
            EvtChar: 0,
            wReserved1: 0,
        }
    }
}

/// One call of a native primitive, with every argument that varies. The
/// caller performs it and reports what the host answered.
#[derive(Debug, PartialEq, Eq)]
pub enum HostCall {
    /// Open the device named by the NUL-terminated wide string. No security
    /// attributes are passed.
    CreateFileW {
        lpFileName: Vec<WCHAR>,
        dwDesiredAccess: DWORD,
        dwShareMode: DWORD,
        dwCreationDisposition: DWORD,
        dwFlagsAndAttributes: DWORD,
        hTemplateFile: HANDLE,
    },
    SetCommTimeouts { hFile: HANDLE, timeouts: COMMTIMEOUTS },
    /// Let the host fill `dcb` with the device's current settings.
    GetCommState { hFile: HANDLE, dcb: DCB },
    SetCommState { hFile: HANDLE, dcb: DCB },
    /// Read up to the given number of bytes into the caller's buffer, not
    /// overlapped.
    ReadFile { hFile: HANDLE, nNumberOfBytesToRead: DWORD },
    /// Write the given number of bytes from the caller's buffer, not
    /// overlapped.
    WriteFile { hFile: HANDLE, nNumberOfBytesToWrite: DWORD },
    FlushFileBuffers { hFile: HANDLE },
    CloseHandle { hObject: HANDLE },
}

// fBits masks
pub const fBinary: DWORD = 0x00000001;

pub const fParity: DWORD = 0x00000002;

pub const fOutxCtsFlow: DWORD = 0x00000004;

pub const fOutxDsrFlow: DWORD = 0x00000008;

pub const fDtrControl: DWORD = 0x00000030;

pub const fDsrSensitivity: DWORD = 0x00000040;

pub const fTXContinueOnXoff: DWORD = 0x00000080;

pub const fOutX: DWORD = 0x00000100;

pub const fInX: DWORD = 0x00000200;

pub const fErrorChar: DWORD = 0x00000400;

pub const fNull: DWORD = 0x00000800;

pub const fRtsControl: DWORD = 0x00003000;

pub const fAbortOnError: DWORD = 0x00004000;

pub const fDummy2: DWORD = 0xFFFF8000;

// Stop bits
pub const ONESTOPBITS: BYTE = 0;

pub const ONE5STOPBITS: BYTE = 1;

pub const TWOSTOPBITS: BYTE = 2;

// Parity
pub const NOPARITY: BYTE = 0;

pub const ODDPARITY: BYTE = 1;

pub const EVENPARITY: BYTE = 2;

pub const MARKPARITY: BYTE = 3;

pub const SPACEPARITY: BYTE = 4;

} // verus!
