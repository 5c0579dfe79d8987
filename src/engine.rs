use vstd::prelude::*;
use crate::cfixed_string::CFixedString;
use crate::error::LAST_ERROR_CODE;

verus! {

/// A status code of the profiling engine: zero for success, `1..=43` for
/// the failures that [`crate::error::RemoteryError`] describes.
#[allow(non_camel_case_types)]
#[derive(Debug, Clone, Copy, PartialEq, Eq, Structural)]
pub enum RmtError {
    RMT_ERROR_NONE,
    RMT_ERROR_MALLOC_FAIL,
    RMT_ERROR_TLS_ALLOC_FAIL,
    RMT_ERROR_VIRTUAL_MEMORY_BUFFER_FAIL,
    RMT_ERROR_CREATE_THREAD_FAIL,
    RMT_ERROR_SOCKET_INIT_NETWORK_FAIL,
    RMT_ERROR_SOCKET_CREATE_FAIL,
    RMT_ERROR_SOCKET_BIND_FAIL,
    RMT_ERROR_SOCKET_LISTEN_FAIL,
    RMT_ERROR_SOCKET_SET_NON_BLOCKING_FAIL,
    RMT_ERROR_SOCKET_INVALID_POLL,
    RMT_ERROR_SOCKET_SELECT_FAIL,
    RMT_ERROR_SOCKET_POLL_ERRORS,
    RMT_ERROR_SOCKET_ACCEPT_FAIL,
    RMT_ERROR_SOCKET_SEND_TIMEOUT,
    RMT_ERROR_SOCKET_SEND_FAIL,
    RMT_ERROR_SOCKET_RECV_NO_DATA,
    RMT_ERROR_SOCKET_RECV_TIMEOUT,
    RMT_ERROR_SOCKET_RECV_FAILED,
    RMT_ERROR_WEBSOCKET_HANDSHAKE_NOT_GET,
    RMT_ERROR_WEBSOCKET_HANDSHAKE_NO_VERSION,
    RMT_ERROR_WEBSOCKET_HANDSHAKE_BAD_VERSION,
    RMT_ERROR_WEBSOCKET_HANDSHAKE_NO_HOST,
    RMT_ERROR_WEBSOCKET_HANDSHAKE_BAD_HOST,
    RMT_ERROR_WEBSOCKET_HANDSHAKE_NO_KEY,
    RMT_ERROR_WEBSOCKET_HANDSHAKE_BAD_KEY,
    RMT_ERROR_WEBSOCKET_HANDSHAKE_STRING_FAIL,
    RMT_ERROR_WEBSOCKET_DISCONNECTED,
    RMT_ERROR_WEBSOCKET_BAD_FRAME_HEADER,
    RMT_ERROR_WEBSOCKET_BAD_FRAME_HEADER_SIZE,
    RMT_ERROR_WEBSOCKET_BAD_FRAME_HEADER_MASK,
    RMT_ERROR_WEBSOCKET_RECEIVE_TIMEOUT,
    RMT_ERROR_REMOTERY_NOT_CREATED,
    RMT_ERROR_SEND_ON_INCOMPLETE_PROFILE,
    RMT_ERROR_CUDA_DEINITIALIZED,
    RMT_ERROR_CUDA_NOT_INITIALIZED,
    RMT_ERROR_CUDA_INVALID_CONTEXT,
    RMT_ERROR_CUDA_INVALID_VALUE,
    RMT_ERROR_CUDA_INVALID_HANDLE,
    RMT_ERROR_CUDA_OUT_OF_MEMORY,
    RMT_ERROR_ERROR_NOT_READY,
    RMT_ERROR_D3D11_FAILED_TO_CREATE_QUERY,
    RMT_ERROR_OPENGL_ERROR,
    RMT_ERROR_CUDA_UNKNOWN,
}

impl RmtError {
    /// The numeric status code.
    pub open spec fn spec_status(self) -> u32 {
        match self {
            RmtError::RMT_ERROR_NONE => 0,
            RmtError::RMT_ERROR_MALLOC_FAIL => 1,
            RmtError::RMT_ERROR_TLS_ALLOC_FAIL => 2,
            RmtError::RMT_ERROR_VIRTUAL_MEMORY_BUFFER_FAIL => 3,
            RmtError::RMT_ERROR_CREATE_THREAD_FAIL => 4,
            RmtError::RMT_ERROR_SOCKET_INIT_NETWORK_FAIL => 5,
            RmtError::RMT_ERROR_SOCKET_CREATE_FAIL => 6,
            RmtError::RMT_ERROR_SOCKET_BIND_FAIL => 7,
            RmtError::RMT_ERROR_SOCKET_LISTEN_FAIL => 8,
            RmtError::RMT_ERROR_SOCKET_SET_NON_BLOCKING_FAIL => 9,
            RmtError::RMT_ERROR_SOCKET_INVALID_POLL => 10,
            RmtError::RMT_ERROR_SOCKET_SELECT_FAIL => 11,
            RmtError::RMT_ERROR_SOCKET_POLL_ERRORS => 12,
            RmtError::RMT_ERROR_SOCKET_ACCEPT_FAIL => 13,
            RmtError::RMT_ERROR_SOCKET_SEND_TIMEOUT => 14,
            RmtError::RMT_ERROR_SOCKET_SEND_FAIL => 15,
            RmtError::RMT_ERROR_SOCKET_RECV_NO_DATA => 16,
            RmtError::RMT_ERROR_SOCKET_RECV_TIMEOUT => 17,
            RmtError::RMT_ERROR_SOCKET_RECV_FAILED => 18,
            RmtError::RMT_ERROR_WEBSOCKET_HANDSHAKE_NOT_GET => 19,
            RmtError::RMT_ERROR_WEBSOCKET_HANDSHAKE_NO_VERSION => 20,
            RmtError::RMT_ERROR_WEBSOCKET_HANDSHAKE_BAD_VERSION => 21,
            RmtError::RMT_ERROR_WEBSOCKET_HANDSHAKE_NO_HOST => 22,
            RmtError::RMT_ERROR_WEBSOCKET_HANDSHAKE_BAD_HOST => 23,
            RmtError::RMT_ERROR_WEBSOCKET_HANDSHAKE_NO_KEY => 24,
            RmtError::RMT_ERROR_WEBSOCKET_HANDSHAKE_BAD_KEY => 25,
            RmtError::RMT_ERROR_WEBSOCKET_HANDSHAKE_STRING_FAIL => 26,
            RmtError::RMT_ERROR_WEBSOCKET_DISCONNECTED => 27,
            RmtError::RMT_ERROR_WEBSOCKET_BAD_FRAME_HEADER => 28,
            RmtError::RMT_ERROR_WEBSOCKET_BAD_FRAME_HEADER_SIZE => 29,
            RmtError::RMT_ERROR_WEBSOCKET_BAD_FRAME_HEADER_MASK => 30,
            RmtError::RMT_ERROR_WEBSOCKET_RECEIVE_TIMEOUT => 31,
            RmtError::RMT_ERROR_REMOTERY_NOT_CREATED => 32,
            RmtError::RMT_ERROR_SEND_ON_INCOMPLETE_PROFILE => 33,
            RmtError::RMT_ERROR_CUDA_DEINITIALIZED => 34,
            RmtError::RMT_ERROR_CUDA_NOT_INITIALIZED => 35,
            RmtError::RMT_ERROR_CUDA_INVALID_CONTEXT => 36,
            RmtError::RMT_ERROR_CUDA_INVALID_VALUE => 37,
            RmtError::RMT_ERROR_CUDA_INVALID_HANDLE => 38,
            RmtError::RMT_ERROR_CUDA_OUT_OF_MEMORY => 39,
            RmtError::RMT_ERROR_ERROR_NOT_READY => 40,
            RmtError::RMT_ERROR_D3D11_FAILED_TO_CREATE_QUERY => 41,
            RmtError::RMT_ERROR_OPENGL_ERROR => 42,
            RmtError::RMT_ERROR_CUDA_UNKNOWN => 43,
        }
    }

    /// The numeric status code.
    pub fn status(&self) -> (r: u32)
        ensures
            r == self.spec_status(),
    {
        match self {
            RmtError::RMT_ERROR_NONE => 0,
            RmtError::RMT_ERROR_MALLOC_FAIL => 1,
            RmtError::RMT_ERROR_TLS_ALLOC_FAIL => 2,
            RmtError::RMT_ERROR_VIRTUAL_MEMORY_BUFFER_FAIL => 3,
            RmtError::RMT_ERROR_CREATE_THREAD_FAIL => 4,
            RmtError::RMT_ERROR_SOCKET_INIT_NETWORK_FAIL => 5,
            RmtError::RMT_ERROR_SOCKET_CREATE_FAIL => 6,
            RmtError::RMT_ERROR_SOCKET_BIND_FAIL => 7,
            RmtError::RMT_ERROR_SOCKET_LISTEN_FAIL => 8,
            RmtError::RMT_ERROR_SOCKET_SET_NON_BLOCKING_FAIL => 9,
            RmtError::RMT_ERROR_SOCKET_INVALID_POLL => 10,
            RmtError::RMT_ERROR_SOCKET_SELECT_FAIL => 11,
            RmtError::RMT_ERROR_SOCKET_POLL_ERRORS => 12,
            RmtError::RMT_ERROR_SOCKET_ACCEPT_FAIL => 13,
            RmtError::RMT_ERROR_SOCKET_SEND_TIMEOUT => 14,
            RmtError::RMT_ERROR_SOCKET_SEND_FAIL => 15,
            RmtError::RMT_ERROR_SOCKET_RECV_NO_DATA => 16,
            RmtError::RMT_ERROR_SOCKET_RECV_TIMEOUT => 17,
            RmtError::RMT_ERROR_SOCKET_RECV_FAILED => 18,
            RmtError::RMT_ERROR_WEBSOCKET_HANDSHAKE_NOT_GET => 19,
            RmtError::RMT_ERROR_WEBSOCKET_HANDSHAKE_NO_VERSION => 20,
            RmtError::RMT_ERROR_WEBSOCKET_HANDSHAKE_BAD_VERSION => 21,
            RmtError::RMT_ERROR_WEBSOCKET_HANDSHAKE_NO_HOST => 22,
            RmtError::RMT_ERROR_WEBSOCKET_HANDSHAKE_BAD_HOST => 23,
            RmtError::RMT_ERROR_WEBSOCKET_HANDSHAKE_NO_KEY => 24,
            RmtError::RMT_ERROR_WEBSOCKET_HANDSHAKE_BAD_KEY => 25,
            RmtError::RMT_ERROR_WEBSOCKET_HANDSHAKE_STRING_FAIL => 26,
            RmtError::RMT_ERROR_WEBSOCKET_DISCONNECTED => 27,
            RmtError::RMT_ERROR_WEBSOCKET_BAD_FRAME_HEADER => 28,
            RmtError::RMT_ERROR_WEBSOCKET_BAD_FRAME_HEADER_SIZE => 29,
            RmtError::RMT_ERROR_WEBSOCKET_BAD_FRAME_HEADER_MASK => 30,
            RmtError::RMT_ERROR_WEBSOCKET_RECEIVE_TIMEOUT => 31,
            RmtError::RMT_ERROR_REMOTERY_NOT_CREATED => 32,
            RmtError::RMT_ERROR_SEND_ON_INCOMPLETE_PROFILE => 33,
            RmtError::RMT_ERROR_CUDA_DEINITIALIZED => 34,
            RmtError::RMT_ERROR_CUDA_NOT_INITIALIZED => 35,
            RmtError::RMT_ERROR_CUDA_INVALID_CONTEXT => 36,
            RmtError::RMT_ERROR_CUDA_INVALID_VALUE => 37,
            RmtError::RMT_ERROR_CUDA_INVALID_HANDLE => 38,
            RmtError::RMT_ERROR_CUDA_OUT_OF_MEMORY => 39,
            RmtError::RMT_ERROR_ERROR_NOT_READY => 40,
            RmtError::RMT_ERROR_D3D11_FAILED_TO_CREATE_QUERY => 41,
            RmtError::RMT_ERROR_OPENGL_ERROR => 42,
            RmtError::RMT_ERROR_CUDA_UNKNOWN => 43,
        }
    }

    /// The status whose code is `code`, or `None` past the last known code.
    pub fn from_status(code: u32) -> (r: Option<RmtError>)
        ensures
            r is Some <==> code <= LAST_ERROR_CODE,
            r matches Some(e) ==> e.spec_status() == code,
    {
        match code {
            0 => Some(RmtError::RMT_ERROR_NONE),
            1 => Some(RmtError::RMT_ERROR_MALLOC_FAIL),
            2 => Some(RmtError::RMT_ERROR_TLS_ALLOC_FAIL),
            3 => Some(RmtError::RMT_ERROR_VIRTUAL_MEMORY_BUFFER_FAIL),
            4 => Some(RmtError::RMT_ERROR_CREATE_THREAD_FAIL),
            5 => Some(RmtError::RMT_ERROR_SOCKET_INIT_NETWORK_FAIL),
            6 => Some(RmtError::RMT_ERROR_SOCKET_CREATE_FAIL),
            7 => Some(RmtError::RMT_ERROR_SOCKET_BIND_FAIL),
            8 => Some(RmtError::RMT_ERROR_SOCKET_LISTEN_FAIL),
            9 => Some(RmtError::RMT_ERROR_SOCKET_SET_NON_BLOCKING_FAIL),
            10 => Some(RmtError::RMT_ERROR_SOCKET_INVALID_POLL),
            11 => Some(RmtError::RMT_ERROR_SOCKET_SELECT_FAIL),
            12 => Some(RmtError::RMT_ERROR_SOCKET_POLL_ERRORS),
            13 => Some(RmtError::RMT_ERROR_SOCKET_ACCEPT_FAIL),
            14 => Some(RmtError::RMT_ERROR_SOCKET_SEND_TIMEOUT),
            15 => Some(RmtError::RMT_ERROR_SOCKET_SEND_FAIL),
            16 => Some(RmtError::RMT_ERROR_SOCKET_RECV_NO_DATA),
            17 => Some(RmtError::RMT_ERROR_SOCKET_RECV_TIMEOUT),
            18 => Some(RmtError::RMT_ERROR_SOCKET_RECV_FAILED),
            19 => Some(RmtError::RMT_ERROR_WEBSOCKET_HANDSHAKE_NOT_GET),
            20 => Some(RmtError::RMT_ERROR_WEBSOCKET_HANDSHAKE_NO_VERSION),
            21 => Some(RmtError::RMT_ERROR_WEBSOCKET_HANDSHAKE_BAD_VERSION),
            22 => Some(RmtError::RMT_ERROR_WEBSOCKET_HANDSHAKE_NO_HOST),
            23 => Some(RmtError::RMT_ERROR_WEBSOCKET_HANDSHAKE_BAD_HOST),
            24 => Some(RmtError::RMT_ERROR_WEBSOCKET_HANDSHAKE_NO_KEY),
            25 => Some(RmtError::RMT_ERROR_WEBSOCKET_HANDSHAKE_BAD_KEY),
            26 => Some(RmtError::RMT_ERROR_WEBSOCKET_HANDSHAKE_STRING_FAIL),
            27 => Some(RmtError::RMT_ERROR_WEBSOCKET_DISCONNECTED),
            28 => Some(RmtError::RMT_ERROR_WEBSOCKET_BAD_FRAME_HEADER),
            29 => Some(RmtError::RMT_ERROR_WEBSOCKET_BAD_FRAME_HEADER_SIZE),
            30 => Some(RmtError::RMT_ERROR_WEBSOCKET_BAD_FRAME_HEADER_MASK),
            31 => Some(RmtError::RMT_ERROR_WEBSOCKET_RECEIVE_TIMEOUT),
            32 => Some(RmtError::RMT_ERROR_REMOTERY_NOT_CREATED),
            33 => Some(RmtError::RMT_ERROR_SEND_ON_INCOMPLETE_PROFILE),
            34 => Some(RmtError::RMT_ERROR_CUDA_DEINITIALIZED),
            35 => Some(RmtError::RMT_ERROR_CUDA_NOT_INITIALIZED),
            36 => Some(RmtError::RMT_ERROR_CUDA_INVALID_CONTEXT),
            37 => Some(RmtError::RMT_ERROR_CUDA_INVALID_VALUE),
            38 => Some(RmtError::RMT_ERROR_CUDA_INVALID_HANDLE),
            39 => Some(RmtError::RMT_ERROR_CUDA_OUT_OF_MEMORY),
            40 => Some(RmtError::RMT_ERROR_ERROR_NOT_READY),
            41 => Some(RmtError::RMT_ERROR_D3D11_FAILED_TO_CREATE_QUERY),
            42 => Some(RmtError::RMT_ERROR_OPENGL_ERROR),
            43 => Some(RmtError::RMT_ERROR_CUDA_UNKNOWN),
            _ => None,
        }
    }
}

/// How the engine records a sample.
#[derive(Debug, Clone, Copy, PartialEq, Eq, Structural)]
pub enum SampleFlags {
    /// Default behaviour.
    Default,
    /// Search the parent for same-named samples and merge timing instead of
    /// adding a new sample.
    Aggregate,
}

impl SampleFlags {
    /// The flag word that the engine takes.
    pub open spec fn spec_bits(self) -> u32 {
        match self {
            SampleFlags::Default => 0,
            SampleFlags::Aggregate => 1,
        }
    }

    /// The flag word that the engine takes.
    pub fn bits(&self) -> (r: u32)
        ensures
            r == self.spec_bits(),
    {
        match self {
            SampleFlags::Default => 0,
            SampleFlags::Aggregate => 1,
        }
    }
}

/// One call into the engine, as the library asks for it: the caller performs
/// it against the engine and drops the value afterwards, so that the
/// marshalled text lives exactly as long as the call that borrows it.
#[derive(Debug)]
pub enum EngineCall {
    /// Destroy the engine instance with this address.
    DestroyGlobalInstance { instance: usize },
    /// Begin a named CPU sample on the calling thread.
    BeginCpuSample { name: CFixedString, flags: SampleFlags },
    /// End the innermost open CPU sample of the calling thread.
    EndCpuSample,
    /// Name the calling thread.
    SetCurrentThreadName { name: CFixedString },
    /// Send a line of text to the viewer.
    LogText { text: CFixedString },
}

} // verus!
