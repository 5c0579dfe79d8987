use vstd::prelude::*;

verus! {

/// A failure reported by the profiling engine.
///
/// Each kind stands for one engine status code in `1..=43`; the code of a
/// kind is given by [`RemoteryError::spec_code`].
#[derive(Debug, Clone, Copy, PartialEq, Eq, Structural)]
pub enum RemoteryError {
    /// Malloc call within remotery failed
    Malloc,
    /// Attempt to allocate thread local storage failed
    TlsAllocFail,
    /// Failed to create a virtual memory mirror buffer
    VirtualMemoryBufferFail,
    /// Failed to create a thread for the server
    CreateThreadFail,
    /// Network initialisation failure (e.g. on Win32, WSAStartup fails)
    SocketInitNetworkFail,
    /// Can't create a socket for connection to the remote viewer
    SocketCreateFail,
    /// Can't bind a socket for the server
    SocketBindFail,
    /// Created server socket failed to enter a listen state
    SocketListenFail,
    /// Created server socket failed to switch to a non-blocking state
    SocketSetNonBlockingFail,
    /// Poll attempt on an invalid socket
    SocketInvalidPoll,
    /// Server failed to call select on socket
    SocketSelectFail,
    /// Poll notified that the socket has errors
    SocketPollErrors,
    /// Server failed to accept connection from client
    SocketAcceptFail,
    /// Timed out trying to send data
    SocketSendTimeout,
    /// Unrecoverable error occured while client/server tried to send data
    SocketSendFail,
    /// No data available when attempting a receive
    SocketRecvNoData,
    /// Timed out trying to receive data
    SocketRecvTimeout,
    /// Unrecoverable error occured while client/server tried to receive data
    SocketRecvFailed,
    /// WebSocket server handshake failed, not HTTP GET
    WebsocketHandshakeNotGet,
    /// WebSocket server handshake failed, can't locate WebSocket version
    WebsocketHandshakeNoVersion,
    /// WebSocket server handshake failed, unsupported WebSocket version
    WebsocketHandshakeBadVersion,
    /// WebSocket server handshake failed, can't locate host
    WebsocketHandshakeNoHost,
    /// WebSocket server handshake failed, host is not allowed to connect
    WebsocketHandshakeBadHost,
    /// WebSocket server handshake failed, can't locate WebSocket key
    WebsocketHandshakeNoKey,
    /// WebSocket server handshake failed, WebSocket key is ill-formed
    WebsocketHandshakeBadKey,
    /// WebSocket server handshake failed, internal error, bad string code
    WebsocketHandshakeStringFail,
    /// WebSocket server received a disconnect request and closed the socket
    WebsocketDisconnected,
    /// Couldn't parse WebSocket frame header
    WebsocketBadFrameHeader,
    /// Partially received wide frame header size
    WebsocketBadFrameHeaderSize,
    /// Partially received frame header data mask
    WebsocketBadFrameHeaderMask,
    /// Timeout receiving frame header
    WebsocketReceiveTimeout,
    /// Remotery object has not been created
    RemoteryNotCreated,
    /// An attempt was made to send an incomplete profile tree to the client
    SendOnIncompleteProfile,
    /// This indicates that the CUDA driver is in the process of shutting down
    CudaDeinitialized,
    /// This indicates that the CUDA driver has not been initialized with cuInit() or that initialization has failed
    CudaNotInitialized,
    /// This most frequently indicates that there is no context bound to the current thread
    CudaInvalidContext,
    /// This indicates that one or more of the parameters passed to the API call is not within an acceptable range of values
    CudaInvalidValue,
    /// This indicates that a resource handle passed to the API call was not valid
    CudaInvalidHandle,
    /// The API call failed because it was unable to allocate enough memory to perform the requested operation
    CudaOutofMemory,
    /// This indicates that asynchronous operations issued previously have not completed yet
    ErrorNotReady,
    /// Failed to create query for sample
    D3d11FailedToCreateQuery,
    /// Generic OpenGL error, no real need to expose more detail since app will probably have an OpenGL error callback registered
    OpenglError,
    /// Unknown error
    Unknown,
}

/// Largest status code that names a kind of [`RemoteryError`].
pub const LAST_ERROR_CODE: u32 = 43;

impl RemoteryError {
    /// The engine status code that this kind stands for.
    pub open spec fn spec_code(self) -> u32 {
        match self {
            RemoteryError::Malloc => 1,
            RemoteryError::TlsAllocFail => 2,
            RemoteryError::VirtualMemoryBufferFail => 3,
            RemoteryError::CreateThreadFail => 4,
            RemoteryError::SocketInitNetworkFail => 5,
            RemoteryError::SocketCreateFail => 6,
            RemoteryError::SocketBindFail => 7,
            RemoteryError::SocketListenFail => 8,
            RemoteryError::SocketSetNonBlockingFail => 9,
            RemoteryError::SocketInvalidPoll => 10,
            RemoteryError::SocketSelectFail => 11,
            RemoteryError::SocketPollErrors => 12,
            RemoteryError::SocketAcceptFail => 13,
            RemoteryError::SocketSendTimeout => 14,
            RemoteryError::SocketSendFail => 15,
            RemoteryError::SocketRecvNoData => 16,
            RemoteryError::SocketRecvTimeout => 17,
            RemoteryError::SocketRecvFailed => 18,
            RemoteryError::WebsocketHandshakeNotGet => 19,
            RemoteryError::WebsocketHandshakeNoVersion => 20,
            RemoteryError::WebsocketHandshakeBadVersion => 21,
            RemoteryError::WebsocketHandshakeNoHost => 22,
            RemoteryError::WebsocketHandshakeBadHost => 23,
            RemoteryError::WebsocketHandshakeNoKey => 24,
            RemoteryError::WebsocketHandshakeBadKey => 25,
            RemoteryError::WebsocketHandshakeStringFail => 26,
            RemoteryError::WebsocketDisconnected => 27,
            RemoteryError::WebsocketBadFrameHeader => 28,
            RemoteryError::WebsocketBadFrameHeaderSize => 29,
            RemoteryError::WebsocketBadFrameHeaderMask => 30,
            RemoteryError::WebsocketReceiveTimeout => 31,
            RemoteryError::RemoteryNotCreated => 32,
            RemoteryError::SendOnIncompleteProfile => 33,
            RemoteryError::CudaDeinitialized => 34,
            RemoteryError::CudaNotInitialized => 35,
            RemoteryError::CudaInvalidContext => 36,
            RemoteryError::CudaInvalidValue => 37,
            RemoteryError::CudaInvalidHandle => 38,
            RemoteryError::CudaOutofMemory => 39,
            RemoteryError::ErrorNotReady => 40,
            RemoteryError::D3d11FailedToCreateQuery => 41,
            RemoteryError::OpenglError => 42,
            RemoteryError::Unknown => 43,
        }
    }

    /// The engine status code that this kind stands for.
    pub fn code(&self) -> (r: u32)
        ensures
            r == self.spec_code(),
    {
        match self {
            RemoteryError::Malloc => 1,
            RemoteryError::TlsAllocFail => 2,
            RemoteryError::VirtualMemoryBufferFail => 3,
            RemoteryError::CreateThreadFail => 4,
            RemoteryError::SocketInitNetworkFail => 5,
            RemoteryError::SocketCreateFail => 6,
            RemoteryError::SocketBindFail => 7,
            RemoteryError::SocketListenFail => 8,
            RemoteryError::SocketSetNonBlockingFail => 9,
            RemoteryError::SocketInvalidPoll => 10,
            RemoteryError::SocketSelectFail => 11,
            RemoteryError::SocketPollErrors => 12,
            RemoteryError::SocketAcceptFail => 13,
            RemoteryError::SocketSendTimeout => 14,
            RemoteryError::SocketSendFail => 15,
            RemoteryError::SocketRecvNoData => 16,
            RemoteryError::SocketRecvTimeout => 17,
            RemoteryError::SocketRecvFailed => 18,
            RemoteryError::WebsocketHandshakeNotGet => 19,
            RemoteryError::WebsocketHandshakeNoVersion => 20,
            RemoteryError::WebsocketHandshakeBadVersion => 21,
            RemoteryError::WebsocketHandshakeNoHost => 22,
            RemoteryError::WebsocketHandshakeBadHost => 23,
            RemoteryError::WebsocketHandshakeNoKey => 24,
            RemoteryError::WebsocketHandshakeBadKey => 25,
            RemoteryError::WebsocketHandshakeStringFail => 26,
            RemoteryError::WebsocketDisconnected => 27,
            RemoteryError::WebsocketBadFrameHeader => 28,
            RemoteryError::WebsocketBadFrameHeaderSize => 29,
            RemoteryError::WebsocketBadFrameHeaderMask => 30,
            RemoteryError::WebsocketReceiveTimeout => 31,
            RemoteryError::RemoteryNotCreated => 32,
            RemoteryError::SendOnIncompleteProfile => 33,
            RemoteryError::CudaDeinitialized => 34,
            RemoteryError::CudaNotInitialized => 35,
            RemoteryError::CudaInvalidContext => 36,
            RemoteryError::CudaInvalidValue => 37,
            RemoteryError::CudaInvalidHandle => 38,
            RemoteryError::CudaOutofMemory => 39,
            RemoteryError::ErrorNotReady => 40,
            RemoteryError::D3d11FailedToCreateQuery => 41,
            RemoteryError::OpenglError => 42,
            RemoteryError::Unknown => 43,
        }
    }

    /// The fixed text that describes this kind.
    pub open spec fn spec_description(self) -> Seq<char> {
        match self {
            RemoteryError::Malloc => "Malloc call within remotery failed"@,
            RemoteryError::TlsAllocFail => "Attempt to allocate thread local storage failed"@,
            RemoteryError::VirtualMemoryBufferFail => "Failed to create a virtual memory mirror buffer"@,
            RemoteryError::CreateThreadFail => "Failed to create a thread for the server"@,
            RemoteryError::SocketInitNetworkFail => "Network initialisation failure (e.g. on Win32, WSAStartup fails)"@,
            RemoteryError::SocketCreateFail => "Can't create a socket for connection to the remote viewer"@,
            RemoteryError::SocketBindFail => "Can't bind a socket for the server"@,
            RemoteryError::SocketListenFail => "Created server socket failed to enter a listen state"@,
            RemoteryError::SocketSetNonBlockingFail => "Created server socket failed to switch to a non-blocking state"@,
            RemoteryError::SocketInvalidPoll => "Poll attempt on an invalid socket"@,
            RemoteryError::SocketSelectFail => "Server failed to call select on socket"@,
            RemoteryError::SocketPollErrors => "Poll notified that the socket has errors"@,
            RemoteryError::SocketAcceptFail => "Server failed to accept connection from client"@,
            RemoteryError::SocketSendTimeout => "Timed out trying to send data"@,
            RemoteryError::SocketSendFail => "Unrecoverable error occured while client/server tried to send data"@,
            RemoteryError::SocketRecvNoData => "No data available when attempting a receive"@,
            RemoteryError::SocketRecvTimeout => "Timed out trying to receive data"@,
            RemoteryError::SocketRecvFailed => "Unrecoverable error occured while client/server tried to receive data"@,
            RemoteryError::WebsocketHandshakeNotGet => "WebSocket server handshake failed, not HTTP GET"@,
            RemoteryError::WebsocketHandshakeNoVersion => "WebSocket server handshake failed, can't locate WebSocket version"@,
            RemoteryError::WebsocketHandshakeBadVersion => "WebSocket server handshake failed, unsupported WebSocket version"@,
            RemoteryError::WebsocketHandshakeNoHost => "WebSocket server handshake failed, can't locate host"@,
            RemoteryError::WebsocketHandshakeBadHost => "WebSocket server handshake failed, host is not allowed to connect"@,
            RemoteryError::WebsocketHandshakeNoKey => "WebSocket server handshake failed, can't locate WebSocket key"@,
            RemoteryError::WebsocketHandshakeBadKey => "WebSocket server handshake failed, WebSocket key is ill-formed"@,
            RemoteryError::WebsocketHandshakeStringFail => "WebSocket server handshake failed, internal error, bad string code"@,
            RemoteryError::WebsocketDisconnected => "WebSocket server received a disconnect request and closed the socket"@,
            RemoteryError::WebsocketBadFrameHeader => "Couldn't parse WebSocket frame header"@,
            RemoteryError::WebsocketBadFrameHeaderSize => "Partially received wide frame header size"@,
            RemoteryError::WebsocketBadFrameHeaderMask => "Partially received frame header data mask"@,
            RemoteryError::WebsocketReceiveTimeout => "Timeout receiving frame header"@,
            RemoteryError::RemoteryNotCreated => "Remotery object has not been created"@,
            RemoteryError::SendOnIncompleteProfile => "An attempt was made to send an incomplete profile tree to the client"@,
            RemoteryError::CudaDeinitialized => "This indicates that the CUDA driver is in the process of shutting down"@,
            RemoteryError::CudaNotInitialized => "This indicates that the CUDA driver has not been initialized with cuInit() or that initialization has failed"@,
            RemoteryError::CudaInvalidContext => "This most frequently indicates that there is no context bound to the current thread"@,
            RemoteryError::CudaInvalidValue => "This indicates that one or more of the parameters passed to the API call is not within an acceptable range of values"@,
            RemoteryError::CudaInvalidHandle => "This indicates that a resource handle passed to the API call was not valid"@,
            RemoteryError::CudaOutofMemory => "The API call failed because it was unable to allocate enough memory to perform the requested operation"@,
            RemoteryError::ErrorNotReady => "This indicates that asynchronous operations issued previously have not completed yet"@,
            RemoteryError::D3d11FailedToCreateQuery => "Failed to create query for sample"@,
            RemoteryError::OpenglError => "Generic OpenGL error, no real need to expose more detail since app will probably have an OpenGL error callback registered"@,
            RemoteryError::Unknown => "Unknown error"@,
        }
    }

    /// The fixed text that describes this kind.
    pub fn description(&self) -> (r: &'static str)
        ensures
            r@ == self.spec_description(),
    {
        remotery_error_to_string(*self)
    }
}

/// The fixed text that describes `id`.
pub fn remotery_error_to_string(id: RemoteryError) -> (r: &'static str)
    ensures
        r@ == id.spec_description(),
{
    match id {
        RemoteryError::Malloc => "Malloc call within remotery failed",
        RemoteryError::TlsAllocFail => "Attempt to allocate thread local storage failed",
        RemoteryError::VirtualMemoryBufferFail => "Failed to create a virtual memory mirror buffer",
        RemoteryError::CreateThreadFail => "Failed to create a thread for the server",
        RemoteryError::SocketInitNetworkFail => "Network initialisation failure (e.g. on Win32, WSAStartup fails)",
        RemoteryError::SocketCreateFail => "Can't create a socket for connection to the remote viewer",
        RemoteryError::SocketBindFail => "Can't bind a socket for the server",
        RemoteryError::SocketListenFail => "Created server socket failed to enter a listen state",
        RemoteryError::SocketSetNonBlockingFail => "Created server socket failed to switch to a non-blocking state",
        RemoteryError::SocketInvalidPoll => "Poll attempt on an invalid socket",
        RemoteryError::SocketSelectFail => "Server failed to call select on socket",
        RemoteryError::SocketPollErrors => "Poll notified that the socket has errors",
        RemoteryError::SocketAcceptFail => "Server failed to accept connection from client",
        RemoteryError::SocketSendTimeout => "Timed out trying to send data",
        RemoteryError::SocketSendFail => "Unrecoverable error occured while client/server tried to send data",
        RemoteryError::SocketRecvNoData => "No data available when attempting a receive",
        RemoteryError::SocketRecvTimeout => "Timed out trying to receive data",
        RemoteryError::SocketRecvFailed => "Unrecoverable error occured while client/server tried to receive data",
        RemoteryError::WebsocketHandshakeNotGet => "WebSocket server handshake failed, not HTTP GET",
        RemoteryError::WebsocketHandshakeNoVersion => "WebSocket server handshake failed, can't locate WebSocket version",
        RemoteryError::WebsocketHandshakeBadVersion => "WebSocket server handshake failed, unsupported WebSocket version",
        RemoteryError::WebsocketHandshakeNoHost => "WebSocket server handshake failed, can't locate host",
        RemoteryError::WebsocketHandshakeBadHost => "WebSocket server handshake failed, host is not allowed to connect",
        RemoteryError::WebsocketHandshakeNoKey => "WebSocket server handshake failed, can't locate WebSocket key",
        RemoteryError::WebsocketHandshakeBadKey => "WebSocket server handshake failed, WebSocket key is ill-formed",
        RemoteryError::WebsocketHandshakeStringFail => "WebSocket server handshake failed, internal error, bad string code",
        RemoteryError::WebsocketDisconnected => "WebSocket server received a disconnect request and closed the socket",
        RemoteryError::WebsocketBadFrameHeader => "Couldn't parse WebSocket frame header",
        RemoteryError::WebsocketBadFrameHeaderSize => "Partially received wide frame header size",
        RemoteryError::WebsocketBadFrameHeaderMask => "Partially received frame header data mask",
        RemoteryError::WebsocketReceiveTimeout => "Timeout receiving frame header",
        RemoteryError::RemoteryNotCreated => "Remotery object has not been created",
        RemoteryError::SendOnIncompleteProfile => "An attempt was made to send an incomplete profile tree to the client",
        RemoteryError::CudaDeinitialized => "This indicates that the CUDA driver is in the process of shutting down",
        RemoteryError::CudaNotInitialized => "This indicates that the CUDA driver has not been initialized with cuInit() or that initialization has failed",
        RemoteryError::CudaInvalidContext => "This most frequently indicates that there is no context bound to the current thread",
        RemoteryError::CudaInvalidValue => "This indicates that one or more of the parameters passed to the API call is not within an acceptable range of values",
        RemoteryError::CudaInvalidHandle => "This indicates that a resource handle passed to the API call was not valid",
        RemoteryError::CudaOutofMemory => "The API call failed because it was unable to allocate enough memory to perform the requested operation",
        RemoteryError::ErrorNotReady => "This indicates that asynchronous operations issued previously have not completed yet",
        RemoteryError::D3d11FailedToCreateQuery => "Failed to create query for sample",
        RemoteryError::OpenglError => "Generic OpenGL error, no real need to expose more detail since app will probably have an OpenGL error callback registered",
        RemoteryError::Unknown => "Unknown error",
    }
}

/// The kind that an engine status code decodes to: the kind whose code is
/// `id` when `id` lies in `1..=43`, and `Unknown` for every other value.
pub open spec fn spec_get_error(id: u32) -> RemoteryError {
    if 1 <= id <= LAST_ERROR_CODE {
        choose|e: RemoteryError| e.spec_code() == id
    } else {
        RemoteryError::Unknown
    }
}

/// Decodes an engine status code; it never fails.
pub fn get_error(id: u32) -> (r: RemoteryError)
    ensures
        r == spec_get_error(id),
{
    let r = match id {
        1 => RemoteryError::Malloc,
        2 => RemoteryError::TlsAllocFail,
        3 => RemoteryError::VirtualMemoryBufferFail,
        4 => RemoteryError::CreateThreadFail,
        5 => RemoteryError::SocketInitNetworkFail,
        6 => RemoteryError::SocketCreateFail,
        7 => RemoteryError::SocketBindFail,
        8 => RemoteryError::SocketListenFail,
        9 => RemoteryError::SocketSetNonBlockingFail,
        10 => RemoteryError::SocketInvalidPoll,
        11 => RemoteryError::SocketSelectFail,
        12 => RemoteryError::SocketPollErrors,
        13 => RemoteryError::SocketAcceptFail,
        14 => RemoteryError::SocketSendTimeout,
        15 => RemoteryError::SocketSendFail,
        16 => RemoteryError::SocketRecvNoData,
        17 => RemoteryError::SocketRecvTimeout,
        18 => RemoteryError::SocketRecvFailed,
        19 => RemoteryError::WebsocketHandshakeNotGet,
        20 => RemoteryError::WebsocketHandshakeNoVersion,
        21 => RemoteryError::WebsocketHandshakeBadVersion,
        22 => RemoteryError::WebsocketHandshakeNoHost,
        23 => RemoteryError::WebsocketHandshakeBadHost,
        24 => RemoteryError::WebsocketHandshakeNoKey,
        25 => RemoteryError::WebsocketHandshakeBadKey,
        26 => RemoteryError::WebsocketHandshakeStringFail,
        27 => RemoteryError::WebsocketDisconnected,
        28 => RemoteryError::WebsocketBadFrameHeader,
        29 => RemoteryError::WebsocketBadFrameHeaderSize,
        30 => RemoteryError::WebsocketBadFrameHeaderMask,
        31 => RemoteryError::WebsocketReceiveTimeout,
        32 => RemoteryError::RemoteryNotCreated,
        33 => RemoteryError::SendOnIncompleteProfile,
        34 => RemoteryError::CudaDeinitialized,
        35 => RemoteryError::CudaNotInitialized,
        36 => RemoteryError::CudaInvalidContext,
        37 => RemoteryError::CudaInvalidValue,
        38 => RemoteryError::CudaInvalidHandle,
        39 => RemoteryError::CudaOutofMemory,
        40 => RemoteryError::ErrorNotReady,
        41 => RemoteryError::D3d11FailedToCreateQuery,
        42 => RemoteryError::OpenglError,
        43 => RemoteryError::Unknown,
        _ => RemoteryError::Unknown,
    };
    proof {
        if 1 <= id <= LAST_ERROR_CODE {
            assert(r.spec_code() == id);
            lemma_code_injective(r, spec_get_error(id));
        }
    }
    r
}

/// Two kinds with the same code are the same kind.
pub proof fn lemma_code_injective(a: RemoteryError, b: RemoteryError)
    ensures
        a.spec_code() == b.spec_code() ==> a == b,
{
}

/// Every status code in `1..=43` decodes to a kind of its own: two different
/// known codes never decode to the same kind.
pub proof fn lemma_known_codes_distinct(a: u32, b: u32)
    requires
        1 <= a <= LAST_ERROR_CODE,
        1 <= b <= LAST_ERROR_CODE,
        a != b,
    ensures
        spec_get_error(a) != spec_get_error(b),
{
    lemma_decode_known(a);
    lemma_decode_known(b);
}

/// A known status code decodes to the kind whose code it is.
pub proof fn lemma_decode_known(id: u32)
    requires
        1 <= id <= LAST_ERROR_CODE,
    ensures
        spec_get_error(id).spec_code() == id,
{
    if id == 1 {
        assert(RemoteryError::Malloc.spec_code() == id);
    } else if id == 2 {
        assert(RemoteryError::TlsAllocFail.spec_code() == id);
    } else if id == 3 {
        assert(RemoteryError::VirtualMemoryBufferFail.spec_code() == id);
    } else if id == 4 {
        assert(RemoteryError::CreateThreadFail.spec_code() == id);
    } else if id == 5 {
        assert(RemoteryError::SocketInitNetworkFail.spec_code() == id);
    } else if id == 6 {
        assert(RemoteryError::SocketCreateFail.spec_code() == id);
    } else if id == 7 {
        assert(RemoteryError::SocketBindFail.spec_code() == id);
    } else if id == 8 {
        assert(RemoteryError::SocketListenFail.spec_code() == id);
    } else if id == 9 {
        assert(RemoteryError::SocketSetNonBlockingFail.spec_code() == id);
    } else if id == 10 {
        assert(RemoteryError::SocketInvalidPoll.spec_code() == id);
    } else if id == 11 {
        assert(RemoteryError::SocketSelectFail.spec_code() == id);
    } else if id == 12 {
        assert(RemoteryError::SocketPollErrors.spec_code() == id);
    } else if id == 13 {
        assert(RemoteryError::SocketAcceptFail.spec_code() == id);
    } else if id == 14 {
        assert(RemoteryError::SocketSendTimeout.spec_code() == id);
    } else if id == 15 {
        assert(RemoteryError::SocketSendFail.spec_code() == id);
    } else if id == 16 {
        assert(RemoteryError::SocketRecvNoData.spec_code() == id);
    } else if id == 17 {
        assert(RemoteryError::SocketRecvTimeout.spec_code() == id);
    } else if id == 18 {
        assert(RemoteryError::SocketRecvFailed.spec_code() == id);
    } else if id == 19 {
        assert(RemoteryError::WebsocketHandshakeNotGet.spec_code() == id);
    } else if id == 20 {
        assert(RemoteryError::WebsocketHandshakeNoVersion.spec_code() == id);
    } else if id == 21 {
        assert(RemoteryError::WebsocketHandshakeBadVersion.spec_code() == id);
    } else if id == 22 {
        assert(RemoteryError::WebsocketHandshakeNoHost.spec_code() == id);
    } else if id == 23 {
        assert(RemoteryError::WebsocketHandshakeBadHost.spec_code() == id);
    } else if id == 24 {
        assert(RemoteryError::WebsocketHandshakeNoKey.spec_code() == id);
    } else if id == 25 {
        assert(RemoteryError::WebsocketHandshakeBadKey.spec_code() == id);
    } else if id == 26 {
        assert(RemoteryError::WebsocketHandshakeStringFail.spec_code() == id);
    } else if id == 27 {
        assert(RemoteryError::WebsocketDisconnected.spec_code() == id);
    } else if id == 28 {
        assert(RemoteryError::WebsocketBadFrameHeader.spec_code() == id);
    } else if id == 29 {
        assert(RemoteryError::WebsocketBadFrameHeaderSize.spec_code() == id);
    } else if id == 30 {
        assert(RemoteryError::WebsocketBadFrameHeaderMask.spec_code() == id);
    } else if id == 31 {
        assert(RemoteryError::WebsocketReceiveTimeout.spec_code() == id);
    } else if id == 32 {
        assert(RemoteryError::RemoteryNotCreated.spec_code() == id);
    } else if id == 33 {
        assert(RemoteryError::SendOnIncompleteProfile.spec_code() == id);
    } else if id == 34 {
        assert(RemoteryError::CudaDeinitialized.spec_code() == id);
    } else if id == 35 {
        assert(RemoteryError::CudaNotInitialized.spec_code() == id);
    } else if id == 36 {
        assert(RemoteryError::CudaInvalidContext.spec_code() == id);
    } else if id == 37 {
        assert(RemoteryError::CudaInvalidValue.spec_code() == id);
    } else if id == 38 {
        assert(RemoteryError::CudaInvalidHandle.spec_code() == id);
    } else if id == 39 {
        assert(RemoteryError::CudaOutofMemory.spec_code() == id);
    } else if id == 40 {
        assert(RemoteryError::ErrorNotReady.spec_code() == id);
    } else if id == 41 {
        assert(RemoteryError::D3d11FailedToCreateQuery.spec_code() == id);
    } else if id == 42 {
        assert(RemoteryError::OpenglError.spec_code() == id);
    } else if id == 43 {
        assert(RemoteryError::Unknown.spec_code() == id);
    }
}

/// Zero (the engine's success status) and every code past the known range
/// decode to `Unknown`.
pub proof fn lemma_unknown_codes(id: u32)
    requires
        id == 0 || id > LAST_ERROR_CODE,
    ensures
        spec_get_error(id) == RemoteryError::Unknown,
{
}

/// Decoding is stable: decoding the code of a decoded kind gives that kind
/// back, and every kind is what its own code decodes to.
pub proof fn lemma_decode_idempotent(id: u32, e: RemoteryError)
    ensures
        spec_get_error(spec_get_error(id).spec_code()) == spec_get_error(id),
        spec_get_error(e.spec_code()) == e,
{
    lemma_decode_kind(spec_get_error(id));
    lemma_decode_kind(e);
}

/// Every kind is what its own code decodes to.
pub proof fn lemma_decode_kind(e: RemoteryError)
    ensures
        spec_get_error(e.spec_code()) == e,
{
    lemma_decode_known(e.spec_code());
    lemma_code_injective(e, spec_get_error(e.spec_code()));
}

/// Every kind has a non-empty description.
pub proof fn lemma_description_non_empty(e: RemoteryError)
    ensures
        e.spec_description().len() > 0,
{
    lemma_description_table(e, e);
}

/// Different kinds have different descriptions.
pub proof fn lemma_descriptions_distinct(a: RemoteryError, b: RemoteryError)
    requires
        a != b,
    ensures
        a.spec_description() != b.spec_description(),
{
    lemma_description_table(a, b);
}

/// Reads the description table: every text is non-empty, and any two texts
/// of different kinds differ in length or at index 21 or 35.
#[verifier::rlimit(100)]
proof fn lemma_description_table(a: RemoteryError, b: RemoteryError)
    ensures
        a.spec_description().len() > 0,
        a != b ==> a.spec_description() != b.spec_description(),
{
        reveal_strlit("Malloc call within remotery failed");
        reveal_strlit("Attempt to allocate thread local storage failed");
        reveal_strlit("Failed to create a virtual memory mirror buffer");
        reveal_strlit("Failed to create a thread for the server");
        reveal_strlit("Network initialisation failure (e.g. on Win32, WSAStartup fails)");
        reveal_strlit("Can't create a socket for connection to the remote viewer");
        reveal_strlit("Can't bind a socket for the server");
        reveal_strlit("Created server socket failed to enter a listen state");
        reveal_strlit("Created server socket failed to switch to a non-blocking state");
        reveal_strlit("Poll attempt on an invalid socket");
        reveal_strlit("Server failed to call select on socket");
        reveal_strlit("Poll notified that the socket has errors");
        reveal_strlit("Server failed to accept connection from client");
        reveal_strlit("Timed out trying to send data");
        reveal_strlit("Unrecoverable error occured while client/server tried to send data");
        reveal_strlit("No data available when attempting a receive");
        reveal_strlit("Timed out trying to receive data");
        reveal_strlit("Unrecoverable error occured while client/server tried to receive data");
        reveal_strlit("WebSocket server handshake failed, not HTTP GET");
        reveal_strlit("WebSocket server handshake failed, can't locate WebSocket version");
        reveal_strlit("WebSocket server handshake failed, unsupported WebSocket version");
        reveal_strlit("WebSocket server handshake failed, can't locate host");
        reveal_strlit("WebSocket server handshake failed, host is not allowed to connect");
        reveal_strlit("WebSocket server handshake failed, can't locate WebSocket key");
        reveal_strlit("WebSocket server handshake failed, WebSocket key is ill-formed");
        reveal_strlit("WebSocket server handshake failed, internal error, bad string code");
        reveal_strlit("WebSocket server received a disconnect request and closed the socket");
        reveal_strlit("Couldn't parse WebSocket frame header");
        reveal_strlit("Partially received wide frame header size");
        reveal_strlit("Partially received frame header data mask");
        reveal_strlit("Timeout receiving frame header");
        reveal_strlit("Remotery object has not been created");
        reveal_strlit("An attempt was made to send an incomplete profile tree to the client");
        reveal_strlit("This indicates that the CUDA driver is in the process of shutting down");
        reveal_strlit("This indicates that the CUDA driver has not been initialized with cuInit() or that initialization has failed");
        reveal_strlit("This most frequently indicates that there is no context bound to the current thread");
        reveal_strlit("This indicates that one or more of the parameters passed to the API call is not within an acceptable range of values");
        reveal_strlit("This indicates that a resource handle passed to the API call was not valid");
        reveal_strlit("The API call failed because it was unable to allocate enough memory to perform the requested operation");
        reveal_strlit("This indicates that asynchronous operations issued previously have not completed yet");
        reveal_strlit("Failed to create query for sample");
        reveal_strlit("Generic OpenGL error, no real need to expose more detail since app will probably have an OpenGL error callback registered");
        reveal_strlit("Unknown error");
    let da = a.spec_description();
    let db = b.spec_description();
    if da == db {
        assert(da.len() == db.len());
        if 21 < da.len() {
            assert(da[21] == db[21]);
        }
        if 35 < da.len() {
            assert(da[35] == db[35]);
        }
    }
}

} // verus!
