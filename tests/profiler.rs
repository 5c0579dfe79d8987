use remotery::cfixed_string::{CFixedString, NulError};
use remotery::error::{get_error, remotery_error_to_string, RemoteryError, LAST_ERROR_CODE};
use remotery::{CallError, EngineCall, Remotery, RemoteryScope, RmtError, SampleFlags};

/// Stands in for the engine: records every call it is asked to perform.
struct FakeEngine {
    calls: Vec<String>,
}

impl FakeEngine {
    fn new() -> FakeEngine {
        FakeEngine { calls: Vec::new() }
    }

    fn perform(&mut self, call: EngineCall) {
        let text = |c: &CFixedString| {
            let b = c.as_bytes_with_nul();
            String::from_utf8(b[..b.len() - 1].to_vec()).unwrap()
        };
        let entry = match &call {
            EngineCall::DestroyGlobalInstance { instance } => format!("destroy({})", instance),
            EngineCall::BeginCpuSample { name, flags } => {
                format!("begin({},{})", text(name), flags.bits())
            }
            EngineCall::EndCpuSample => "end".to_string(),
            EngineCall::SetCurrentThreadName { name } => format!("thread({})", text(name)),
            EngineCall::LogText { text: t } => format!("log({})", text(t)),
        };
        self.calls.push(entry);
    }

    fn count(&self, prefix: &str) -> usize {
        self.calls.iter().filter(|c| c.starts_with(prefix)).count()
    }
}

/// Ends its scope when dropped, on every way out of the enclosing block.
struct Guard<'a> {
    scope: Option<RemoteryScope<'a>>,
    engine: &'a std::cell::RefCell<FakeEngine>,
}

impl<'a> Guard<'a> {
    fn open(profiler: &'a Remotery, engine: &'a std::cell::RefCell<FakeEngine>, name: &str) -> Guard<'a> {
        let (scope, begin) = RemoteryScope::new(profiler, name, SampleFlags::Default);
        if let Ok(call) = begin {
            engine.borrow_mut().perform(call);
        }
        Guard { scope: Some(scope), engine }
    }
}

impl<'a> Drop for Guard<'a> {
    fn drop(&mut self) {
        if let Some(scope) = self.scope.take() {
            if let Some(call) = scope.end() {
                self.engine.borrow_mut().perform(call);
            }
        }
    }
}

fn active_profiler() -> Remotery {
    Remotery::create_global_instance(0, 0x1000).unwrap()
}

#[test]
fn known_codes_decode_to_distinct_kinds() {
    let mut seen: Vec<RemoteryError> = Vec::new();
    for code in 1..=LAST_ERROR_CODE {
        let e = get_error(code);
        assert_eq!(e.code(), code);
        assert!(!seen.contains(&e));
        assert!(!e.description().is_empty());
        assert_eq!(e.description(), remotery_error_to_string(e));
        seen.push(e);
    }
    assert_eq!(seen.len(), 43);
}

#[test]
fn descriptions_are_distinct() {
    let mut texts: Vec<&str> = (1..=LAST_ERROR_CODE).map(|c| get_error(c).description()).collect();
    assert_ne!(
        RemoteryError::CudaInvalidHandle.description(),
        RemoteryError::ErrorNotReady.description()
    );
    assert_eq!(
        RemoteryError::ErrorNotReady.description(),
        "This indicates that asynchronous operations issued previously have not completed yet"
    );
    texts.sort();
    texts.dedup();
    assert_eq!(texts.len(), 43);
}

#[test]
fn zero_and_large_codes_decode_to_unknown() {
    assert_eq!(get_error(0), RemoteryError::Unknown);
    assert_eq!(get_error(44), RemoteryError::Unknown);
    assert_eq!(get_error(1000), RemoteryError::Unknown);
    assert_eq!(get_error(u32::MAX), RemoteryError::Unknown);
    assert_eq!(get_error(43), RemoteryError::Unknown);
    assert_eq!(RemoteryError::Unknown.description(), "Unknown error");
}

#[test]
fn decoding_is_deterministic() {
    for code in 0..60u32 {
        let once = get_error(code);
        assert_eq!(get_error(code), once);
        assert_eq!(get_error(once.code()), once);
    }
}

#[test]
fn selected_codes_and_descriptions() {
    assert_eq!(get_error(1), RemoteryError::Malloc);
    assert_eq!(get_error(19), RemoteryError::WebsocketHandshakeNotGet);
    assert_eq!(get_error(32), RemoteryError::RemoteryNotCreated);
    assert_eq!(get_error(42), RemoteryError::OpenglError);
    assert_eq!(
        remotery_error_to_string(RemoteryError::Malloc),
        "Malloc call within remotery failed"
    );
    assert_eq!(
        RemoteryError::WebsocketReceiveTimeout.description(),
        "Timeout receiving frame header"
    );
}

#[test]
fn create_failure_gives_decoded_error_and_no_handle() {
    let r = Remotery::create_global_instance(6, 0);
    match r {
        Err(e) => {
            assert_eq!(e, RemoteryError::SocketCreateFail);
            assert_eq!(
                e.description(),
                "Can't create a socket for connection to the remote viewer"
            );
        }
        Ok(_) => panic!("a failed create produced a handle"),
    }
}

#[test]
fn create_success_holds_instance() {
    let h = Remotery::create_global_instance(0, 0x2000).unwrap();
    assert!(h.is_active());
    assert_eq!(h.instance(), 0x2000);
}

#[test]
fn scope_end_fires_once_on_normal_and_early_exit() {
    let profiler = active_profiler();
    let engine = std::cell::RefCell::new(FakeEngine::new());

    fn work(profiler: &Remotery, engine: &std::cell::RefCell<FakeEngine>, fail: bool) -> Result<u32, String> {
        let _g = Guard::open(profiler, engine, "work");
        if fail {
            return Err("stopped early".to_string());
        }
        let v: Result<u32, String> = "7".parse::<u32>().map_err(|e| e.to_string());
        let n = v?;
        Ok(n)
    }

    assert_eq!(work(&profiler, &engine, false), Ok(7));
    assert!(work(&profiler, &engine, true).is_err());
    let e = engine.borrow();
    assert_eq!(e.count("begin("), 2);
    assert_eq!(e.count("end"), 2);
}

#[test]
fn scope_on_inactive_handle_asks_for_nothing() {
    let mut profiler = active_profiler();
    let _ = profiler.teardown();
    let (scope, begin) = RemoteryScope::new(&profiler, "late", SampleFlags::Default);
    assert!(matches!(begin, Err(CallError::NotCreated)));
    assert!(scope.end().is_none());
}

#[test]
fn nested_scopes_close_in_reverse_order() {
    let profiler = active_profiler();
    let engine = std::cell::RefCell::new(FakeEngine::new());
    {
        let _a = Guard::open(&profiler, &engine, "A");
        {
            let _b = Guard::open(&profiler, &engine, "B");
        }
    }
    assert_eq!(
        engine.borrow().calls,
        vec!["begin(A,0)", "begin(B,0)", "end", "end"]
    );
}

#[test]
fn teardown_twice_destroys_once() {
    let mut profiler = active_profiler();
    let mut engine = FakeEngine::new();
    if let Some(call) = profiler.teardown() {
        engine.perform(call);
    }
    if let Some(call) = profiler.teardown() {
        engine.perform(call);
    }
    assert_eq!(engine.calls, vec!["destroy(4096)"]);
    assert!(!profiler.is_active());
    assert_eq!(profiler.instance(), 0);
}

#[test]
fn teardown_without_instance_does_nothing() {
    let mut profiler = Remotery::create_global_instance(0, 0).unwrap();
    assert!(!profiler.is_active());
    assert!(profiler.teardown().is_none());
}

#[test]
fn marshalled_text_is_text_plus_terminator() {
    let c = CFixedString::from_str("hello").unwrap();
    assert_eq!(c.as_bytes_with_nul(), b"hello\0");
    assert_eq!(c.text_len(), 5);
    let e = CFixedString::from_str("").unwrap();
    assert_eq!(e.as_bytes_with_nul(), b"\0");
    let u = CFixedString::from_str("h\u{e9}").unwrap();
    assert_eq!(u.as_bytes_with_nul(), &[104u8, 0xc3, 0xa9, 0][..]);
}

#[test]
fn interior_nul_is_rejected_at_first_zero() {
    assert_eq!(CFixedString::from_str("ab\0c\0").unwrap_err(), NulError { position: 2 });
    assert_eq!(CFixedString::from_str("\0").unwrap_err(), NulError { position: 0 });
}

#[test]
fn requests_map_to_engine_calls() {
    let profiler = active_profiler();
    let mut engine = FakeEngine::new();
    engine.perform(profiler.log_text("Doing profiling!").unwrap());
    engine.perform(profiler.set_current_thread_name("worker").unwrap());
    engine.perform(profiler.begin_cpu_sample("test", SampleFlags::Aggregate).unwrap());
    engine.perform(profiler.end_cpu_sample().unwrap());
    assert_eq!(
        engine.calls,
        vec!["log(Doing profiling!)", "thread(worker)", "begin(test,1)", "end"]
    );
}

#[test]
fn requests_on_torn_down_handle_are_not_created() {
    let mut profiler = active_profiler();
    let _ = profiler.teardown();
    assert!(matches!(profiler.log_text("x"), Err(CallError::NotCreated)));
    assert!(matches!(profiler.set_current_thread_name("x"), Err(CallError::NotCreated)));
    assert!(matches!(
        profiler.begin_cpu_sample("x", SampleFlags::Default),
        Err(CallError::NotCreated)
    ));
    assert!(matches!(profiler.end_cpu_sample(), Err(CallError::NotCreated)));
}

#[test]
fn requests_with_interior_nul_are_rejected() {
    let profiler = active_profiler();
    assert!(matches!(
        profiler.log_text("a\0b"),
        Err(CallError::InteriorNul { position: 1 })
    ));
    assert!(matches!(
        profiler.begin_cpu_sample("\0", SampleFlags::Default),
        Err(CallError::InteriorNul { position: 0 })
    ));
    assert!(matches!(
        profiler.set_current_thread_name("ab\0"),
        Err(CallError::InteriorNul { position: 2 })
    ));
}

#[test]
fn sample_flag_bits() {
    assert_eq!(SampleFlags::Default.bits(), 0);
    assert_eq!(SampleFlags::Aggregate.bits(), 1);
}

#[test]
fn engine_status_codes() {
    assert_eq!(RmtError::from_status(0), Some(RmtError::RMT_ERROR_NONE));
    assert_eq!(RmtError::from_status(6), Some(RmtError::RMT_ERROR_SOCKET_CREATE_FAIL));
    assert_eq!(RmtError::from_status(43), Some(RmtError::RMT_ERROR_CUDA_UNKNOWN));
    assert_eq!(RmtError::from_status(44), None);
    for code in 0..=LAST_ERROR_CODE {
        assert_eq!(RmtError::from_status(code).unwrap().status(), code);
    }
}
