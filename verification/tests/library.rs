use trtx::builder::MemoryPoolType;
use trtx::c_api::{check_outcome, dimensions_from_c, failure_error, tensor_name_from_c, to_c_string, Failure};
use trtx::decimal::{format_i32, format_u32};
use trtx::executor::executor_unavailable;
use trtx::logger::{log_line, runtime_unavailable};
use trtx::network_flags::EXPLICIT_BATCH;
use trtx::{Error, LogHandler, Logger, Severity, StderrLogger};

const UNAVAILABLE: &str = "TensorRT-RTX not available. This binary was built with the 'mock' feature.\n\nTo use real TensorRT:\n1. Install TensorRT-RTX and set TENSORRT_RTX_DIR environment variable\n2. Rebuild without mock: cargo build --no-default-features\n\nOr use from workspace root: make build-real";

struct SilentLogger;

impl LogHandler for SilentLogger {
    fn log(&self, _severity: Severity, _message: &str) {}
}

fn runtime_message(e: Error) -> String {
    match e {
        Error::Runtime(m) => m,
        other => panic!("expected a runtime error, got {:?}", other),
    }
}

#[test]
fn logger_new_reports_missing_runtime() {
    match Logger::new(SilentLogger) {
        Err(e) => assert_eq!(runtime_message(e), UNAVAILABLE),
        Ok(_) => panic!("a logger was created"),
    }
}

#[test]
fn logger_stderr_reports_missing_runtime() {
    match Logger::stderr() {
        Err(e) => assert_eq!(runtime_message(e), UNAVAILABLE),
        Ok(_) => panic!("a logger was created"),
    }
}

#[test]
fn runtime_unavailable_message_is_exact() {
    assert_eq!(runtime_message(runtime_unavailable()), UNAVAILABLE);
}

#[test]
fn executor_reports_missing_runtime() {
    assert_eq!(
        runtime_message(executor_unavailable()),
        "TensorRT-RTX not available in mock mode. Rebuild without mock: cargo build --no-default-features"
    );
}

#[test]
fn severity_names_match_debug_output() {
    for s in [Severity::InternalError, Severity::Error, Severity::Warning, Severity::Info, Severity::Verbose] {
        assert_eq!(s.name(), format!("{:?}", s));
    }
}

#[test]
fn severity_orders_from_most_severe() {
    assert!(Severity::InternalError < Severity::Error);
    assert!(Severity::Error < Severity::Warning);
    assert!(Severity::Warning < Severity::Info);
    assert!(Severity::Info < Severity::Verbose);
}

#[test]
fn log_line_has_prefix_severity_and_message() {
    assert_eq!(log_line(Severity::Warning, "low memory"), "[TensorRT Warning] low memory");
    assert_eq!(log_line(Severity::InternalError, ""), "[TensorRT InternalError] ");
    assert_eq!(
        log_line(Severity::Verbose, &"x".repeat(3)),
        format!("[TensorRT {:?}] {}", Severity::Verbose, "xxx")
    );
}

#[test]
fn stderr_logger_writes_without_failing() {
    StderrLogger.log(Severity::Info, "stderr logger check");
}

#[test]
fn memory_pool_codes() {
    assert_eq!(MemoryPoolType::Workspace.code(), 0);
    assert_eq!(MemoryPoolType::DlaManagedSram.code(), 1);
    assert_eq!(MemoryPoolType::DlaLocalDram.code(), 2);
    assert_eq!(MemoryPoolType::DlaGlobalDram.code(), 3);
}

#[test]
fn explicit_batch_is_first_bit() {
    assert_eq!(EXPLICIT_BATCH, 1);
}

#[test]
fn unsigned_decimal_matches_display() {
    for n in [0u32, 7, 9, 10, 99, 100, 120, 4096, 1_000_000, u32::MAX] {
        assert_eq!(format_u32(n), n.to_string());
    }
    assert_eq!(format_u32(120), "120");
}

#[test]
fn signed_decimal_matches_display() {
    for i in [0i32, 1, -1, 9, -10, 42, -120, i32::MAX, i32::MIN] {
        assert_eq!(format_i32(i), i.to_string());
    }
    assert_eq!(format_i32(-2147483648), "-2147483648");
}

#[test]
fn failure_messages_are_exact() {
    let cases: Vec<(Failure, &str)> = vec![
        (Failure::TensorName, "Failed to get tensor name"),
        (Failure::TensorDimensions, "Failed to get tensor dimensions"),
        (Failure::AddInput("input".to_string()), "Failed to add input: input"),
        (Failure::MarkOutput, "Failed to mark tensor as output"),
        (Failure::GetInput(3), "Failed to get input at index 3"),
        (Failure::GetInput(-1), "Failed to get input at index -1"),
        (Failure::GetOutput(12), "Failed to get output at index 12"),
        (Failure::AddActivation, "Failed to add activation layer"),
        (Failure::AddElementwise, "Failed to add elementwise layer"),
        (Failure::AddPooling, "Failed to add pooling layer"),
        (Failure::AddShuffle, "Failed to add shuffle layer"),
        (Failure::AddMatrixMultiply, "Failed to add matrix multiply layer"),
        (Failure::InvalidBuilder, "Invalid builder"),
        (Failure::InvalidBuilderConfig, "Invalid builder config"),
        (Failure::CreateBuilder, "Failed to create builder"),
        (Failure::CreateNetwork, "Failed to create network"),
        (Failure::CreateConfig, "Failed to create builder config"),
        (Failure::BuildSerializedNetwork, "Failed to build serialized network"),
    ];
    for (f, expected) in cases {
        assert_eq!(runtime_message(failure_error(&f)), expected);
    }
}

#[test]
fn outcome_is_ok_exactly_on_success() {
    assert!(check_outcome(true, &Failure::MarkOutput).is_ok());
    match check_outcome(false, &Failure::MarkOutput) {
        Err(e) => assert_eq!(runtime_message(e), "Failed to mark tensor as output"),
        Ok(()) => panic!("a failed call was reported as success"),
    }
}

#[test]
fn c_string_appends_terminator() {
    assert_eq!(to_c_string("input").unwrap(), b"input\0".to_vec());
    assert_eq!(to_c_string("").unwrap(), vec![0u8]);
    assert_eq!(to_c_string("é").unwrap(), vec![0xc3, 0xa9, 0]);
}

#[test]
fn c_string_rejects_interior_nul() {
    assert!(matches!(to_c_string("a\0b"), Err(Error::InteriorNul(1))));
    assert!(matches!(to_c_string("\0"), Err(Error::InteriorNul(0))));
    // the offset counts bytes, not characters
    assert!(matches!(to_c_string("é\0\0"), Err(Error::InteriorNul(2))));
}

#[test]
fn tensor_name_null_pointer_fails() {
    match tensor_name_from_c(None) {
        Err(e) => assert_eq!(runtime_message(e), "Failed to get tensor name"),
        Ok(_) => panic!("a null name was read"),
    }
}

#[test]
fn tensor_name_decodes_utf8() {
    assert_eq!(tensor_name_from_c(Some(b"original_name")).unwrap(), "original_name");
    assert_eq!(tensor_name_from_c(Some(&[0xc3, 0xa9])).unwrap(), "é");
    assert_eq!(tensor_name_from_c(Some(b"")).unwrap(), "");
}

#[test]
fn tensor_name_rejects_invalid_utf8() {
    assert!(matches!(tensor_name_from_c(Some(&[0xff])), Err(Error::InvalidUtf8)));
    assert!(matches!(tensor_name_from_c(Some(&[b'a', 0xc3])), Err(Error::InvalidUtf8)));
    // an encoded surrogate is not UTF-8
    assert!(matches!(tensor_name_from_c(Some(&[0xed, 0xa0, 0x80])), Err(Error::InvalidUtf8)));
}

#[test]
fn name_survives_c_string_round_trip() {
    for name in ["original_name", "input", "", "größe", "张量"] {
        let c = to_c_string(name).unwrap();
        let back = tensor_name_from_c(Some(&c[..c.len() - 1])).unwrap();
        assert_eq!(back, name);
    }
}

#[test]
fn dimensions_missing_fails() {
    match dimensions_from_c(false, &[0; 8], 0) {
        Err(e) => assert_eq!(runtime_message(e), "Failed to get tensor dimensions"),
        Ok(_) => panic!("missing dimensions were read"),
    }
}

#[test]
fn dimensions_take_reported_count() {
    let dims = [1, 3, 224, 224, 0, 0, 0, 0];
    assert_eq!(dimensions_from_c(true, &dims, 4).unwrap(), vec![1, 3, 224, 224]);
    assert_eq!(dimensions_from_c(true, &dims, 0).unwrap(), Vec::<i32>::new());
    assert_eq!(dimensions_from_c(true, &dims, 8).unwrap(), dims.to_vec());
}

#[test]
fn device_buffer_new_reports_missing_cuda() {
    for size in [0usize, 16, 1 << 20] {
        match trtx::DeviceBuffer::new(size) {
            Err(e) => assert_eq!(
                runtime_message(e),
                "DeviceBuffer cannot be created in mock mode - CUDA not available"
            ),
            Ok(_) => panic!("device memory was allocated"),
        }
    }
}

#[test]
fn synchronize_reports_missing_cuda() {
    match trtx::synchronize() {
        Err(e) => assert_eq!(
            runtime_message(e),
            "CUDA synchronize cannot be called in mock mode - CUDA not available"
        ),
        Ok(()) => panic!("the device was synchronized"),
    }
}

#[test]
fn engine_bytes_null_pointer_fails() {
    match trtx::c_api::engine_bytes_from_c(None) {
        Err(e) => assert_eq!(runtime_message(e), "Failed to build serialized network"),
        Ok(_) => panic!("a null engine was read"),
    }
}

#[test]
fn engine_bytes_are_copied_whole() {
    let built: Vec<u8> = (0..=255u8).collect();
    assert_eq!(trtx::c_api::engine_bytes_from_c(Some(&built)).unwrap(), built);
    assert_eq!(trtx::c_api::engine_bytes_from_c(Some(&[])).unwrap(), Vec::<u8>::new());
}
