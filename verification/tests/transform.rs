use protofish::schema::{ErrorType, IntegrityType};
use protofish::wire::{
    WireArbitaryData, WireBenchmarkStart, WireClientHello, WireError, WireErrorType,
    WireIntegrityType, WireStreamClose, WireStreamCreateMeta, WireStreamOpen, WireVersion,
};

#[test]
fn test_version_conversion() {
    let proto_version = WireVersion { major: 1, minor: 2, patch: 3 };
    let schema_version = proto_version.clone().to_schema();
    assert_eq!(schema_version.major, 1);
    assert_eq!(schema_version.minor, 2);
    assert_eq!(schema_version.patch, 3);

    let converted_proto = schema_version.to_wire();
    assert_eq!(converted_proto, proto_version);
}

#[test]
fn test_stream_create_meta_conversion() {
    let proto_meta = WireStreamCreateMeta {
        stream_integrity: WireIntegrityType::Reliable.to_i32(),
    };
    let schema_meta = proto_meta.clone().to_schema().unwrap();
    assert!(matches!(schema_meta.integrity_type, IntegrityType::Reliable));
}

#[test]
fn test_integrity_type_conversion() {
    let proto_unspecified = WireIntegrityType::Unspecified;
    let schema_unspecified = proto_unspecified.to_schema();
    assert!(matches!(schema_unspecified, IntegrityType::Reliable));

    let proto_reliable = WireIntegrityType::Reliable;
    let schema_reliable = proto_reliable.to_schema();
    assert!(matches!(schema_reliable, IntegrityType::Reliable));

    let proto_unreliable = WireIntegrityType::Unreliable;
    let schema_unreliable = proto_unreliable.to_schema();
    assert!(matches!(schema_unreliable, IntegrityType::Unreliable));

    let schema_reliable_back = IntegrityType::Reliable.to_wire();
    assert_eq!(schema_reliable_back, WireIntegrityType::Reliable);

    let schema_unreliable_back = IntegrityType::Unreliable.to_wire();
    assert_eq!(schema_unreliable_back, WireIntegrityType::Unreliable);
}

#[test]
fn test_error_type_conversion() {
    let proto_unspecified = WireErrorType::Unspecified;
    let schema_unspecified = proto_unspecified.to_schema();
    assert!(matches!(schema_unspecified, ErrorType::Unspecified));

    let proto_timeout = WireErrorType::Timeout;
    let schema_timeout = proto_timeout.to_schema();
    assert!(matches!(schema_timeout, ErrorType::Timeout));

    let schema_unspecified_back = ErrorType::Unspecified.to_wire();
    assert_eq!(schema_unspecified_back, WireErrorType::Unspecified);

    let schema_timeout_back = ErrorType::Timeout.to_wire();
    assert_eq!(schema_timeout_back, WireErrorType::Timeout);
}

#[test]
fn test_client_hello_conversion() {
    let proto_client_hello = WireClientHello {
        version: Some(WireVersion { major: 1, minor: 0, patch: 0 }),
        resume_connection_token: Some(vec![1, 2, 3]),
    };
    let schema_client_hello = proto_client_hello.clone().to_schema().unwrap();
    assert_eq!(schema_client_hello.version.major, 1);
    assert_eq!(schema_client_hello.resume_connection_token, Some(vec![1, 2, 3]));

    let converted_proto = schema_client_hello.to_wire();
    assert_eq!(converted_proto, proto_client_hello);
}

#[test]
fn test_stream_open_conversion() {
    let proto_stream_open = WireStreamOpen {
        stream_id: 12345,
        meta: Some(WireStreamCreateMeta {
            stream_integrity: WireIntegrityType::Reliable.to_i32(),
        }),
    };
    let schema_stream_open = proto_stream_open.clone().to_schema().unwrap();
    assert_eq!(schema_stream_open.stream_id, 12345);
    assert!(matches!(schema_stream_open.meta.integrity_type, IntegrityType::Reliable));

    let converted_proto = schema_stream_open.to_wire();
    assert_eq!(converted_proto, proto_stream_open);
}

#[test]
fn test_stream_close_conversion() {
    let proto_stream_close = WireStreamClose { stream_id: 54321 };
    let schema_stream_close = proto_stream_close.clone().to_schema();
    assert_eq!(schema_stream_close.stream_id, 54321);

    let converted_proto = schema_stream_close.to_wire();
    assert_eq!(converted_proto, proto_stream_close);
}

#[test]
fn test_arbitary_data_conversion() {
    let proto_arbitary_data = WireArbitaryData { content: vec![1, 2, 3, 4] };
    let schema_arbitary_data = proto_arbitary_data.clone().to_schema();
    assert_eq!(schema_arbitary_data.content, vec![1, 2, 3, 4]);

    let converted_proto = schema_arbitary_data.to_wire();
    assert_eq!(converted_proto, proto_arbitary_data);
}

#[test]
fn test_benchmark_start_conversion() {
    let proto_benchmark_start = WireBenchmarkStart {
        integrity_type: WireIntegrityType::Unreliable.to_i32(),
        byte_count: 1024,
    };
    let schema_benchmark_start = proto_benchmark_start.clone().to_schema().unwrap();
    assert!(matches!(schema_benchmark_start.integrity_type, IntegrityType::Unreliable));
    assert_eq!(schema_benchmark_start.byte_count, 1024);

    let converted_proto = schema_benchmark_start.to_wire();
    assert_eq!(converted_proto, proto_benchmark_start);
}

#[test]
fn test_integrity_code_out_of_range() {
    assert!(WireIntegrityType::from_i32(3).is_none());
    assert!(WireIntegrityType::from_i32(-1).is_none());
    assert!(WireStreamCreateMeta { stream_integrity: 7 }.to_schema().is_none());
    assert!(WireErrorType::from_i32(2).is_none());
    let err = WireError { error_type: 9, message: String::from("boom") };
    assert!(err.to_schema().is_none());
}
