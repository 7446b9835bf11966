use vplugin::VPluginError;
use vplugin::error::IoFailure;

#[test]
fn io_failure_not_found_maps_to_no_such_file() {
    assert_eq!(
        VPluginError::from_io_failure(IoFailure::NotFound),
        VPluginError::NoSuchFile
    );
}

#[test]
fn io_failure_permission_denied_maps_to_permission_denied() {
    assert_eq!(
        VPluginError::from_io_failure(IoFailure::PermissionDenied),
        VPluginError::PermissionDenied
    );
}

#[test]
fn io_failure_interrupted_and_eof_map_to_invalid_plugin() {
    assert_eq!(
        VPluginError::from_io_failure(IoFailure::Interrupted),
        VPluginError::InvalidPlugin
    );
    assert_eq!(
        VPluginError::from_io_failure(IoFailure::UnexpectedEof),
        VPluginError::InvalidPlugin
    );
}

#[test]
fn io_failure_internal_error_texts() {
    assert_eq!(
        VPluginError::from_io_failure(IoFailure::Unsupported),
        VPluginError::InternalError(String::from("Unsupported file"))
    );
    assert_eq!(
        VPluginError::from_io_failure(IoFailure::OutOfMemory),
        VPluginError::InternalError(String::from("Host is out of memory"))
    );
    assert_eq!(
        VPluginError::from_io_failure(IoFailure::Other),
        VPluginError::InternalError(String::from("Unknown error."))
    );
}
