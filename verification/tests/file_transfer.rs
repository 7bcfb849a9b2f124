//! Downloads of remote files.
use yard::cliprdr::file_transfer::{
    default_staging_dir, ContentPlan, FileTransferManager, FileTransferState, PendingFileTransfer,
    SizePlan, MAX_FILE_SIZE,
};

fn create_test_manager() -> FileTransferManager {
    FileTransferManager::new("/tmp/yard-test".to_string())
}

#[test]
fn test_file_transfer_state() {
    assert_eq!(FileTransferState::Pending, FileTransferState::Pending);

    let state = FileTransferState::Downloading {
        total_size: 1000,
        bytes_received: 500,
        current_stream_id: 1,
    };

    if let FileTransferState::Downloading { total_size, bytes_received, .. } = state {
        assert_eq!(total_size, 1000);
        assert_eq!(bytes_received, 500);
    }
}

#[test]
fn test_pending_file_transfer() {
    let transfer = PendingFileTransfer::new(0, "test.txt".to_string(), Some(100), false);
    assert_eq!(transfer.file_index, 0);
    assert_eq!(transfer.file_name, "test.txt");
    assert_eq!(transfer.declared_size, Some(100));
    assert!(!transfer.is_directory);
    assert_eq!(transfer.state, FileTransferState::Pending);
    assert!(transfer.final_path().is_none());
}

#[test]
fn test_manager_creation() {
    let manager = create_test_manager();
    assert_eq!(manager.staging_dir(), "/tmp/yard-test");
    assert_eq!(manager.pending_count(), 0);
    assert_eq!(manager.active_count(), 0);
}

#[test]
fn test_add_files() {
    let mut manager = create_test_manager();

    let files = vec![
        ("file1.txt".to_string(), Some(100u64), false),
        ("file2.pdf".to_string(), Some(500u64), false),
        ("folder".to_string(), None, true),
    ];

    let removed = manager.add_files(&files);
    assert!(removed.is_empty());
    assert_eq!(manager.pending_count(), 2); // Directories are not counted as pending
}

#[test]
fn test_start_transfer() {
    let mut manager = create_test_manager();

    let files = vec![("test.txt".to_string(), Some(100u64), false)];
    manager.add_files(&files);

    let result = manager.start_next_transfer();
    assert!(result.is_some());

    let (stream_id, file_index) = result.unwrap();
    assert_eq!(file_index, 0);
    assert!(stream_id > 0);

    // Verify state changed
    assert_eq!(manager.pending_count(), 0);
    assert_eq!(manager.active_count(), 1);
}

#[test]
fn test_empty_file_transfer() {
    let mut manager = create_test_manager();

    let files = vec![("empty.txt".to_string(), Some(0u64), false)];
    manager.add_files(&files);

    let (stream_id, _) = manager.start_next_transfer().unwrap();

    // Handle size response with 0 bytes
    match manager.plan_size_response(stream_id, 0) {
        SizePlan::CreateFile { file_index, path } => {
            assert_eq!(file_index, 0);
            assert_eq!(path, "/tmp/yard-test/empty.txt");
        }
        _ => panic!("Expected the file to be created"),
    }
    let result = manager.handle_size_response(stream_id, 0, Ok(()));
    assert!(result.is_ok());
    assert!(result.unwrap().is_none()); // No more requests needed

    // File should be completed
    assert_eq!(manager.completed_count(), 1);

    let completed = manager.completed_files();
    assert_eq!(completed.len(), 1);
    assert_eq!(completed[0], "/tmp/yard-test/empty.txt");
}

#[test]
fn test_file_too_large() {
    let mut manager = create_test_manager();

    let files = vec![("huge.bin".to_string(), None, false)];
    manager.add_files(&files);

    let (stream_id, _) = manager.start_next_transfer().unwrap();

    // Handle size response with file too large
    let result = manager.handle_size_response(stream_id, MAX_FILE_SIZE + 1, Ok(()));
    assert!(result.is_ok());
    assert!(result.unwrap().is_none());

    // Transfer should be marked as failed
    assert_eq!(manager.completed_count(), 0);
}

#[test]
fn test_full_transfer() {
    let mut manager = create_test_manager();

    let files = vec![("hello.txt".to_string(), Some(5u64), false)];
    manager.add_files(&files);

    // Start transfer
    let (stream_id, file_index) = manager.start_next_transfer().unwrap();
    assert_eq!(file_index, 0);

    // Handle size response
    match manager.plan_size_response(stream_id, 5) {
        SizePlan::CreateTemp { path, .. } => assert_eq!(path, "/tmp/yard-test/.hello.txt.part"),
        _ => panic!("Expected the temporary file to be created"),
    }
    let result = manager.handle_size_response(stream_id, 5, Ok(())).unwrap();
    assert!(result.is_some());

    let (content_stream_id, _, offset, length) = result.unwrap();
    assert_eq!(offset, 0);
    assert_eq!(length, 5);

    // Handle content response
    match manager.plan_content_response(content_stream_id, b"Hello") {
        ContentPlan::WriteAndRename { from, to, .. } => {
            assert_eq!(from, "/tmp/yard-test/.hello.txt.part");
            assert_eq!(to, "/tmp/yard-test/hello.txt");
        }
        _ => panic!("Expected the file to be completed"),
    }
    let result = manager
        .handle_content_response(content_stream_id, b"Hello", Ok(()), Ok(()))
        .unwrap();
    assert!(result.is_none()); // Transfer complete

    // Verify file
    assert_eq!(manager.completed_count(), 1);
    let completed = manager.completed_files();
    assert_eq!(completed, vec!["/tmp/yard-test/hello.txt".to_string()]);
}

#[test]
fn test_chunked_transfer() {
    let mut manager = create_test_manager();
    manager.set_chunk_size(3); // Small chunks for testing

    let files = vec![("chunks.txt".to_string(), Some(10u64), false)];
    manager.add_files(&files);

    let (stream_id, _) = manager.start_next_transfer().unwrap();

    // Handle size
    let result = manager.handle_size_response(stream_id, 10, Ok(())).unwrap().unwrap();
    let (stream_id, _, offset, length) = result;
    assert_eq!(offset, 0);
    assert_eq!(length, 3);

    // First chunk
    let result =
        manager.handle_content_response(stream_id, b"ABC", Ok(()), Ok(())).unwrap().unwrap();
    let (stream_id, _, offset, length) = result;
    assert_eq!(offset, 3);
    assert_eq!(length, 3);

    // Second chunk
    let result =
        manager.handle_content_response(stream_id, b"DEF", Ok(()), Ok(())).unwrap().unwrap();
    let (stream_id, _, offset, length) = result;
    assert_eq!(offset, 6);
    assert_eq!(length, 3);

    // Third chunk
    let result =
        manager.handle_content_response(stream_id, b"GHI", Ok(()), Ok(())).unwrap().unwrap();
    let (stream_id, _, offset, length) = result;
    assert_eq!(offset, 9);
    assert_eq!(length, 1);

    // Final chunk
    let result = manager.handle_content_response(stream_id, b"J", Ok(()), Ok(())).unwrap();
    assert!(result.is_none());

    // Verify
    let completed = manager.completed_files();
    assert_eq!(completed, vec!["/tmp/yard-test/chunks.txt".to_string()]);
}

#[test]
fn test_handle_failure() {
    let mut manager = create_test_manager();

    let files = vec![("fail.txt".to_string(), Some(100u64), false)];
    manager.add_files(&files);

    let (stream_id, _) = manager.start_next_transfer().unwrap();

    manager.handle_failure(stream_id);

    assert_eq!(manager.active_count(), 0);
    assert_eq!(manager.completed_count(), 0);
}

#[test]
fn file_transfer_test_clear() {
    let mut manager = create_test_manager();

    let files = vec![
        ("test1.txt".to_string(), Some(100u64), false),
        ("test2.txt".to_string(), Some(200u64), false),
    ];
    manager.add_files(&files);

    manager.clear();

    assert_eq!(manager.pending_count(), 0);
    assert_eq!(manager.active_count(), 0);
}

#[test]
fn test_default_staging_dir() {
    let dir = default_staging_dir(None, "/tmp", 42);
    assert!(dir.contains("yard"));
}

#[test]
fn staging_dir_prefers_the_runtime_dir() {
    let in_runtime = default_staging_dir(Some("/run/user/1000"), "/tmp", 42);
    assert!(in_runtime.starts_with("/run/user/1000/"));
    let in_temp = default_staging_dir(None, "/tmp", 42);
    assert!(in_temp.starts_with("/tmp/"));
}

#[test]
fn unknown_stream_is_an_error() {
    let mut manager = create_test_manager();
    let err = manager.handle_size_response(99, 10, Ok(())).unwrap_err();
    assert_eq!(err, "Unknown stream_id: 99");
    let err = manager.handle_content_response(98, b"x", Ok(()), Ok(())).unwrap_err();
    assert_eq!(err, "Unknown stream_id: 98");
    assert!(manager.handle_failure(97).is_none());
}

#[test]
fn failed_download_names_its_temporary_file() {
    let mut manager = create_test_manager();
    manager.add_files(&[("a.bin".to_string(), Some(10u64), false)]);
    let (stream_id, _) = manager.start_next_transfer().unwrap();
    let (stream_id, ..) = manager.handle_size_response(stream_id, 10, Ok(())).unwrap().unwrap();
    let removed = manager.handle_failure(stream_id);
    assert_eq!(removed, Some("/tmp/yard-test/.a.bin.part".to_string()));
}

#[test]
fn clearing_names_open_temporary_files() {
    let mut manager = create_test_manager();
    manager.add_files(&[("a.bin".to_string(), Some(10u64), false)]);
    let (stream_id, _) = manager.start_next_transfer().unwrap();
    manager.handle_size_response(stream_id, 10, Ok(())).unwrap();
    assert_eq!(manager.clear(), vec!["/tmp/yard-test/.a.bin.part".to_string()]);
}
