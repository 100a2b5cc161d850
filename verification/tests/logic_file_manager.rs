use std::sync::Mutex;

use synker::domain::logic::file_manager::FileManagerLogic;
use synker::domain::ports;
use synker::domain::services::file_manager::{FileManager, FileManagerError};
use synker::domain::types::file::file::{File, NewFile, UpdateFile};
use synker::domain::types::file::file_metadata::{Metadata, NewMetadata, UpdateMetadata};
use synker::domain::types::file::file_query::FileQuery;
use synker::inbound::server::handlers::api::titled_listing;
use uuid::Uuid;

// ── Mock adapter ─────────────────────────────────────────────────────────

type Slot<T> = Mutex<Option<Result<T, FileManagerError>>>;

struct MockFileManager {
    create_file_result: Slot<File>,
    create_file_bytes_result: Slot<Metadata>,
    read_file_result: Slot<File>,
    read_file_bytes_result: Slot<(Metadata, Vec<u8>)>,
    list_files_result: Slot<Vec<Metadata>>,
    list_all_tags_result: Slot<Vec<String>>,
    update_file_result: Slot<File>,
    delete_file_result: Slot<()>,
    find_result: Slot<Vec<Metadata>>,
}

impl MockFileManager {
    fn new() -> Self {
        Self {
            create_file_result: Mutex::new(None),
            create_file_bytes_result: Mutex::new(None),
            read_file_result: Mutex::new(None),
            read_file_bytes_result: Mutex::new(None),
            list_files_result: Mutex::new(None),
            list_all_tags_result: Mutex::new(None),
            update_file_result: Mutex::new(None),
            delete_file_result: Mutex::new(None),
            find_result: Mutex::new(None),
        }
    }
}

fn take<T>(slot: &Slot<T>) -> Result<T, FileManagerError> {
    slot.lock()
        .unwrap()
        .take()
        .unwrap_or(Err(FileManagerError::UnknownError(
            "no mock value set".to_string(),
        )))
}

impl ports::FileManager for MockFileManager {
    fn create_file(&self, _new_file: NewFile) -> Result<File, FileManagerError> {
        take(&self.create_file_result)
    }

    fn create_file_bytes(
        &self,
        _name: String,
        _ext: String,
        _mime: String,
        _tags: Vec<String>,
        _data: Vec<u8>,
    ) -> Result<Metadata, FileManagerError> {
        take(&self.create_file_bytes_result)
    }

    fn read_file(&self, _file_id: u128) -> Result<File, FileManagerError> {
        take(&self.read_file_result)
    }

    fn read_file_bytes(&self, _file_id: u128) -> Result<(Metadata, Vec<u8>), FileManagerError> {
        take(&self.read_file_bytes_result)
    }

    fn list_files(&self) -> Result<Vec<Metadata>, FileManagerError> {
        take(&self.list_files_result)
    }

    fn list_all_tags(&self) -> Result<Vec<String>, FileManagerError> {
        take(&self.list_all_tags_result)
    }

    fn update_file(&self, _file_id: u128, _update: UpdateFile) -> Result<File, FileManagerError> {
        take(&self.update_file_result)
    }

    fn delete_file(&self, _file_id: u128) -> Result<(), FileManagerError> {
        take(&self.delete_file_result)
    }

    fn find(&self, _query: FileQuery) -> Result<Vec<Metadata>, FileManagerError> {
        take(&self.find_result)
    }
}

// ── Helpers ──────────────────────────────────────────────────────────────

fn make_logic(mock: MockFileManager) -> FileManagerLogic {
    FileManagerLogic::new(Box::new(mock))
}

fn dummy_metadata(id: u128) -> Metadata {
    Metadata {
        id,
        name: "test".to_string(),
        ext: "md".to_string(),
        tags: vec![],
        size: 0,
        mime: "text/plain".to_string(),
        created_at: "2024-01-01T00:00:00Z".to_string(),
        modified_at: "2024-01-01T00:00:00Z".to_string(),
    }
}

fn dummy_file(id: u128) -> File {
    File {
        id,
        metadata: dummy_metadata(id),
        content: "hello".to_string(),
    }
}

fn valid_new_file() -> NewFile {
    NewFile {
        metadata: NewMetadata {
            name: "my-file".to_string(),
            ext: "md".to_string(),
            tags: vec![],
            mime: "text/plain".to_string(),
        },
        content: None,
    }
}

// ── Tests ─────────────────────────────────────────────────────────────────

#[test]
fn test_create_file_valid() {
    let id = Uuid::new_v4().as_u128();
    let mock = MockFileManager::new();
    *mock.create_file_result.lock().unwrap() = Some(Ok(dummy_file(id)));
    let logic = make_logic(mock);

    let result = logic.create_file(valid_new_file());
    assert!(result.is_ok());
    assert_eq!(result.unwrap().id, id);
}

#[test]
fn test_create_file_invalid_name() {
    let mock = MockFileManager::new();
    let logic = make_logic(mock);

    let bad_new_file = NewFile {
        metadata: NewMetadata {
            name: "".to_string(),
            ext: "md".to_string(),
            tags: vec![],
            mime: "text/plain".to_string(),
        },
        content: None,
    };

    let result = logic.create_file(bad_new_file);
    assert!(matches!(result, Err(FileManagerError::ValidationError(_))));
}

#[test]
fn test_create_file_invalid_ext() {
    let mock = MockFileManager::new();
    let logic = make_logic(mock);

    let bad_new_file = NewFile {
        metadata: NewMetadata {
            name: "readme".to_string(),
            ext: "".to_string(),
            tags: vec![],
            mime: "text/plain".to_string(),
        },
        content: None,
    };

    let result = logic.create_file(bad_new_file);
    assert!(matches!(result, Err(FileManagerError::ValidationError(_))));
}

#[test]
fn test_create_file_bytes_empty_name() {
    let mock = MockFileManager::new();
    let logic = make_logic(mock);

    let result = logic.create_file_bytes(
        "".to_string(),
        "png".to_string(),
        "image/png".to_string(),
        vec![],
        vec![0u8, 1u8, 2u8],
    );
    assert!(matches!(result, Err(FileManagerError::ValidationError(_))));
}

#[test]
fn test_create_file_bytes_empty_ext() {
    let mock = MockFileManager::new();
    let logic = make_logic(mock);

    let result = logic.create_file_bytes(
        "photo".to_string(),
        "".to_string(),
        "image/png".to_string(),
        vec![],
        vec![0u8, 1u8, 2u8],
    );
    assert!(matches!(result, Err(FileManagerError::ValidationError(_))));
}

#[test]
fn test_update_file_valid() {
    let id = Uuid::new_v4().as_u128();
    let mock = MockFileManager::new();
    *mock.update_file_result.lock().unwrap() = Some(Ok(dummy_file(id)));
    let logic = make_logic(mock);

    let update = UpdateFile {
        metadata: None,
        content: Some("new content".to_string()),
    };
    let result = logic.update_file(id, update);
    assert!(result.is_ok());
}

#[test]
fn file_manager_test_update_file_invalid_metadata() {
    let id = Uuid::new_v4().as_u128();
    let mock = MockFileManager::new();
    let logic = make_logic(mock);

    let update = UpdateFile {
        metadata: Some(UpdateMetadata {
            name: Some("".to_string()), // empty name — invalid
            ext: None,
            tags: None,
            mime: None,
        }),
        content: None,
    };
    let result = logic.update_file(id, update);
    assert!(matches!(result, Err(FileManagerError::ValidationError(_))));
}

#[test]
fn test_find_valid_query() {
    let mock = MockFileManager::new();
    *mock.find_result.lock().unwrap() = Some(Ok(vec![]));
    let logic = make_logic(mock);

    let query = FileQuery::new().with_extension("rs".to_string());
    let result = logic.find(query);
    assert!(result.is_ok());
}

#[test]
fn test_find_invalid_query() {
    let mock = MockFileManager::new();
    let logic = make_logic(mock);

    // Conflicting backlinks_to + links_to fails verify()
    let query = FileQuery::new()
        .with_backlinks_to(vec![Uuid::new_v4().as_u128()])
        .with_links_to(Uuid::new_v4().as_u128());

    let result = logic.find(query);
    assert!(matches!(result, Err(FileManagerError::ValidationError(_))));
}

#[test]
fn test_read_file_delegates() {
    let id = Uuid::new_v4().as_u128();
    let mock = MockFileManager::new();
    *mock.read_file_result.lock().unwrap() = Some(Ok(dummy_file(id)));
    let logic = make_logic(mock);

    let result = logic.read_file(id);
    assert!(result.is_ok());
    assert_eq!(result.unwrap().id, id);
}

#[test]
fn test_list_files_delegates() {
    let mock = MockFileManager::new();
    *mock.list_files_result.lock().unwrap() = Some(Ok(vec![]));
    let logic = make_logic(mock);

    let result = logic.list_files();
    assert!(result.is_ok());
    assert!(result.unwrap().is_empty());
}

#[test]
fn test_delete_file_delegates() {
    let id = Uuid::new_v4().as_u128();
    let mock = MockFileManager::new();
    *mock.delete_file_result.lock().unwrap() = Some(Ok(()));
    let logic = make_logic(mock);

    let result = logic.delete_file(id);
    assert!(result.is_ok());
}

#[test]
fn test_list_all_tags_delegates() {
    let mock = MockFileManager::new();
    *mock.list_all_tags_result.lock().unwrap() =
        Some(Ok(vec!["rust".to_string(), "docs".to_string()]));
    let logic = make_logic(mock);

    let result = logic.list_all_tags();
    assert!(result.is_ok());
    let tags = result.unwrap();
    assert_eq!(tags, vec!["rust".to_string(), "docs".to_string()]);
}

// ── Messages of refused requests ─────────────────────────────────────────

#[test]
fn refused_creation_carries_the_metadata_message() {
    let logic = make_logic(MockFileManager::new());
    let bad = NewFile {
        metadata: NewMetadata {
            name: "readme".to_string(),
            ext: " ".to_string(),
            tags: vec![],
            mime: "text/plain".to_string(),
        },
        content: None,
    };
    match logic.create_file(bad) {
        Err(FileManagerError::ValidationError(m)) => assert_eq!(m, "Invalid extension: ' '"),
        _ => panic!("expected a validation error"),
    }
}

#[test]
fn refused_upload_messages() {
    let logic = make_logic(MockFileManager::new());
    match logic.create_file_bytes(" ".into(), "png".into(), "image/png".into(), vec![], vec![]) {
        Err(FileManagerError::ValidationError(m)) => assert_eq!(m, "File name cannot be empty"),
        _ => panic!("expected a validation error"),
    }
    match logic.create_file_bytes("a".into(), "\t".into(), "image/png".into(), vec![], vec![]) {
        Err(FileManagerError::ValidationError(m)) => assert_eq!(m, "Extension cannot be empty"),
        _ => panic!("expected a validation error"),
    }
}

#[test]
fn accepted_upload_reaches_the_adapter() {
    let mock = MockFileManager::new();
    *mock.create_file_bytes_result.lock().unwrap() = Some(Ok(dummy_metadata(7)));
    let logic = make_logic(mock);
    let r = logic.create_file_bytes("a".into(), "b".into(), "c".into(), vec![], vec![1]);
    assert_eq!(r.unwrap().id, 7);
}

#[test]
fn refused_query_carries_the_verify_message() {
    let logic = make_logic(MockFileManager::new());
    let q = FileQuery::new().with_size_greater_than(9).with_size_smaller_than(1);
    match logic.find(q) {
        Err(FileManagerError::ValidationError(m)) => {
            assert_eq!(m, "size_greater_than cannot be larger than size_smaller_than")
        }
        _ => panic!("expected a validation error"),
    }
}

#[test]
fn refused_update_carries_the_metadata_message() {
    let logic = make_logic(MockFileManager::new());
    let update = UpdateFile {
        metadata: Some(UpdateMetadata { name: None, ext: None, tags: None, mime: Some("".into()) }),
        content: None,
    };
    match logic.update_file(1, update) {
        Err(FileManagerError::ValidationError(m)) => assert_eq!(m, "Invalid MIME type: ''"),
        _ => panic!("expected a validation error"),
    }
}

#[test]
fn titled_listing_reads_titles_of_markdown_files_only() {
    let mock = MockFileManager::new();
    let mut text = dummy_metadata(2);
    text.ext = "txt".to_string();
    *mock.list_files_result.lock().unwrap() = Some(Ok(vec![dummy_metadata(1), text]));
    *mock.read_file_bytes_result.lock().unwrap() =
        Some(Ok((dummy_metadata(1), b"\n# The Title \nbody".to_vec())));
    let logic = make_logic(mock);
    let entries = titled_listing(&logic).unwrap();
    assert_eq!(entries.len(), 2);
    assert_eq!(entries[0].ext, "md");
    assert_eq!(entries[0].title.as_deref(), Some("The Title"));
    assert_eq!(entries[1].ext, "txt");
    assert_eq!(entries[1].title, None);
}

#[test]
fn titled_listing_gives_back_a_failed_listing() {
    let mock = MockFileManager::new();
    *mock.list_files_result.lock().unwrap() = Some(Err(FileManagerError::IoError("disk".to_string())));
    let logic = make_logic(mock);
    assert!(matches!(titled_listing(&logic), Err(FileManagerError::IoError(m)) if m == "disk"));
}
