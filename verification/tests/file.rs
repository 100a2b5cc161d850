use synker::domain::types::file::file::{NewFile, UpdateFile};
use synker::domain::types::file::file_metadata::{MetadataCreationError, NewMetadata, UpdateMetadata};

fn valid_new_metadata() -> NewMetadata {
    NewMetadata {
        name: "my-file".to_string(),
        ext: "md".to_string(),
        tags: vec!["docs".to_string()],
        mime: "text/markdown".to_string(),
    }
}

#[test]
fn test_new_file_valid() {
    let result = NewFile::new(valid_new_metadata(), Some("Hello world".to_string()));
    assert!(result.is_ok());
    let f = result.unwrap();
    assert_eq!(f.metadata.name, "my-file");
    assert_eq!(f.metadata.ext, "md");
    assert_eq!(f.content, Some("Hello world".to_string()));
}

#[test]
fn test_new_file_invalid_metadata() {
    // Empty name should cause validation failure
    let bad_meta = NewMetadata {
        name: "".to_string(),
        ext: "md".to_string(),
        tags: vec![],
        mime: "text/plain".to_string(),
    };
    let result = NewFile::new(bad_meta, None);
    assert!(matches!(result, Err(MetadataCreationError::InvalidName(_))));
}

#[test]
fn test_update_file_valid_no_metadata() {
    let result = UpdateFile::new(None, Some("updated content".to_string()));
    assert!(result.is_ok());
    let f = result.unwrap();
    assert!(f.metadata.is_none());
    assert_eq!(f.content, Some("updated content".to_string()));
}

#[test]
fn test_update_file_valid_with_metadata() {
    let meta = UpdateMetadata {
        name: Some("new-name".to_string()),
        ext: Some("txt".to_string()),
        tags: None,
        mime: None,
    };
    let result = UpdateFile::new(Some(meta), None);
    assert!(result.is_ok());
    let f = result.unwrap();
    assert!(f.metadata.is_some());
    let m = f.metadata.unwrap();
    assert_eq!(m.name.as_deref(), Some("new-name"));
    assert_eq!(m.ext.as_deref(), Some("txt"));
}

#[test]
fn file_test_update_file_invalid_metadata() {
    // Empty extension in update metadata should propagate error
    let bad_meta = UpdateMetadata {
        name: None,
        ext: Some("".to_string()),
        tags: None,
        mime: None,
    };
    let result = UpdateFile::new(Some(bad_meta), None);
    assert!(matches!(
        result,
        Err(MetadataCreationError::InvalidExtension(_))
    ));
}

#[test]
fn new_file_without_content_is_valid() {
    let result = NewFile::new(valid_new_metadata(), None);
    assert!(result.unwrap().content.is_none());
}
