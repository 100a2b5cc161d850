use synker::domain::types::file::file::{NewFile, UpdateFile};
use synker::domain::types::file::file_metadata::{Metadata, NewMetadata, UpdateMetadata};
use synker::domain::types::file::file_query::FileQuery;
use synker::outbound::file_system::{
    apply_update, collect_tags, content_file_name, content_not_found, content_size,
    filter_by_query, matches_query, metadata_file_name, metadata_not_found, new_file_record,
    new_upload_record, plan_update, select_by_content, sort_newest_first,
};
use synker::domain::services::file_manager::FileManagerError;

fn meta(id: u128, name: &str, ext: &str, size: u64, tags: &[&str], modified: &str) -> Metadata {
    Metadata {
        id,
        name: name.to_string(),
        ext: ext.to_string(),
        tags: tags.iter().map(|t| t.to_string()).collect(),
        size,
        mime: "text/plain".to_string(),
        created_at: modified.to_string(),
        modified_at: modified.to_string(),
    }
}

fn names(ms: &[Metadata]) -> Vec<String> {
    ms.iter().map(|m| m.name.clone()).collect()
}

#[test]
fn find_by_extension_ignores_ascii_case() {
    let all = vec![
        meta(1, "a", "md", 0, &[], "1"),
        meta(2, "b", "rs", 0, &[], "1"),
        meta(3, "c", "MD", 0, &[], "1"),
    ];
    let q = FileQuery::new().with_extension("md".to_string());
    assert_eq!(names(&filter_by_query(all, &q)), vec!["a", "c"]);
}

#[test]
fn find_by_name_ignores_case() {
    let all = vec![
        meta(1, "my-readme", "md", 0, &[], "1"),
        meta(2, "changelog", "md", 0, &[], "1"),
        meta(3, "MY-NOTES", "md", 0, &[], "1"),
    ];
    let q = FileQuery::new().with_name_contains("my".to_string());
    assert_eq!(names(&filter_by_query(all, &q)), vec!["my-readme", "MY-NOTES"]);
}

#[test]
fn find_by_tags_needs_every_tag() {
    let all = vec![
        meta(1, "f1", "md", 0, &["rust"], "1"),
        meta(2, "f2", "md", 0, &["Rust", "docs"], "1"),
        meta(3, "f3", "md", 0, &["docs"], "1"),
    ];
    let q = FileQuery::new().with_tags(vec!["rust".to_string()]);
    assert_eq!(names(&filter_by_query(all.clone(), &q)), vec!["f1", "f2"]);
    let q = FileQuery::new().with_tags(vec!["rust".to_string(), "DOCS".to_string()]);
    assert_eq!(names(&filter_by_query(all, &q)), vec!["f2"]);
}

#[test]
fn find_by_size_bounds_are_inclusive() {
    let all = vec![
        meta(1, "tiny", "md", 2, &[], "1"),
        meta(2, "medium", "md", 11, &[], "1"),
        meta(3, "large", "md", 100, &[], "1"),
    ];
    let q = FileQuery::new().with_size_greater_than(5).with_size_smaller_than(50);
    assert_eq!(names(&filter_by_query(all.clone(), &q)), vec!["medium"]);
    let q = FileQuery::new().with_size_greater_than(11).with_size_smaller_than(11);
    assert_eq!(names(&filter_by_query(all, &q)), vec!["medium"]);
}

#[test]
fn empty_query_keeps_everything() {
    let all = vec![meta(1, "a", "md", 0, &[], "1"), meta(2, "b", "rs", 9, &["x"], "2")];
    let q = FileQuery::new();
    assert!(matches_query(&all[0], &q));
    assert_eq!(names(&filter_by_query(all, &q)), vec!["a", "b"]);
}

#[test]
fn find_by_content_ignores_case_and_unreadable_files() {
    let files = vec![
        meta(1, "has-keyword", "md", 0, &[], "1"),
        meta(2, "no-keyword", "md", 0, &[], "1"),
        meta(3, "unreadable", "md", 0, &[], "1"),
    ];
    let contents = vec![
        Some("This contains the MAGIC word".to_string()),
        Some("Nothing special here".to_string()),
        None,
    ];
    let r = select_by_content(files, &contents, "magic");
    assert_eq!(names(&r), vec!["has-keyword"]);
}

#[test]
fn listing_is_newest_first_and_stable() {
    let files = vec![
        meta(1, "alpha", "md", 0, &[], "2024-01-01T00:00:00+00:00"),
        meta(2, "beta", "md", 0, &[], "2024-01-02T00:00:00+00:00"),
        meta(3, "gamma", "md", 0, &[], "2024-01-03T00:00:00+00:00"),
        meta(4, "beta-twin", "md", 0, &[], "2024-01-02T00:00:00+00:00"),
    ];
    let sorted = sort_newest_first(files);
    assert_eq!(names(&sorted), vec!["gamma", "beta", "beta-twin", "alpha"]);
}

#[test]
fn listing_of_nothing_is_empty() {
    assert!(sort_newest_first(vec![]).is_empty());
}

#[test]
fn tags_are_sorted_and_deduplicated() {
    let files = vec![
        meta(1, "f1", "md", 0, &["rust", "docs"], "1"),
        meta(2, "f2", "md", 0, &["docs", "code"], "1"),
        meta(3, "f3", "md", 0, &["rust"], "1"),
    ];
    assert_eq!(collect_tags(&files), vec!["code", "docs", "rust"]);
}

#[test]
fn tags_order_is_by_code_point() {
    let files = vec![meta(1, "f", "md", 0, &["b", "B", "é", "a", "ab", "a"], "1")];
    assert_eq!(collect_tags(&files), vec!["B", "a", "ab", "b", "é"]);
}

#[test]
fn file_names_use_the_hyphenated_id() {
    let id = 0x67e55044_10b1_426f_9247_bb680e5fe0c8;
    assert_eq!(content_file_name(id, "md"), "67e55044-10b1-426f-9247-bb680e5fe0c8.md");
    assert_eq!(metadata_file_name(id), "67e55044-10b1-426f-9247-bb680e5fe0c8.json");
    assert_eq!(metadata_file_name(0), "00000000-0000-0000-0000-000000000000.json");
}

#[test]
fn not_found_errors_name_the_id() {
    match metadata_not_found(1) {
        FileManagerError::FileNotFound(m) => {
            assert_eq!(m, "Metadata not found for 00000000-0000-0000-0000-000000000001")
        }
        _ => panic!("expected FileNotFound"),
    }
    match content_not_found(255) {
        FileManagerError::FileNotFound(m) => {
            assert_eq!(m, "File not found: 00000000-0000-0000-0000-0000000000ff")
        }
        _ => panic!("expected FileNotFound"),
    }
}

#[test]
fn new_file_record_sizes_content_in_bytes() {
    let nf = NewFile {
        metadata: NewMetadata {
            name: "readme".to_string(),
            ext: "md".to_string(),
            tags: vec!["t".to_string()],
            mime: "text/markdown".to_string(),
        },
        content: Some("# Hello".to_string()),
    };
    let f = new_file_record(9, nf, "now".to_string());
    assert_eq!(f.id, 9);
    assert_eq!(f.metadata.id, 9);
    assert_eq!(f.metadata.size, 7);
    assert_eq!(f.content, "# Hello");
    assert_eq!(f.metadata.created_at, "now");
    assert_eq!(f.metadata.modified_at, "now");
    assert_eq!(content_size("é"), 2);
}

#[test]
fn new_file_record_without_content_is_empty() {
    let nf = NewFile {
        metadata: NewMetadata {
            name: "n".to_string(),
            ext: "txt".to_string(),
            tags: vec![],
            mime: "text/plain".to_string(),
        },
        content: None,
    };
    let f = new_file_record(1, nf, "t".to_string());
    assert_eq!(f.content, "");
    assert_eq!(f.metadata.size, 0);
}

#[test]
fn upload_record_sizes_data() {
    let m = new_upload_record(
        3,
        "image".to_string(),
        "bin".to_string(),
        "application/octet-stream".to_string(),
        vec![],
        &vec![0xDE, 0xAD, 0xBE, 0xEF],
        "t".to_string(),
    );
    assert_eq!(m.size, 4);
    assert_eq!(m.name, "image");
    assert_eq!(m.ext, "bin");
}

#[test]
fn apply_update_replaces_given_fields_only() {
    let m = meta(1, "old-name", "md", 5, &["a"], "t");
    let u = UpdateMetadata {
        name: Some("new-name".to_string()),
        ext: None,
        tags: None,
        mime: Some("text/x".to_string()),
    };
    let r = apply_update(m, Some(u));
    assert_eq!(r.name, "new-name");
    assert_eq!(r.ext, "md");
    assert_eq!(r.tags, vec!["a"]);
    assert_eq!(r.mime, "text/x");
    assert_eq!(r.size, 5);
    let r2 = apply_update(r.clone(), None);
    assert_eq!(r2.name, r.name);
    assert_eq!(r2.mime, r.mime);
}

#[test]
fn plan_update_of_content_only_keeps_the_file_and_resizes() {
    let id: u128 = 0x1234;
    let stored = meta(id, "note", "txt", 11, &[], "t0");
    let update = UpdateFile { metadata: None, content: Some("new content!".to_string()) };
    let plan = plan_update(id, stored, update, "t1".to_string());
    assert_eq!(plan.metadata.name, "note");
    assert_eq!(plan.metadata.size, 12);
    assert_eq!(plan.metadata.created_at, "t0");
    assert_eq!(plan.metadata.modified_at, "t1");
    assert_eq!(plan.content_file, format!("{}.txt", uuid::Uuid::from_u128(id)));
    assert_eq!(plan.new_content.as_deref(), Some("new content!"));
    assert!(plan.old_content_file.is_none());
}

#[test]
fn plan_update_of_extension_renames_the_content_file() {
    let id: u128 = 0xabcdef;
    let stored = meta(id, "script", "txt", 11, &[], "t0");
    let update = UpdateFile {
        metadata: Some(UpdateMetadata { name: None, ext: Some("py".to_string()), tags: None, mime: None }),
        content: None,
    };
    let plan = plan_update(id, stored, update, "t1".to_string());
    let uuid = uuid::Uuid::from_u128(id);
    assert_eq!(plan.metadata.ext, "py");
    assert_eq!(plan.metadata.size, 11);
    assert_eq!(plan.content_file, format!("{}.py", uuid));
    assert_eq!(plan.old_content_file, Some(format!("{}.txt", uuid)));
    assert!(plan.new_content.is_none());
}

#[test]
fn plan_update_with_same_extension_given_keeps_the_file() {
    let id: u128 = 7;
    let stored = meta(id, "a", "md", 3, &["x"], "t0");
    let update = UpdateFile {
        metadata: Some(UpdateMetadata {
            name: Some("b".to_string()),
            ext: Some("md".to_string()),
            tags: Some(vec![]),
            mime: None,
        }),
        content: None,
    };
    let plan = plan_update(id, stored, update, "t1".to_string());
    assert_eq!(plan.metadata.name, "b");
    assert!(plan.metadata.tags.is_empty());
    assert!(plan.old_content_file.is_none());
}

#[test]
fn distinct_ids_have_distinct_files() {
    assert_ne!(content_file_name(1, "md"), content_file_name(2, "md"));
    assert_ne!(content_file_name(0x10, ""), content_file_name(0x1, "0"));
    assert_ne!(metadata_file_name(u128::MAX), metadata_file_name(u128::MAX - 1));
}

#[test]
fn find_by_modification_time_bounds_are_inclusive() {
    let jan: i128 = 1_704_067_200_000_000_000;
    let jun: i128 = 1_717_200_000_000_000_000;
    let all = vec![
        meta(1, "january", "md", 0, &[], "2024-01-01T00:00:00+00:00"),
        meta(2, "june", "md", 0, &[], "2024-06-01T02:00:00+02:00"),
        meta(3, "unreadable-time", "md", 0, &[], "yesterday"),
    ];
    let q = FileQuery::new().with_modified_after(jun);
    assert_eq!(names(&filter_by_query(all.clone(), &q)), vec!["june"]);
    let q = FileQuery::new().with_modified_before(jan);
    assert_eq!(names(&filter_by_query(all.clone(), &q)), vec!["january"]);
    let q = FileQuery::new().with_modified_after(jan + 1).with_modified_before(jun);
    assert_eq!(names(&filter_by_query(all.clone(), &q)), vec!["june"]);
    let q = FileQuery::new().with_modified_after(jun + 1);
    assert!(filter_by_query(all.clone(), &q).is_empty());
    assert_eq!(names(&filter_by_query(all, &FileQuery::new())), vec!["january", "june", "unreadable-time"]);
}
