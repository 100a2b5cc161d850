use synker::domain::types::file::file::File;
use synker::domain::types::file::file_metadata::Metadata;
use synker::inbound::cli::daemon::watcher::{is_write, FsEventKind};
use synker::inbound::cli::read_arguments::{select_mode, Mode};
use synker::inbound::server::handlers::backend::create_file::{default_mime, file_to_response, CreateFileRequest};
use synker::inbound::server::handlers::backend::download_file::attachment_disposition;
use synker::inbound::server::handlers::backend::get_file::{file_response_from_bytes, metadata_to_file_response};
use synker::inbound::server::handlers::backend::list_files::{to_responses, MetadataResponse};
use synker::inbound::server::handlers::backend::update_file::UpdateFileRequest;

const ID: u128 = 0x67e55044_10b1_426f_9247_bb680e5fe0c8;
const ID_TEXT: &str = "67e55044-10b1-426f-9247-bb680e5fe0c8";

fn meta() -> Metadata {
    Metadata {
        id: ID,
        name: "report".to_string(),
        ext: "txt".to_string(),
        tags: vec!["a".to_string()],
        size: 11,
        mime: "text/plain".to_string(),
        created_at: "c".to_string(),
        modified_at: "m".to_string(),
    }
}

#[test]
fn file_answers_show_the_hyphenated_id() {
    let r = file_to_response(File { id: ID, metadata: meta(), content: "download me".to_string() });
    assert_eq!(r.id, ID_TEXT);
    assert_eq!(r.name, "report");
    assert_eq!(r.content, Some("download me".to_string()));
    let r = metadata_to_file_response(meta(), None);
    assert_eq!(r.id, ID_TEXT);
    assert_eq!(r.content, None);
}

#[test]
fn file_answers_from_bytes_hold_text_only() {
    let r = file_response_from_bytes(meta(), b"hello".to_vec());
    assert_eq!(r.content, Some("hello".to_string()));
    let r = file_response_from_bytes(meta(), vec![0xff, 0x00]);
    assert_eq!(r.content, None);
}

#[test]
fn metadata_answers() {
    let r = MetadataResponse::from_metadata(meta());
    assert_eq!(r.id, ID_TEXT);
    assert_eq!(r.size, 11);
    let rs = to_responses(vec![meta(), meta()]);
    assert_eq!(rs.len(), 2);
    assert_eq!(rs[1].name, "report");
}

#[test]
fn create_requests_become_new_files() {
    assert_eq!(default_mime(), "text/markdown");
    let req = CreateFileRequest {
        name: "hello".to_string(),
        ext: "md".to_string(),
        tags: vec![],
        mime: default_mime(),
        content: Some("# Hello World".to_string()),
    };
    let nf = req.into_new_file();
    assert_eq!(nf.metadata.name, "hello");
    assert_eq!(nf.metadata.mime, "text/markdown");
    assert_eq!(nf.content.as_deref(), Some("# Hello World"));
}

#[test]
fn update_requests_change_metadata_only_when_asked() {
    let req = UpdateFileRequest { name: None, ext: None, tags: None, mime: None, content: Some("new".to_string()) };
    let u = req.into_update();
    assert!(u.metadata.is_none());
    assert_eq!(u.content.as_deref(), Some("new"));
    let req = UpdateFileRequest { name: None, ext: None, tags: Some(vec![]), mime: None, content: None };
    let u = req.into_update();
    assert!(u.metadata.unwrap().tags.unwrap().is_empty());
}

#[test]
fn downloads_are_attachments() {
    assert_eq!(attachment_disposition("report", "txt"), "attachment; filename=\"report.txt\"");
}

#[test]
fn modes() {
    let args = |v: &[&str]| v.iter().map(|s| s.to_string()).collect::<Vec<String>>();
    assert_eq!(select_mode(&args(&["synker", "server"])), Ok(Mode::Server));
    assert_eq!(select_mode(&args(&["synker", "daemon", "x"])), Ok(Mode::Daemon));
    assert_eq!(
        select_mode(&args(&["synker", "serve"])),
        Err("Unknown mode: 'serve'. Valid modes are: server, daemon".to_string())
    );
    assert_eq!(select_mode(&args(&["prog"])), Err("Usage: prog <server|daemon>".to_string()));
    assert_eq!(select_mode(&args(&[])), Err("Usage: synker <server|daemon>".to_string()));
}

#[test]
fn write_events() {
    assert!(is_write(FsEventKind::DataModified));
    assert!(is_write(FsEventKind::Created));
    assert!(!is_write(FsEventKind::Other));
}
