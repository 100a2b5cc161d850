use synker::inbound::server::handlers::backend::upload_file::{parse_tags, split_file_name, UploadForm};

#[test]
fn file_name_splits_at_the_last_dot() {
    assert_eq!(split_file_name("notes.tar.gz"), ("notes.tar".to_string(), "gz".to_string()));
    assert_eq!(split_file_name("README"), ("README".to_string(), "".to_string()));
    assert_eq!(split_file_name(".hidden"), ("".to_string(), "hidden".to_string()));
    assert_eq!(split_file_name("trailing."), ("trailing".to_string(), "".to_string()));
}

#[test]
fn tags_are_split_trimmed_and_kept_when_not_empty() {
    assert_eq!(parse_tags(" rust , docs,, ,x"), vec!["rust", "docs", "x"]);
    assert!(parse_tags("").is_empty());
    assert!(parse_tags(" , ").is_empty());
    assert_eq!(parse_tags("single"), vec!["single"]);
}

#[test]
fn upload_without_file_is_refused() {
    let mut form = UploadForm::new();
    form.accept_tags("a,b");
    assert_eq!(form.finish().unwrap_err(), "No file field in upload");
}

#[test]
fn upload_defaults() {
    let mut form = UploadForm::new();
    form.accept_file(Some("README".to_string()), None, vec![1, 2]);
    let u = form.finish().unwrap();
    assert_eq!(u.name, "README");
    assert_eq!(u.ext, "bin");
    assert_eq!(u.mime, "application/octet-stream");
    assert_eq!(u.data, vec![1, 2]);

    let mut form = UploadForm::new();
    form.accept_file(None, Some("image/png".to_string()), vec![]);
    let u = form.finish().unwrap();
    assert_eq!(u.name, "uploaded");
    assert_eq!(u.ext, "bin");
    assert_eq!(u.mime, "image/png");
}

#[test]
fn upload_with_tags() {
    let mut form = UploadForm::new();
    form.accept_tags("rust, docs");
    form.accept_file(Some("notes.md".to_string()), Some("text/markdown".to_string()), b"hi".to_vec());
    form.accept_tags("more");
    let u = form.finish().unwrap();
    assert_eq!(u.name, "notes");
    assert_eq!(u.ext, "md");
    assert_eq!(u.tags, vec!["rust", "docs", "more"]);
}
