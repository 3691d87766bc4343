use docrename::metadata::{
    classify, extract_contents, DocContents, DocFormat, FileError, FileMetadata, PdfInfo, RawText,
};
use docrename::paths::{extension_of, with_file_name};
use docrename::planner::{build_stem, candidate_file_name, plan_rename, process_decision, Outcome, Plan};

fn meta(author: Option<&str>, title: Option<&str>) -> FileMetadata {
    FileMetadata {
        author: author.map(String::from),
        title: title.map(String::from),
    }
}

#[test]
fn no_extension_fails() {
    assert!(matches!(classify("noext"), Err(FileError::NoExtension)));
    assert!(matches!(classify("dir/noext"), Err(FileError::NoExtension)));
    assert!(matches!(classify(".hidden"), Err(FileError::NoExtension)));
    assert!(matches!(classify(""), Err(FileError::NoExtension)));
}

#[test]
fn no_extension_means_nothing_renamed() {
    let r = process_decision("noext", Err(FileError::NoExtension), false, false);
    assert!(matches!(
        r,
        Outcome::Failed { error: FileError::NoExtension }
    ));
}

#[test]
fn unknown_extension_fails() {
    assert!(matches!(classify("notes.txt"), Err(FileError::UnknownExtension)));
    assert!(matches!(classify("book.mobi"), Err(FileError::UnknownExtension)));
    assert!(matches!(classify("book."), Err(FileError::UnknownExtension)));
}

#[test]
fn classify_is_case_insensitive() {
    assert!(matches!(classify("Book.EPUB"), Ok(DocFormat::Epub)));
    assert!(matches!(classify("Book.ePub"), Ok(DocFormat::Epub)));
    assert!(matches!(classify("doc.PDF"), Ok(DocFormat::Pdf)));
    assert!(matches!(classify("doc.pdf"), Ok(DocFormat::Pdf)));
}

#[test]
fn extension_lookup() {
    assert_eq!(extension_of("archive.tar.gz").as_deref(), Some("gz"));
    assert_eq!(extension_of("dir.d/noext"), None);
    assert_eq!(extension_of(".hidden"), None);
    assert_eq!(extension_of("a/b/c.EPUB").as_deref(), Some("EPUB"));
    assert_eq!(extension_of("trailing.").as_deref(), Some(""));
}

#[test]
fn with_file_name_keeps_directory() {
    assert_eq!(with_file_name("a/b/old.epub", "new.epub"), "a/b/new.epub");
    assert_eq!(with_file_name("old.epub", "new.epub"), "new.epub");
    assert_eq!(with_file_name("/old.epub", "new.epub"), "/new.epub");
}

#[test]
fn epub_fields_carry_over() {
    let doc = DocContents::Epub {
        author: Some(String::from("Jane Doe")),
        title: Some(String::from("My Book")),
    };
    let m = extract_contents(doc).unwrap();
    assert_eq!(m.author.as_deref(), Some("Jane Doe"));
    assert_eq!(m.title.as_deref(), Some("My Book"));
}

#[test]
fn epub_missing_fields_still_succeed() {
    let doc = DocContents::Epub { author: None, title: None };
    let m = extract_contents(doc).unwrap();
    assert_eq!(m.author, None);
    assert_eq!(m.title, None);
}

#[test]
fn open_error_fails() {
    assert!(matches!(
        extract_contents(DocContents::OpenError),
        Err(FileError::OpenFailed)
    ));
}

#[test]
fn pdf_without_info_dict_fails() {
    let r = extract_contents(DocContents::Pdf { info: None });
    assert!(matches!(r, Err(FileError::MissingMetadata)));
    let outcome = process_decision("doc.pdf", r, false, false);
    assert!(matches!(
        outcome,
        Outcome::Failed { error: FileError::MissingMetadata }
    ));
}

#[test]
fn pdf_with_empty_info_dict_succeeds() {
    let doc = DocContents::Pdf {
        info: Some(PdfInfo { author: RawText::Absent, title: RawText::Absent }),
    };
    let m = extract_contents(doc).unwrap();
    assert_eq!(m.author, None);
    assert_eq!(m.title, None);
}

#[test]
fn pdf_undecodable_field_is_absent() {
    let doc = DocContents::Pdf {
        info: Some(PdfInfo {
            author: RawText::Undecodable,
            title: RawText::Text(String::from("T")),
        }),
    };
    let m = extract_contents(doc).unwrap();
    assert_eq!(m.author, None);
    assert_eq!(m.title.as_deref(), Some("T"));
}

#[test]
fn derived_name_author_and_title() {
    let m = meta(Some("Jane Doe"), Some("My Book"));
    assert_eq!(build_stem(&m), "Jane Doe - My Book");
    assert_eq!(
        candidate_file_name(&m, false, "epub"),
        "Jane Doe - My Book.epub"
    );
    match plan_rename("books/x.epub", &m, false) {
        Plan::Rename { to } => assert_eq!(to, "books/Jane Doe - My Book.epub"),
        Plan::NoOp => panic!("expected a rename"),
    }
}

#[test]
fn derived_name_slugified() {
    let m = meta(Some("Jane Doe"), Some("My Book"));
    assert_eq!(
        candidate_file_name(&m, true, "epub"),
        "jane-doe-my-book.epub"
    );
    match plan_rename("books/x.epub", &m, true) {
        Plan::Rename { to } => assert_eq!(to, "books/jane-doe-my-book.epub"),
        Plan::NoOp => panic!("expected a rename"),
    }
}

#[test]
fn slug_normalizes_punctuation() {
    let m = meta(None, Some("My Test String!!!1!1"));
    assert_eq!(
        candidate_file_name(&m, true, "epub"),
        "my-test-string-1-1.epub"
    );
}

#[test]
fn derived_name_title_only() {
    let m = meta(None, Some("Lonely"));
    assert_eq!(build_stem(&m), "Lonely");
    assert_eq!(candidate_file_name(&m, false, "epub"), "Lonely.epub");
}

#[test]
fn derived_name_author_only_keeps_separator() {
    let m = meta(Some("Jane Doe"), None);
    assert_eq!(build_stem(&m), "Jane Doe - ");
    assert_eq!(candidate_file_name(&m, false, "epub"), "Jane Doe - .epub");
}

#[test]
fn derived_name_empty_metadata_is_degenerate() {
    let m = meta(None, None);
    assert_eq!(build_stem(&m), "");
    assert_eq!(candidate_file_name(&m, false, "pdf"), ".pdf");
    match plan_rename("dir/doc.pdf", &m, false) {
        Plan::Rename { to } => assert_eq!(to, "dir/.pdf"),
        Plan::NoOp => panic!("the degenerate rename still proceeds"),
    }
}

#[test]
fn noop_when_candidate_equals_original() {
    let m = meta(Some("Jane Doe"), Some("My Book"));
    assert!(matches!(
        plan_rename("books/Jane Doe - My Book.epub", &m, false),
        Plan::NoOp
    ));
    // Regardless of the dry-run flag the outcome stays a no-op.
    let r = process_decision(
        "books/Jane Doe - My Book.epub",
        Ok(meta(Some("Jane Doe"), Some("My Book"))),
        false,
        false,
    );
    assert!(matches!(r, Outcome::NoOp));
    let r = process_decision(
        "books/Jane Doe - My Book.epub",
        Ok(m),
        false,
        true,
    );
    assert!(matches!(r, Outcome::NoOp));
}

#[test]
fn dry_run_never_performs() {
    let r = process_decision("x.epub", Ok(meta(Some("A"), Some("B"))), false, true);
    match r {
        Outcome::DryRun { to } => assert_eq!(to, "A - B.epub"),
        _ => panic!("expected a dry-run report"),
    }
}

#[test]
fn wet_run_performs() {
    let r = process_decision("x.epub", Ok(meta(Some("A"), Some("B"))), false, false);
    match r {
        Outcome::Rename { to } => assert_eq!(to, "A - B.epub"),
        _ => panic!("expected a rename"),
    }
}

#[test]
fn rerun_on_own_output_is_noop() {
    let m = meta(Some("Jane Doe"), Some("My Book"));
    let to = match plan_rename("books/x.epub", &m, false) {
        Plan::Rename { to } => to,
        Plan::NoOp => panic!("expected a rename"),
    };
    assert!(matches!(plan_rename(&to, &m, false), Plan::NoOp));
}

#[test]
fn rerun_on_own_slugified_output_is_noop() {
    let m = meta(Some("Jane Doe"), Some("My Book"));
    let to = match plan_rename("books/x.epub", &m, true) {
        Plan::Rename { to } => to,
        Plan::NoOp => panic!("expected a rename"),
    };
    assert!(matches!(plan_rename(&to, &m, true), Plan::NoOp));
}

#[test]
fn error_descriptions() {
    assert_eq!(FileError::NoExtension.describe(), "no extension");
    assert_eq!(FileError::UnknownExtension.describe(), "unknown extension");
    assert_eq!(FileError::OpenFailed.describe(), "could not open the document");
    assert_eq!(FileError::MissingMetadata.describe(), "missing metadata");
    assert_eq!(FileError::RenameFailed.describe(), "rename failed");
}
