use pdf_inbox::pdf_file_loader::PdfFileLoader;

#[test]
fn keeps_exactly_the_pdf_entries_in_scan_order() {
    let loader = PdfFileLoader::new();
    let entries = vec![
        Some(String::from("a.pdf")),
        Some(String::from("notes.txt")),
        Some(String::from("b.pdf")),
        None,
        Some(String::from("archive.pdf.bak")),
        Some(String::from("c.pdf")),
    ];
    let files = loader.load_files(entries);
    assert_eq!(files.len(), 3);
    assert_eq!(files[0].file_name, "a.pdf");
    assert_eq!(files[1].file_name, "b.pdf");
    assert_eq!(files[2].file_name, "c.pdf");
}

#[test]
fn suffix_check_is_exact_and_case_sensitive() {
    let loader = PdfFileLoader::new();
    assert!(loader.is_pdf(&Some(String::from("paper.pdf"))));
    assert!(loader.is_pdf(&Some(String::from(".pdf"))));
    assert!(!loader.is_pdf(&Some(String::from("paper.PDF"))));
    assert!(!loader.is_pdf(&Some(String::from("paper.pdfx"))));
    assert!(!loader.is_pdf(&Some(String::from("pdf"))));
    assert!(!loader.is_pdf(&Some(String::from(""))));
    // An entry whose name could not be decoded is never kept.
    assert!(!loader.is_pdf(&None));
}

#[test]
fn empty_scan_yields_no_records() {
    let loader = PdfFileLoader::new();
    let files = loader.load_files(Vec::new());
    assert_eq!(files.len(), 0);
}

#[test]
fn undecodable_names_never_reach_the_result() {
    let loader = PdfFileLoader::new();
    let files = loader.load_files(vec![None, None]);
    assert_eq!(files.len(), 0);
}
