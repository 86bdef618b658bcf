use std::io::Write;

use llama_chat::documents::{
    csv_reply, docx_from_events, eml_reply, extract_csv_structured, extract_docx_text, extract_eml_text,
    extract_epub_text, extract_odt_text, extract_pptx_text, pdf_reply,
    read_xml_events, rtf_reply, sort_names, CsvTable, MailDoc, MailPart, RtfText, XmlEvent,
};

fn zip_of(entries: &[(&str, &str)]) -> Vec<u8> {
    let mut w = zip::ZipWriter::new(std::io::Cursor::new(Vec::new()));
    for (name, body) in entries {
        w.start_file(*name, zip::write::SimpleFileOptions::default()).unwrap();
        w.write_all(body.as_bytes()).unwrap();
    }
    w.finish().unwrap().into_inner()
}

#[test]
fn xml_events_are_read_in_order() {
    let events = read_xml_events("<w:a>x &amp; y</w:a><b/>");
    assert_eq!(events.len(), 5);
    assert!(matches!(&events[0], XmlEvent::Start(n) if n == "a"));
    assert!(matches!(&events[1], XmlEvent::Text(Some(t)) if t == "x & y"));
    assert!(matches!(&events[2], XmlEvent::End(n) if n == "a"));
    assert!(matches!(&events[3], XmlEvent::Empty(n) if n == "b"));
    assert!(matches!(&events[4], XmlEvent::Eof));
    let bad = read_xml_events("<a></b>");
    assert!(matches!(bad.last(), Some(XmlEvent::Failed(_))));
}

#[test]
fn docx_text_and_notes() {
    let xml = r#"<w:document xmlns:w="x"><w:body><w:p><w:r><w:t>Hello</w:t></w:r></w:p><w:p><w:r><w:t>World &amp; more</w:t></w:r></w:p></w:body></w:document>"#;
    let docx = zip_of(&[("word/document.xml", xml)]);
    assert_eq!(extract_docx_text(&docx, 1000), "Hello\nWorld & more");
    assert_eq!(extract_docx_text(&docx, 5), "Hello\n\n[DOCX truncated at 5 chars]");
    let empty = zip_of(&[("word/document.xml", "<w:document><w:body><w:p/></w:body></w:document>")]);
    assert_eq!(extract_docx_text(&empty, 100), "(DOCX contains no extractable text)");
    let other = zip_of(&[("readme.txt", "hi")]);
    assert!(extract_docx_text(&other, 100).starts_with("Error: not a valid DOCX file (missing word/document.xml): "));
    assert!(extract_docx_text(b"plain bytes", 100).starts_with("Error reading DOCX archive: "));
    let broken = zip_of(&[("word/document.xml", "<w:p><w:t>x</w:q>")]);
    assert!(extract_docx_text(&broken, 100).starts_with("Error parsing DOCX XML: "));
}

#[test]
fn docx_events_outside_text_runs_are_skipped() {
    let events = vec![
        XmlEvent::Text(Some("ignored".to_string())),
        XmlEvent::Start("t".to_string()),
        XmlEvent::Text(Some("kept".to_string())),
        XmlEvent::End("t".to_string()),
        XmlEvent::Text(Some("ignored too".to_string())),
        XmlEvent::Start("p".to_string()),
        XmlEvent::Start("t".to_string()),
        XmlEvent::Text(None),
        XmlEvent::Text(Some("next".to_string())),
        XmlEvent::Eof,
        XmlEvent::Text(Some("after the end".to_string())),
    ];
    assert_eq!(docx_from_events(&events, 100), "kept\nnext");
}

#[test]
fn pptx_slides_in_name_order() {
    let one = "<p:sld><a:p><a:r><a:t>One</a:t></a:r></a:p><a:p><a:r><a:t>Two</a:t></a:r></a:p></p:sld>";
    let two = "<p:sld><a:p><a:t>Three</a:t></a:p></p:sld>";
    let pptx = zip_of(&[
        ("ppt/slides/slide2.xml", two),
        ("ppt/presentation.xml", "<p/>"),
        ("ppt/slides/slide1.xml", one),
    ]);
    assert_eq!(extract_pptx_text(&pptx), "--- Slide 1 ---\nOne\nTwo\n--- Slide 2 ---\nThree");
    let none = zip_of(&[("ppt/presentation.xml", "<p/>")]);
    assert_eq!(extract_pptx_text(&none), "(PPTX contains no slides)");
    let blank = zip_of(&[("ppt/slides/slide1.xml", "<p:sld/>")]);
    assert_eq!(extract_pptx_text(&blank), "--- Slide 1 ---");
    assert!(extract_pptx_text(b"nope").starts_with("Error reading PPTX archive: "));
}

#[test]
fn names_sort_by_code_point() {
    let names = vec!["b".to_string(), "B".to_string(), "a10".to_string(), "a2".to_string(), "a".to_string()];
    assert_eq!(sort_names(&names), vec!["B", "a", "a10", "a2", "b"]);
}

#[test]
fn odt_paragraphs_tabs_and_breaks() {
    let xml = "<office:document-content><office:body><office:text><text:h>Title</text:h><text:p>Line one<text:tab/>tabbed</text:p><text:p>Second<text:line-break/>break</text:p></office:text></office:body></office:document-content>";
    let odt = zip_of(&[("content.xml", xml)]);
    assert_eq!(extract_odt_text(&odt), "Title\nLine one\ttabbed\nSecond\nbreak");
    let empty = zip_of(&[("content.xml", "<office:document-content/>")]);
    assert_eq!(extract_odt_text(&empty), "(ODT document contains no text)");
    let other = zip_of(&[("meta.xml", "<m/>")]);
    assert!(extract_odt_text(&other).starts_with("Error finding content.xml in ODT: "));
}

#[test]
fn epub_chapters_in_name_order() {
    let epub = zip_of(&[
        ("OEBPS/ch2.xhtml", "<html><body><p>Second chapter</p></body></html>"),
        ("OEBPS/style.css", "p { color: red }"),
        ("OEBPS/ch1.XHTML", "<html><body><p>First chapter</p></body></html>"),
    ]);
    assert_eq!(extract_epub_text(&epub, 10_000), "First chapter\n\nSecond chapter");
    assert_eq!(extract_epub_text(&epub, 5), "First chapter");
    let none = zip_of(&[("OEBPS/style.css", "p {}")]);
    assert_eq!(extract_epub_text(&none, 100), "(EPUB contains no readable text)");
}

#[test]
fn csv_header_underline_and_rows() {
    assert_eq!(
        extract_csv_structured(b"name,age\nbob,30\nann,4\n", 1000),
        "name\tage\n----\t---\nbob\t30\nann\t4"
    );
    assert_eq!(extract_csv_structured(b"a,b\n1\n", 1000), "a\tb\n---\t---\n1");
    assert_eq!(extract_csv_structured(b"name,age\nbob,30\nann,4\n", 10), "name\tage\n----\t---\nbob\t30");
    assert_eq!(extract_csv_structured(b"", 100), "(CSV file is empty)");
    let table = CsvTable {
        headers: Some(vec!["k".to_string()]),
        records: vec![Ok(vec!["1".to_string()]), Err("bad row".to_string()), Ok(vec!["2".to_string()])],
    };
    assert_eq!(csv_reply(&table, 1000), "k\n---\n1\n[CSV parse error: bad row]");
}

#[test]
fn eml_headers_body_and_attachments() {
    let mail = b"From: a@b.c\r\nSubject: Hi\r\nContent-Type: text/plain\r\n\r\nHello there\r\n";
    assert_eq!(extract_eml_text(mail), "From: a@b.c\nSubject: Hi\n\n---\n\nHello there");
    let doc = MailDoc {
        headers: vec![
            ("subject".to_string(), "Report".to_string()),
            ("TO".to_string(), "".to_string()),
            ("to".to_string(), "x@y.z".to_string()),
        ],
        parts: vec![
            MailPart { mimetype: "multipart/mixed".to_string(), body: None, attachment: false, filename: None },
            MailPart {
                mimetype: "TEXT/PLAIN".to_string(),
                body: Some("  body text \n".to_string()),
                attachment: false,
                filename: None,
            },
            MailPart {
                mimetype: "application/pdf".to_string(),
                body: Some("%PDF".to_string()),
                attachment: true,
                filename: Some("r.pdf".to_string()),
            },
            MailPart { mimetype: "image/png".to_string(), body: None, attachment: true, filename: None },
        ],
    };
    assert_eq!(
        eml_reply(Ok(doc)),
        "Subject: Report\n\n---\n\nbody text\n\nAttachments:\n  - r.pdf (application/pdf)\n  - (unnamed) (image/png)"
    );
    assert_eq!(eml_reply(Err("broken".to_string())), "Error parsing email: broken");
}

#[test]
fn pdf_and_rtf_answers() {
    assert_eq!(pdf_reply(Ok("  some text \n".to_string()), 100), "some text");
    assert_eq!(pdf_reply(Ok("abcdef".to_string()), 3), "abc\n\n[PDF truncated at 3 chars]");
    assert_eq!(pdf_reply(Ok("é".to_string()), 1), "\n\n[PDF truncated at 1 chars]");
    assert_eq!(
        pdf_reply(Ok(" \n".to_string()), 100),
        "(PDF contains no extractable text — may be scanned/image-based)"
    );
    assert_eq!(pdf_reply(Err("bad".to_string()), 100), "Error extracting PDF text: bad");
    let read = pdf_extract::extract_text_from_mem(b"not a pdf at all").map_err(|e| e.to_string());
    assert!(pdf_reply(read, 100).starts_with("Error extracting PDF text: "));
    assert_eq!(rtf_reply(RtfText::Text(" hi ".to_string())), "hi");
    assert_eq!(rtf_reply(RtfText::Text("".to_string())), "(RTF document contains no text)");
    assert_eq!(rtf_reply(RtfText::LexFailed("x".to_string())), "Error lexing RTF: x");
    assert_eq!(rtf_reply(RtfText::ParseFailed("y".to_string())), "Error parsing RTF: y");
    let tokens = rtf_parser::lexer::Lexer::scan(r"{\rtf1\ansi{\fonttbl\f0\fswiss Helvetica;}\f0\pard This is some {\b bold} text.\par}").unwrap();
    let text = rtf_parser::parser::Parser::new(tokens).parse().unwrap().get_text();
    let rtf = rtf_reply(RtfText::Text(text));
    assert!(rtf.contains("bold"), "{rtf}");
}
