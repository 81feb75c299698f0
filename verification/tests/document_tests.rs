use docx_document::document::{Document, DocumentChild};
use docx_document::elements::{
    BookmarkEnd, BookmarkStart, Comment, CommentRangeEnd, CommentRangeStart, Paragraph, Run,
    Table,
};
use docx_document::numeric::dec_u64;
use docx_document::section::{DocGrid, DocGridType, PageMargin, PageSize, SectionProperty};

const DECLARATION: &str = "<?xml version=\"1.0\" encoding=\"UTF-8\" standalone=\"yes\"?>\n";

const ROOT_OPEN: &str = "<w:document xmlns:o=\"urn:schemas-microsoft-com:office:office\" xmlns:r=\"http://schemas.openxmlformats.org/officeDocument/2006/relationships\" xmlns:v=\"urn:schemas-microsoft-com:vml\" xmlns:w=\"http://schemas.openxmlformats.org/wordprocessingml/2006/main\" xmlns:w10=\"urn:schemas-microsoft-com:office:word\" xmlns:wp=\"http://schemas.openxmlformats.org/drawingml/2006/wordprocessingDrawing\" xmlns:wps=\"http://schemas.microsoft.com/office/word/2010/wordprocessingShape\" xmlns:wpg=\"http://schemas.microsoft.com/office/word/2010/wordprocessingGroup\" xmlns:mc=\"http://schemas.openxmlformats.org/markup-compatibility/2006\" xmlns:wp14=\"http://schemas.microsoft.com/office/word/2010/wordprocessingDrawing\" xmlns:w14=\"http://schemas.microsoft.com/office/word/2010/wordml\" xmlns:w15=\"http://schemas.microsoft.com/office/word/2012/wordml\" mc:Ignorable=\"w14 wp14\">\n";

const DEFAULT_SECTION: &str = "<w:sectPr><w:pgSz w:w=\"11906\" w:h=\"16838\" /><w:pgMar w:top=\"1985\" w:right=\"1701\" w:bottom=\"1701\" w:left=\"1701\" w:header=\"851\" w:footer=\"992\" w:gutter=\"0\" /><w:headerReference w:type=\"default\" r:id=\"rId4\" /><w:cols w:space=\"425\" /><w:docGrid w:type=\"lines\" w:linePitch=\"360\" /></w:sectPr>";

fn shell(body_children: &str) -> String {
    format!(
        "{}{}  <w:body>{}{}</w:body>\n</w:document>",
        DECLARATION, ROOT_OPEN, body_children, DEFAULT_SECTION
    )
}

#[test]
fn test_document() {
    let b = Document::new()
        .add_paragraph(Paragraph::new().add_run(Run::new().add_text("Hello".to_string())))
        .build();
    assert_eq!(
        std::str::from_utf8(&b).unwrap(),
        r#"<?xml version="1.0" encoding="UTF-8" standalone="yes"?>
<w:document xmlns:o="urn:schemas-microsoft-com:office:office" xmlns:r="http://schemas.openxmlformats.org/officeDocument/2006/relationships" xmlns:v="urn:schemas-microsoft-com:vml" xmlns:w="http://schemas.openxmlformats.org/wordprocessingml/2006/main" xmlns:w10="urn:schemas-microsoft-com:office:word" xmlns:wp="http://schemas.openxmlformats.org/drawingml/2006/wordprocessingDrawing" xmlns:wps="http://schemas.microsoft.com/office/word/2010/wordprocessingShape" xmlns:wpg="http://schemas.microsoft.com/office/word/2010/wordprocessingGroup" xmlns:mc="http://schemas.openxmlformats.org/markup-compatibility/2006" xmlns:wp14="http://schemas.microsoft.com/office/word/2010/wordprocessingDrawing" xmlns:w14="http://schemas.microsoft.com/office/word/2010/wordml" xmlns:w15="http://schemas.microsoft.com/office/word/2012/wordml" mc:Ignorable="w14 wp14">
  <w:body><w:p w14:paraId="12345678"><w:pPr><w:rPr /></w:pPr><w:r><w:rPr /><w:t xml:space="preserve">Hello</w:t></w:r></w:p><w:sectPr><w:pgSz w:w="11906" w:h="16838" /><w:pgMar w:top="1985" w:right="1701" w:bottom="1701" w:left="1701" w:header="851" w:footer="992" w:gutter="0" /><w:headerReference w:type="default" r:id="rId4" /><w:cols w:space="425" /><w:docGrid w:type="lines" w:linePitch="360" /></w:sectPr></w:body>
</w:document>"#
    );
}

#[test]
fn empty_document_renders_default_shell() {
    let b = Document::new().build();
    assert_eq!(String::from_utf8(b).unwrap(), shell(""));
}

#[test]
fn append_order_is_preserved_in_markup() {
    let d = Document::new()
        .add_bookmark_start(7, "x".to_string())
        .add_paragraph(Paragraph::new().add_run(Run::new().add_text("a".to_string())))
        .add_bookmark_end(7);
    let b = d.build();
    let expected = shell(
        "<w:bookmarkStart w:id=\"7\" w:name=\"x\" /><w:p w14:paraId=\"12345678\"><w:pPr><w:rPr /></w:pPr><w:r><w:rPr /><w:t xml:space=\"preserve\">a</w:t></w:r></w:p><w:bookmarkEnd w:id=\"7\" />",
    );
    assert_eq!(String::from_utf8(b).unwrap(), expected);
}

#[test]
fn bookmark_markers_tagged_in_structure() {
    let d = Document::new()
        .add_bookmark_start(1, "b".to_string())
        .add_bookmark_end(1);
    let s = d.structure_string();
    let expected = "{\"children\":[{\"type\":\"bookmarkStart\",\"data\":{\"id\":1,\"name\":\"b\"}},{\"type\":\"bookmarkEnd\",\"data\":{\"id\":1}}],\"sectionProperty\":{\"pageSize\":{\"w\":11906,\"h\":16838},\"pageMargin\":{\"top\":1985,\"right\":1701,\"bottom\":1701,\"left\":1701,\"header\":851,\"footer\":992,\"gutter\":0},\"docGrid\":{\"gridType\":\"lines\",\"linePitch\":360,\"charSpace\":null}},\"hasNumbering\":false}";
    assert_eq!(s, expected);
    // The two markers render as siblings in that order in the markup too.
    let m = String::from_utf8(d.build()).unwrap();
    assert!(m.contains("<w:bookmarkStart w:id=\"1\" w:name=\"b\" /><w:bookmarkEnd w:id=\"1\" />"));
}

#[test]
fn table_numbering_flips_flag_and_stays() {
    let mut t = Table::new();
    t.has_numbering = true;
    let d = Document::new();
    assert!(!d.has_numbering);
    let d = d.add_table(t);
    assert!(d.has_numbering);
    let d = d.add_paragraph(Paragraph::new());
    assert!(d.has_numbering);
    let s = d.structure_string();
    assert!(s.ends_with("\"hasNumbering\":true}"));
}

#[test]
fn paragraph_numbering_flips_flag() {
    let mut p = Paragraph::new();
    p.has_numbering = true;
    let d = Document::new().add_paragraph(p);
    assert!(d.has_numbering);
}

#[test]
fn render_twice_is_identical() {
    let d = Document::new()
        .add_paragraph(Paragraph::new().add_run(Run::new().add_text("twice".to_string())))
        .add_bookmark_start(3, "m".to_string());
    let first = d.build();
    let second = d.build();
    assert_eq!(first, second);
    assert_eq!(d.structure_string(), d.structure_string());
}

#[test]
fn each_case_renders_nonempty() {
    let cases = vec![
        DocumentChild::Paragraph(Paragraph::new()),
        DocumentChild::Table(Table::new()),
        DocumentChild::BookmarkStart(BookmarkStart::new(1, "n".to_string())),
        DocumentChild::BookmarkEnd(BookmarkEnd::new(2)),
        DocumentChild::CommentStart(CommentRangeStart::new(Comment::new(3))),
        DocumentChild::CommentEnd(CommentRangeEnd::new(3)),
    ];
    for c in &cases {
        let markup = c.build();
        assert!(!markup.is_empty());
        let mut s = String::new();
        c.structure_to(&mut s);
        assert!(!s.is_empty());
    }
}

#[test]
fn each_case_has_its_discriminator() {
    let tagged = vec![
        (DocumentChild::Paragraph(Paragraph::new()), "paragraph"),
        (DocumentChild::Table(Table::new()), "table"),
        (
            DocumentChild::BookmarkStart(BookmarkStart::new(1, "n".to_string())),
            "bookmarkStart",
        ),
        (DocumentChild::BookmarkEnd(BookmarkEnd::new(2)), "bookmarkEnd"),
        (
            DocumentChild::CommentStart(CommentRangeStart::new(Comment::new(3))),
            "commentRangeStart",
        ),
        (DocumentChild::CommentEnd(CommentRangeEnd::new(3)), "commentRangeEnd"),
    ];
    for (c, tag) in &tagged {
        let mut s = String::new();
        c.structure_to(&mut s);
        assert!(s.starts_with(&format!("{{\"type\":\"{}\",\"data\":", tag)));
    }
}

#[test]
fn section_markup_stands_after_all_children() {
    let d = Document::new()
        .add_paragraph(Paragraph::new().add_run(Run::new().add_text("z".to_string())))
        .add_bookmark_end(9);
    let m = String::from_utf8(d.build()).unwrap();
    let last_child = m.find("<w:bookmarkEnd w:id=\"9\" />").unwrap();
    let section = m.find("<w:sectPr>").unwrap();
    let body_close = m.find("</w:body>").unwrap();
    assert!(last_child < section);
    assert!(section < body_close);
}

#[test]
fn comment_range_markers_render() {
    let d = Document::new()
        .add_comment_start(Comment::new(4))
        .add_comment_end(4);
    let m = String::from_utf8(d.build()).unwrap();
    assert!(m.contains(
        "<w:commentRangeStart w:id=\"4\" /><w:commentRangeEnd w:id=\"4\" />"
    ));
    let s = d.structure_string();
    assert!(s.contains("{\"type\":\"commentRangeStart\",\"data\":{\"comment\":{\"id\":4}}}"));
    assert!(s.contains("{\"type\":\"commentRangeEnd\",\"data\":{\"id\":4}}"));
}

#[test]
fn decimal_rendering_exact() {
    assert_eq!(dec_u64(0), "0");
    assert_eq!(dec_u64(7), "7");
    assert_eq!(dec_u64(10), "10");
    assert_eq!(dec_u64(909), "909");
    assert_eq!(dec_u64(u64::MAX), "18446744073709551615");
}

#[test]
fn negative_margin_renders_sign() {
    let margin = PageMargin {
        top: 1985,
        right: 1701,
        bottom: 1701,
        left: 1701,
        header: 851,
        footer: 992,
        gutter: -42,
    };
    let mut s = String::new();
    margin.build_to(&mut s);
    assert!(s.contains("w:gutter=\"-42\""));
    let m = String::from_utf8(Document::new().page_margin(margin).build()).unwrap();
    assert!(m.contains("w:gutter=\"-42\""));
}

#[test]
fn page_size_last_write_wins() {
    let d = Document::new()
        .page_size(PageSize { w: 100, h: 200 })
        .page_size(PageSize { w: 300, h: 400 });
    let m = String::from_utf8(d.build()).unwrap();
    assert!(m.contains("<w:pgSz w:w=\"300\" w:h=\"400\" />"));
    assert!(!m.contains("w:w=\"100\""));
}

#[test]
fn doc_grid_optional_attributes() {
    let d = Document::new().doc_grid(DocGrid {
        grid_type: DocGridType::SnapToChars,
        line_pitch: None,
        char_space: Some(-99),
    });
    let m = String::from_utf8(d.build()).unwrap();
    assert!(m.contains("<w:docGrid w:type=\"snapToChars\" w:charSpace=\"-99\" />"));
}

#[test]
fn section_property_replaced_wholesale() {
    let replacement = SectionProperty::new()
        .page_size(PageSize { w: 1, h: 2 })
        .doc_grid(DocGrid {
            grid_type: DocGridType::Default,
            line_pitch: Some(10),
            char_space: None,
        });
    let d = Document::new()
        .page_size(PageSize { w: 500, h: 600 })
        .default_section_property(replacement);
    let m = String::from_utf8(d.build()).unwrap();
    assert!(m.contains("<w:pgSz w:w=\"1\" w:h=\"2\" />"));
    assert!(m.contains("<w:docGrid w:type=\"default\" w:linePitch=\"10\" />"));
    assert!(!m.contains("w:w=\"500\""));
}

#[test]
fn structure_of_empty_document() {
    let s = Document::new().structure_string();
    let expected = "{\"children\":[],\"sectionProperty\":{\"pageSize\":{\"w\":11906,\"h\":16838},\"pageMargin\":{\"top\":1985,\"right\":1701,\"bottom\":1701,\"left\":1701,\"header\":851,\"footer\":992,\"gutter\":0},\"docGrid\":{\"gridType\":\"lines\",\"linePitch\":360,\"charSpace\":null}},\"hasNumbering\":false}";
    assert_eq!(s, expected);
}

#[test]
fn paragraph_structure_lists_runs_in_order() {
    let p = Paragraph::new()
        .add_run(Run::new().add_text("one".to_string()))
        .add_run(Run::new().add_text("two".to_string()));
    let d = Document::new().add_paragraph(p);
    let s = d.structure_string();
    assert!(s.contains(
        "{\"type\":\"paragraph\",\"data\":{\"id\":\"12345678\",\"children\":[{\"children\":[{\"text\":\"one\"}]},{\"children\":[{\"text\":\"two\"}]}],\"hasNumbering\":false}}"
    ));
}
