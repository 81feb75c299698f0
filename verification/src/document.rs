//! The document aggregate: an ordered sequence of top-level nodes, one
//! section configuration, and the derived numbering flag, with the wire
//! markup rendering and the tagged structural rendering of the whole.

use vstd::prelude::*;
use vstd::string::{StrSliceExecFns, StringExecFns, StringSliceAdditionalSpecFns};
use vstd::utf8::encode_utf8;

use crate::elements::{
    bool_chars, push_bool, BookmarkEnd, BookmarkStart, Comment, CommentRangeEnd,
    CommentRangeStart, Paragraph, Table,
};
use crate::section::SectionProperty;

verus! {

/// One top-level node of a document: a closed union with exactly six cases.
#[derive(Debug, Clone, PartialEq)]
pub enum DocumentChild {
    Paragraph(Paragraph),
    Table(Table),
    BookmarkStart(BookmarkStart),
    BookmarkEnd(BookmarkEnd),
    CommentStart(CommentRangeStart),
    CommentEnd(CommentRangeEnd),
}

impl DocumentChild {
    /// The fixed discriminator string of each case in the structural form;
    /// the mapping is total and no case shares a discriminator.
    pub open spec fn discriminator(&self) -> Seq<char> {
        match self {
            DocumentChild::Paragraph(_) => "paragraph"@,
            DocumentChild::Table(_) => "table"@,
            DocumentChild::BookmarkStart(_) => "bookmarkStart"@,
            DocumentChild::BookmarkEnd(_) => "bookmarkEnd"@,
            DocumentChild::CommentStart(_) => "commentRangeStart"@,
            DocumentChild::CommentEnd(_) => "commentRangeEnd"@,
        }
    }

    /// The markup of this node: the wrapped element's own markup, untouched.
    pub open spec fn markup(&self) -> Seq<char> {
        match self {
            DocumentChild::Paragraph(p) => p.markup(),
            DocumentChild::Table(t) => t.markup(),
            DocumentChild::BookmarkStart(b) => b.markup(),
            DocumentChild::BookmarkEnd(b) => b.markup(),
            DocumentChild::CommentStart(c) => c.markup(),
            DocumentChild::CommentEnd(c) => c.markup(),
        }
    }

    /// The tagged structural form of this node: the discriminator of the
    /// case, then the wrapped element's own structural form as the payload.
    pub open spec fn structure(&self) -> Seq<char> {
        "{\"type\":\""@ + self.discriminator() + "\",\"data\":"@ + (match self {
            DocumentChild::Paragraph(p) => p.structure(),
            DocumentChild::Table(t) => t.structure(),
            DocumentChild::BookmarkStart(b) => b.structure(),
            DocumentChild::BookmarkEnd(b) => b.structure(),
            DocumentChild::CommentStart(c) => c.structure(),
            DocumentChild::CommentEnd(c) => c.structure(),
        }) + "}"@
    }

    /// Whether this node reports that it needs numbering definitions; only
    /// paragraphs and tables can.
    pub open spec fn numbering(&self) -> bool {
        match self {
            DocumentChild::Paragraph(p) => p.has_numbering,
            DocumentChild::Table(t) => t.has_numbering,
            _ => false,
        }
    }

    /// Appends this node's markup to `out`, dispatching on the case.
    pub fn build_to(&self, out: &mut String)
        ensures
            final(out)@ == old(out)@ + self.markup(),
    {
        match self {
            DocumentChild::Paragraph(p) => p.build_to(out),
            DocumentChild::Table(t) => t.build_to(out),
            DocumentChild::BookmarkStart(b) => b.build_to(out),
            DocumentChild::BookmarkEnd(b) => b.build_to(out),
            DocumentChild::CommentStart(c) => c.build_to(out),
            DocumentChild::CommentEnd(c) => c.build_to(out),
        }
    }

    /// Appends this node's tagged structural form to `out`.
    pub fn structure_to(&self, out: &mut String)
        ensures
            final(out)@ == old(out)@ + self.structure(),
    {
        out.append("{\"type\":\"");
        match self {
            DocumentChild::Paragraph(p) => {
                out.append("paragraph");
                out.append("\",\"data\":");
                p.structure_to(out);
            },
            DocumentChild::Table(t) => {
                out.append("table");
                out.append("\",\"data\":");
                t.structure_to(out);
            },
            DocumentChild::BookmarkStart(b) => {
                out.append("bookmarkStart");
                out.append("\",\"data\":");
                b.structure_to(out);
            },
            DocumentChild::BookmarkEnd(b) => {
                out.append("bookmarkEnd");
                out.append("\",\"data\":");
                b.structure_to(out);
            },
            DocumentChild::CommentStart(c) => {
                out.append("commentRangeStart");
                out.append("\",\"data\":");
                c.structure_to(out);
            },
            DocumentChild::CommentEnd(c) => {
                out.append("commentRangeEnd");
                out.append("\",\"data\":");
                c.structure_to(out);
            },
        }
        out.append("}");
        proof {
            assert(out@ =~= old(out)@ + self.structure());
        }
    }

    /// The markup bytes of this node alone.
    pub fn build(&self) -> (r: Vec<u8>)
        ensures
            r@ == encode_utf8(self.markup()),
    {
        let mut out = String::new();
        self.build_to(&mut out);
        proof {
            assert(out@ =~= self.markup());
        }
        out.as_str().as_bytes_vec()
    }
}

/// The concatenated markup of a sequence of nodes, in order.
pub open spec fn children_markup(s: Seq<DocumentChild>) -> Seq<char>
    decreases s.len(),
{
    if s.len() == 0 {
        Seq::<char>::empty()
    } else {
        children_markup(s.drop_last()) + s.last().markup()
    }
}

/// The comma-separated structural forms of a sequence of nodes, in order.
pub open spec fn children_structure(s: Seq<DocumentChild>) -> Seq<char>
    decreases s.len(),
{
    if s.len() == 0 {
        Seq::<char>::empty()
    } else if s.len() == 1 {
        s.last().structure()
    } else {
        children_structure(s.drop_last()) + ","@ + s.last().structure()
    }
}

/// Whether any node of the sequence reports that it needs numbering, as the
/// incremental accumulation computes it: node by node, in order.
pub open spec fn children_numbering(s: Seq<DocumentChild>) -> bool
    decreases s.len(),
{
    if s.len() == 0 {
        false
    } else {
        children_numbering(s.drop_last()) || s.last().numbering()
    }
}

proof fn lemma_children_markup_take(s: Seq<DocumentChild>, i: int)
    requires
        0 <= i < s.len(),
    ensures
        children_markup(s.take(i + 1)) == children_markup(s.take(i)) + s[i].markup(),
{
    assert(s.take(i + 1).drop_last() =~= s.take(i));
    assert(s.take(i + 1).last() == s[i]);
}

proof fn lemma_children_structure_take(s: Seq<DocumentChild>, i: int)
    requires
        0 < i < s.len(),
    ensures
        children_structure(s.take(i + 1)) == children_structure(s.take(i)) + ","@
            + s[i].structure(),
{
    assert(s.take(i + 1).drop_last() =~= s.take(i));
    assert(s.take(i + 1).last() == s[i]);
}

/// Appending one node appends exactly its markup after the markup of what
/// was there, and exactly its structural form (after a separator, once the
/// sequence is not empty): the emitted order is the append order.
pub proof fn lemma_append_preserves_order(s: Seq<DocumentChild>, c: DocumentChild)
    ensures
        children_markup(s.push(c)) == children_markup(s) + c.markup(),
        children_structure(s.push(c)) == if s.len() == 0 {
            c.structure()
        } else {
            children_structure(s) + ","@ + c.structure()
        },
{
    assert(s.push(c).drop_last() =~= s);
    assert(s.push(c).last() == c);
}

/// Appending one node ORs exactly that node's numbering flag into the
/// accumulated flag.
pub proof fn lemma_append_numbering(s: Seq<DocumentChild>, c: DocumentChild)
    ensures
        children_numbering(s.push(c)) == (children_numbering(s) || c.numbering()),
{
    assert(s.push(c).drop_last() =~= s);
    assert(s.push(c).last() == c);
}

/// The incrementally accumulated numbering flag of a sequence agrees with a
/// full traversal: it is true exactly when some node of the sequence reports
/// numbering.
pub proof fn lemma_numbering_is_disjunction(s: Seq<DocumentChild>)
    ensures
        children_numbering(s) <==> (exists|i: int| 0 <= i < s.len() && s[i].numbering()),
    decreases s.len(),
{
    if s.len() > 0 {
        lemma_numbering_is_disjunction(s.drop_last());
        if children_numbering(s) {
            if children_numbering(s.drop_last()) {
                let i = choose|i: int|
                    0 <= i < s.drop_last().len() && s.drop_last()[i].numbering();
                assert(s[i].numbering());
            } else {
                assert(s[s.len() - 1].numbering());
            }
        }
        if exists|i: int| 0 <= i < s.len() && s[i].numbering() {
            let i = choose|i: int| 0 <= i < s.len() && s[i].numbering();
            if i < s.len() - 1 {
                assert(s.drop_last()[i].numbering());
            }
        }
    }
}

/// The declaration line that opens the rendered markup.
pub open spec fn declaration_chars() -> Seq<char> {
    "<?xml version=\"1.0\" encoding=\"UTF-8\" standalone=\"yes\"?>\n"@
}

/// The root element's opening tag, carrying the fixed, complete set of
/// namespace declarations and the fixed compatibility-ignorable list; these
/// are constants of the format, never derived from the content.
pub open spec fn root_open_chars() -> Seq<char> {
    "<w:document xmlns:o=\"urn:schemas-microsoft-com:office:office\" xmlns:r=\"http://schemas.openxmlformats.org/officeDocument/2006/relationships\" xmlns:v=\"urn:schemas-microsoft-com:vml\" xmlns:w=\"http://schemas.openxmlformats.org/wordprocessingml/2006/main\" xmlns:w10=\"urn:schemas-microsoft-com:office:word\" xmlns:wp=\"http://schemas.openxmlformats.org/drawingml/2006/wordprocessingDrawing\" xmlns:wps=\"http://schemas.microsoft.com/office/word/2010/wordprocessingShape\" xmlns:wpg=\"http://schemas.microsoft.com/office/word/2010/wordprocessingGroup\" xmlns:mc=\"http://schemas.openxmlformats.org/markup-compatibility/2006\" xmlns:wp14=\"http://schemas.microsoft.com/office/word/2010/wordprocessingDrawing\" xmlns:w14=\"http://schemas.microsoft.com/office/word/2010/wordml\" xmlns:w15=\"http://schemas.microsoft.com/office/word/2012/wordml\" mc:Ignorable=\"w14 wp14\">\n"@
}

/// The opening of the body wrapper element.
pub open spec fn body_open_chars() -> Seq<char> {
    "  <w:body>"@
}

/// The closing of the body wrapper element.
pub open spec fn body_close_chars() -> Seq<char> {
    "</w:body>\n"@
}

/// The root element's closing tag.
pub open spec fn root_close_chars() -> Seq<char> {
    "</w:document>"@
}

/// The document aggregate: its children in reading order, its section
/// configuration, and the derived flag that records whether any contained
/// paragraph or table needs numbering definitions.
#[derive(Debug, Clone, PartialEq)]
pub struct Document {
    pub children: Vec<DocumentChild>,
    pub section_property: SectionProperty,
    pub has_numbering: bool,
}

impl Document {
    /// The derived flag agrees with its definition: it is exactly the
    /// accumulated numbering flag of the children.  Fresh documents satisfy
    /// this, and every operation of the aggregate preserves it.
    pub open spec fn numbering_consistent(&self) -> bool {
        self.has_numbering == children_numbering(self.children@)
    }

    /// The markup of the whole document: declaration, root opening with its
    /// fixed namespace set, body opening, every child's markup in children
    /// order, the section configuration's markup, then the closing tags in
    /// reverse-open order.
    pub open spec fn markup(&self) -> Seq<char> {
        declaration_chars() + root_open_chars() + body_open_chars() + children_markup(
            self.children@,
        ) + self.section_property.markup() + body_close_chars() + root_close_chars()
    }

    /// The tagged structural form of the whole document: the children in
    /// order, the section configuration, and the derived numbering flag.
    pub open spec fn structure(&self) -> Seq<char> {
        "{\"children\":["@ + children_structure(self.children@) + "],\"sectionProperty\":"@
            + self.section_property.structure() + ",\"hasNumbering\":"@ + bool_chars(
            self.has_numbering,
        ) + "}"@
    }

    /// An empty document: no children, the default section configuration,
    /// and no numbering requirement.
    pub fn new() -> (r: Document)
        ensures
            r.children@ == Seq::<DocumentChild>::empty(),
            r.section_property == SectionProperty::default_value(),
            r.has_numbering == false,
            r.numbering_consistent(),
    {
        Document::default()
    }

    /// Appends a paragraph; if the paragraph reports numbering, the derived
    /// flag becomes true, and it never reverts.
    pub fn add_paragraph(self, p: Paragraph) -> (r: Document)
        ensures
            r.children@ == self.children@.push(DocumentChild::Paragraph(p)),
            r.section_property == self.section_property,
            r.has_numbering == (self.has_numbering || p.has_numbering),
            self.has_numbering ==> r.has_numbering,
            self.numbering_consistent() ==> r.numbering_consistent(),
    {
        let has_numbering = self.has_numbering || p.has_numbering;
        let mut children = self.children;
        children.push(DocumentChild::Paragraph(p));
        proof {
            lemma_append_numbering(self.children@, DocumentChild::Paragraph(p));
        }
        Document { children, section_property: self.section_property, has_numbering }
    }

    /// Appends a table; if the table reports numbering, the derived flag
    /// becomes true, and it never reverts.
    pub fn add_table(self, t: Table) -> (r: Document)
        ensures
            r.children@ == self.children@.push(DocumentChild::Table(t)),
            r.section_property == self.section_property,
            r.has_numbering == (self.has_numbering || t.has_numbering),
            self.has_numbering ==> r.has_numbering,
            self.numbering_consistent() ==> r.numbering_consistent(),
    {
        let has_numbering = self.has_numbering || t.has_numbering;
        let mut children = self.children;
        children.push(DocumentChild::Table(t));
        proof {
            lemma_append_numbering(self.children@, DocumentChild::Table(t));
        }
        Document { children, section_property: self.section_property, has_numbering }
    }

    /// Appends a bookmark start marker built from the raw id and name; no
    /// pairing or uniqueness check is made.
    pub fn add_bookmark_start(self, id: usize, name: String) -> (r: Document)
        ensures
            r.children@ == self.children@.push(
                DocumentChild::BookmarkStart((BookmarkStart { id, name })),
            ),
            r.section_property == self.section_property,
            r.has_numbering == self.has_numbering,
            self.numbering_consistent() ==> r.numbering_consistent(),
    {
        let b = BookmarkStart::new(id, name);
        let ghost c = DocumentChild::BookmarkStart(b);
        let mut children = self.children;
        children.push(DocumentChild::BookmarkStart(b));
        proof {
            lemma_append_numbering(self.children@, c);
        }
        Document {
            children,
            section_property: self.section_property,
            has_numbering: self.has_numbering,
        }
    }

    /// Appends a bookmark end marker built from the raw id.
    pub fn add_bookmark_end(self, id: usize) -> (r: Document)
        ensures
            r.children@ == self.children@.push(DocumentChild::BookmarkEnd((BookmarkEnd { id }))),
            r.section_property == self.section_property,
            r.has_numbering == self.has_numbering,
            self.numbering_consistent() ==> r.numbering_consistent(),
    {
        let mut children = self.children;
        children.push(DocumentChild::BookmarkEnd(BookmarkEnd::new(id)));
        proof {
            lemma_append_numbering(self.children@, DocumentChild::BookmarkEnd(BookmarkEnd { id }));
        }
        Document {
            children,
            section_property: self.section_property,
            has_numbering: self.has_numbering,
        }
    }

    /// Appends a comment range start marker wrapping the given comment.
    pub fn add_comment_start(self, comment: Comment) -> (r: Document)
        ensures
            r.children@ == self.children@.push(
                DocumentChild::CommentStart((CommentRangeStart { comment })),
            ),
            r.section_property == self.section_property,
            r.has_numbering == self.has_numbering,
            self.numbering_consistent() ==> r.numbering_consistent(),
    {
        let s = CommentRangeStart::new(comment);
        let ghost c = DocumentChild::CommentStart(s);
        let mut children = self.children;
        children.push(DocumentChild::CommentStart(s));
        proof {
            lemma_append_numbering(self.children@, c);
        }
        Document {
            children,
            section_property: self.section_property,
            has_numbering: self.has_numbering,
        }
    }

    /// Appends a comment range end marker built from the raw id.
    pub fn add_comment_end(self, id: usize) -> (r: Document)
        ensures
            r.children@ == self.children@.push(
                DocumentChild::CommentEnd((CommentRangeEnd { id })),
            ),
            r.section_property == self.section_property,
            r.has_numbering == self.has_numbering,
            self.numbering_consistent() ==> r.numbering_consistent(),
    {
        let mut children = self.children;
        children.push(DocumentChild::CommentEnd(CommentRangeEnd::new(id)));
        proof {
            lemma_append_numbering(
                self.children@,
                DocumentChild::CommentEnd(CommentRangeEnd { id }),
            );
        }
        Document {
            children,
            section_property: self.section_property,
            has_numbering: self.has_numbering,
        }
    }

    /// Replaces the page size of the section configuration; children and the
    /// derived flag are untouched.  Last write wins.
    pub fn page_size(self, size: crate::section::PageSize) -> (r: Document)
        ensures
            r.children == self.children,
            r.has_numbering == self.has_numbering,
            r.section_property == self.section_property.spec_with_page_size(size),
            self.numbering_consistent() ==> r.numbering_consistent(),
    {
        Document {
            children: self.children,
            section_property: self.section_property.page_size(size),
            has_numbering: self.has_numbering,
        }
    }

    /// Replaces the page margins of the section configuration.  Last write
    /// wins.
    pub fn page_margin(self, margin: crate::section::PageMargin) -> (r: Document)
        ensures
            r.children == self.children,
            r.has_numbering == self.has_numbering,
            r.section_property == self.section_property.spec_with_page_margin(margin),
            self.numbering_consistent() ==> r.numbering_consistent(),
    {
        Document {
            children: self.children,
            section_property: self.section_property.page_margin(margin),
            has_numbering: self.has_numbering,
        }
    }

    /// Replaces the document grid of the section configuration.  Last write
    /// wins.
    pub fn doc_grid(self, doc_grid: crate::section::DocGrid) -> (r: Document)
        ensures
            r.children == self.children,
            r.has_numbering == self.has_numbering,
            r.section_property == self.section_property.spec_with_doc_grid(doc_grid),
            self.numbering_consistent() ==> r.numbering_consistent(),
    {
        Document {
            children: self.children,
            section_property: self.section_property.doc_grid(doc_grid),
            has_numbering: self.has_numbering,
        }
    }

    /// Replaces the section configuration wholesale, discarding any prior
    /// partial configuration.
    pub fn default_section_property(self, property: SectionProperty) -> (r: Document)
        ensures
            r.children == self.children,
            r.has_numbering == self.has_numbering,
            r.section_property == property,
            self.numbering_consistent() ==> r.numbering_consistent(),
    {
        Document {
            children: self.children,
            section_property: property,
            has_numbering: self.has_numbering,
        }
    }

    /// The markup bytes of the whole document.  Rendering is a pure function
    /// of the aggregate: two renderings of the same unmutated value yield the
    /// same bytes, and rendering never fails.
    pub fn build(&self) -> (r: Vec<u8>)
        ensures
            r@ == encode_utf8(self.markup()),
    {
        let mut out = String::new();
        out.append(
            "<?xml version=\"1.0\" encoding=\"UTF-8\" standalone=\"yes\"?>\n",
        );
        out.append(
            "<w:document xmlns:o=\"urn:schemas-microsoft-com:office:office\" xmlns:r=\"http://schemas.openxmlformats.org/officeDocument/2006/relationships\" xmlns:v=\"urn:schemas-microsoft-com:vml\" xmlns:w=\"http://schemas.openxmlformats.org/wordprocessingml/2006/main\" xmlns:w10=\"urn:schemas-microsoft-com:office:word\" xmlns:wp=\"http://schemas.openxmlformats.org/drawingml/2006/wordprocessingDrawing\" xmlns:wps=\"http://schemas.microsoft.com/office/word/2010/wordprocessingShape\" xmlns:wpg=\"http://schemas.microsoft.com/office/word/2010/wordprocessingGroup\" xmlns:mc=\"http://schemas.openxmlformats.org/markup-compatibility/2006\" xmlns:wp14=\"http://schemas.microsoft.com/office/word/2010/wordprocessingDrawing\" xmlns:w14=\"http://schemas.microsoft.com/office/word/2010/wordml\" xmlns:w15=\"http://schemas.microsoft.com/office/word/2012/wordml\" mc:Ignorable=\"w14 wp14\">\n",
        );
        out.append("  <w:body>");
        let ghost opened = declaration_chars() + root_open_chars() + body_open_chars();
        proof {
            assert(out@ =~= opened);
        }
        let n = self.children.len();
        let mut i: usize = 0;
        while i < n
            invariant
                i <= n,
                n == self.children@.len(),
                out@ == opened + children_markup(self.children@.take(i as int)),
            decreases n - i,
        {
            self.children[i].build_to(&mut out);
            proof {
                lemma_children_markup_take(self.children@, i as int);
            }
            i += 1;
        }
        proof {
            assert(self.children@.take(n as int) =~= self.children@);
        }
        self.section_property.build_to(&mut out);
        out.append("</w:body>\n");
        out.append("</w:document>");
        proof {
            assert(out@ =~= self.markup());
        }
        out.as_str().as_bytes_vec()
    }

    /// The tagged structural form of the whole document, as text.
    pub fn structure_string(&self) -> (r: String)
        ensures
            r@ == self.structure(),
    {
        let mut out = String::new();
        out.append("{\"children\":[");
        let ghost opened = "{\"children\":["@;
        proof {
            assert(out@ =~= opened);
        }
        let n = self.children.len();
        let mut i: usize = 0;
        while i < n
            invariant
                i <= n,
                n == self.children@.len(),
                out@ == opened + children_structure(self.children@.take(i as int)),
            decreases n - i,
        {
            if i > 0 {
                out.append(",");
            }
            self.children[i].structure_to(&mut out);
            proof {
                if i == 0 {
                    assert(self.children@.take(1).last() == self.children@[0]);
                    assert(out@ =~= opened + children_structure(
                        self.children@.take(i as int + 1),
                    ));
                } else {
                    lemma_children_structure_take(self.children@, i as int);
                    assert(out@ =~= opened + children_structure(
                        self.children@.take(i as int + 1),
                    ));
                }
            }
            i += 1;
        }
        proof {
            assert(self.children@.take(n as int) =~= self.children@);
        }
        out.append("],\"sectionProperty\":");
        self.section_property.structure_to(&mut out);
        out.append(",\"hasNumbering\":");
        push_bool(&mut out, self.has_numbering);
        out.append("}");
        proof {
            assert(out@ =~= self.structure());
        }
        out
    }
}

impl Default for Document {
    /// An empty document: no children, the default section configuration,
    /// and no numbering requirement.
    fn default() -> (r: Document)
        ensures
            r.children@ == Seq::<DocumentChild>::empty(),
            r.section_property == SectionProperty::default_value(),
            r.has_numbering == false,
            r.numbering_consistent(),
    {
        let r = Document {
            children: Vec::new(),
            section_property: SectionProperty::new(),
            has_numbering: false,
        };
        proof {
            assert(r.children@ =~= Seq::<DocumentChild>::empty());
        }
        r
    }
}

/// Every case of the closed union renders to something: for each of the six
/// cases, both the markup and the tagged structural form are non-empty, so no
/// case is silently dropped by either rendering.
pub proof fn lemma_child_renders_nonempty(c: DocumentChild)
    ensures
        c.markup().len() > 0,
        c.structure().len() > 0,
{
    reveal_strlit("{\"type\":\"");
    match c {
        DocumentChild::Paragraph(_) => reveal_strlit("<w:p w14:paraId=\""),
        DocumentChild::Table(_) => reveal_strlit("<w:tbl><w:tblPr /><w:tblGrid /></w:tbl>"),
        DocumentChild::BookmarkStart(_) => reveal_strlit("<w:bookmarkStart w:id=\""),
        DocumentChild::BookmarkEnd(_) => reveal_strlit("<w:bookmarkEnd w:id=\""),
        DocumentChild::CommentStart(_) => reveal_strlit("<w:commentRangeStart w:id=\""),
        DocumentChild::CommentEnd(_) => reveal_strlit("<w:commentRangeEnd w:id=\""),
    }
}

/// Rendering is pure: the bytes are a function of the aggregate value alone,
/// so two renderings of the same unmutated document are byte-identical.
pub proof fn lemma_render_deterministic(d: Document, r1: Seq<u8>, r2: Seq<u8>)
    requires
        r1 == encode_utf8(d.markup()),
        r2 == encode_utf8(d.markup()),
    ensures
        r1 == r2,
{
}

/// The section configuration's markup stands after the markup of every child
/// and immediately before the body's closing tag, whatever and however many
/// the children are.
pub proof fn lemma_section_placement(d: Document)
    ensures
        d.markup() == (declaration_chars() + root_open_chars() + body_open_chars()
            + children_markup(d.children@)) + d.section_property.markup() + (body_close_chars()
            + root_close_chars()),
{
    assert(d.markup() =~= (declaration_chars() + root_open_chars() + body_open_chars()
        + children_markup(d.children@)) + d.section_property.markup() + (body_close_chars()
        + root_close_chars()));
}

} // verus!
