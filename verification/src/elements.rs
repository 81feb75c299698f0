//! The element types a document may contain at its root level, each with its
//! own self-contained markup emission and tagged structural form.
//!
//! Text content and bookmark names are emitted verbatim: this layer performs
//! no character escaping, no id uniqueness check and no start/end pairing
//! check, matching the permissive contract of the aggregate.

use vstd::prelude::*;
use vstd::string::StringExecFns;

use crate::numeric::{dec_of, dec_u64};

verus! {

/// The characters of a boolean value in the structural form.
pub open spec fn bool_chars(b: bool) -> Seq<char> {
    if b {
        "true"@
    } else {
        "false"@
    }
}

/// Appends `"true"` or `"false"` to `out`.
pub fn push_bool(out: &mut String, b: bool)
    ensures
        final(out)@ == old(out)@ + bool_chars(b),
{
    if b {
        out.append("true");
    } else {
        out.append("false");
    }
}

/// Appends the decimal numeral of `n` to `out`.
pub fn push_dec_usize(out: &mut String, n: usize)
    ensures
        final(out)@ == old(out)@ + dec_of(n as nat),
{
    let d = dec_u64(n as u64);
    out.append(d.as_str());
}

/// A literal text node of a run.
#[derive(Debug, Clone, PartialEq)]
pub struct Text {
    pub text: String,
}

impl Text {
    /// The markup of this node: a text element preserving spaces, the
    /// characters emitted verbatim.
    pub open spec fn markup(&self) -> Seq<char> {
        "<w:t xml:space=\"preserve\">"@ + self.text@ + "</w:t>"@
    }

    /// The tagged structural form of this node.
    pub open spec fn structure(&self) -> Seq<char> {
        "{\"text\":\""@ + self.text@ + "\"}"@
    }

    pub fn new(text: String) -> (r: Text)
        ensures
            r == (Text { text }),
    {
        Text { text }
    }

    pub fn build_to(&self, out: &mut String)
        ensures
            final(out)@ == old(out)@ + self.markup(),
    {
        out.append("<w:t xml:space=\"preserve\">");
        out.append(self.text.as_str());
        out.append("</w:t>");
        proof {
            assert(out@ =~= old(out)@ + self.markup());
        }
    }

    pub fn structure_to(&self, out: &mut String)
        ensures
            final(out)@ == old(out)@ + self.structure(),
    {
        out.append("{\"text\":\"");
        out.append(self.text.as_str());
        out.append("\"}");
        proof {
            assert(out@ =~= old(out)@ + self.structure());
        }
    }
}

/// The concatenated markup of a sequence of text nodes, in order.
pub open spec fn texts_markup(s: Seq<Text>) -> Seq<char>
    decreases s.len(),
{
    if s.len() == 0 {
        Seq::<char>::empty()
    } else {
        texts_markup(s.drop_last()) + s.last().markup()
    }
}

/// The comma-separated structural forms of a sequence of text nodes, in order.
pub open spec fn texts_structure(s: Seq<Text>) -> Seq<char>
    decreases s.len(),
{
    if s.len() == 0 {
        Seq::<char>::empty()
    } else if s.len() == 1 {
        s.last().structure()
    } else {
        texts_structure(s.drop_last()) + ","@ + s.last().structure()
    }
}

proof fn lemma_texts_markup_take(s: Seq<Text>, i: int)
    requires
        0 <= i < s.len(),
    ensures
        texts_markup(s.take(i + 1)) == texts_markup(s.take(i)) + s[i].markup(),
{
    assert(s.take(i + 1).drop_last() =~= s.take(i));
    assert(s.take(i + 1).last() == s[i]);
}

proof fn lemma_texts_structure_take(s: Seq<Text>, i: int)
    requires
        0 < i < s.len(),
    ensures
        texts_structure(s.take(i + 1)) == texts_structure(s.take(i)) + ","@ + s[i].structure(),
{
    assert(s.take(i + 1).drop_last() =~= s.take(i));
    assert(s.take(i + 1).last() == s[i]);
}

/// A run: the smallest span of uniformly formatted content, holding text
/// nodes in order.
#[derive(Debug, Clone, PartialEq)]
pub struct Run {
    pub children: Vec<Text>,
}

impl Run {
    /// The markup of this run: its text nodes in order inside the run tags.
    pub open spec fn markup(&self) -> Seq<char> {
        "<w:r><w:rPr />"@ + texts_markup(self.children@) + "</w:r>"@
    }

    /// The tagged structural form of this run.
    pub open spec fn structure(&self) -> Seq<char> {
        "{\"children\":["@ + texts_structure(self.children@) + "]}"@
    }

    pub fn new() -> (r: Run)
        ensures
            r.children@ == Seq::<Text>::empty(),
    {
        let r = Run { children: Vec::new() };
        proof {
            assert(r.children@ =~= Seq::<Text>::empty());
        }
        r
    }

    /// Appends one text node; the children keep their order.
    pub fn add_text(self, text: String) -> (r: Run)
        ensures
            r.children@ == self.children@.push((Text { text })),
    {
        let mut children = self.children;
        children.push(Text::new(text));
        Run { children }
    }

    pub fn build_to(&self, out: &mut String)
        ensures
            final(out)@ == old(out)@ + self.markup(),
    {
        out.append("<w:r><w:rPr />");
        let n = self.children.len();
        let mut i: usize = 0;
        while i < n
            invariant
                i <= n,
                n == self.children@.len(),
                out@ == old(out)@ + "<w:r><w:rPr />"@ + texts_markup(self.children@.take(i as int)),
            decreases n - i,
        {
            self.children[i].build_to(out);
            proof {
                lemma_texts_markup_take(self.children@, i as int);
            }
            i += 1;
        }
        proof {
            assert(self.children@.take(n as int) =~= self.children@);
        }
        out.append("</w:r>");
        proof {
            assert(out@ =~= old(out)@ + self.markup());
        }
    }

    pub fn structure_to(&self, out: &mut String)
        ensures
            final(out)@ == old(out)@ + self.structure(),
    {
        out.append("{\"children\":[");
        let n = self.children.len();
        let mut i: usize = 0;
        while i < n
            invariant
                i <= n,
                n == self.children@.len(),
                out@ == old(out)@ + "{\"children\":["@ + texts_structure(self.children@.take(i as int)),
            decreases n - i,
        {
            if i > 0 {
                out.append(",");
            }
            self.children[i].structure_to(out);
            proof {
                if i == 0 {
                    assert(self.children@.take(1).last() == self.children@[0]);
                    assert(out@ =~= old(out)@ + "{\"children\":["@ + texts_structure(
                        self.children@.take(i as int + 1),
                    ));
                } else {
                    lemma_texts_structure_take(self.children@, i as int);
                    assert(out@ =~= old(out)@ + "{\"children\":["@ + texts_structure(
                        self.children@.take(i as int + 1),
                    ));
                }
            }
            i += 1;
        }
        proof {
            assert(self.children@.take(n as int) =~= self.children@);
        }
        out.append("]}");
        proof {
            assert(out@ =~= old(out)@ + self.structure());
        }
    }
}

/// The concatenated markup of a sequence of runs, in order.
pub open spec fn runs_markup(s: Seq<Run>) -> Seq<char>
    decreases s.len(),
{
    if s.len() == 0 {
        Seq::<char>::empty()
    } else {
        runs_markup(s.drop_last()) + s.last().markup()
    }
}

/// The comma-separated structural forms of a sequence of runs, in order.
pub open spec fn runs_structure(s: Seq<Run>) -> Seq<char>
    decreases s.len(),
{
    if s.len() == 0 {
        Seq::<char>::empty()
    } else if s.len() == 1 {
        s.last().structure()
    } else {
        runs_structure(s.drop_last()) + ","@ + s.last().structure()
    }
}

proof fn lemma_runs_markup_take(s: Seq<Run>, i: int)
    requires
        0 <= i < s.len(),
    ensures
        runs_markup(s.take(i + 1)) == runs_markup(s.take(i)) + s[i].markup(),
{
    assert(s.take(i + 1).drop_last() =~= s.take(i));
    assert(s.take(i + 1).last() == s[i]);
}

proof fn lemma_runs_structure_take(s: Seq<Run>, i: int)
    requires
        0 < i < s.len(),
    ensures
        runs_structure(s.take(i + 1)) == runs_structure(s.take(i)) + ","@ + s[i].structure(),
{
    assert(s.take(i + 1).drop_last() =~= s.take(i));
    assert(s.take(i + 1).last() == s[i]);
}

/// The identifier every freshly constructed paragraph carries; callers may
/// overwrite the field with an identifier of their own.
pub open spec fn default_paragraph_id() -> Seq<char> {
    "12345678"@
}

/// A paragraph: runs in order, a paragraph identifier, and a flag that says
/// whether the paragraph needs numbering definitions.
#[derive(Debug, Clone, PartialEq)]
pub struct Paragraph {
    pub id: String,
    pub children: Vec<Run>,
    pub has_numbering: bool,
}

impl Paragraph {
    /// The markup of this paragraph: identifier attribute, fixed property
    /// block, then its runs in order.
    pub open spec fn markup(&self) -> Seq<char> {
        "<w:p w14:paraId=\""@ + self.id@ + "\"><w:pPr><w:rPr /></w:pPr>"@ + runs_markup(
            self.children@,
        ) + "</w:p>"@
    }

    /// The tagged structural form of this paragraph.
    pub open spec fn structure(&self) -> Seq<char> {
        "{\"id\":\""@ + self.id@ + "\",\"children\":["@ + runs_structure(self.children@)
            + "],\"hasNumbering\":"@ + bool_chars(self.has_numbering) + "}"@
    }

    pub fn new() -> (r: Paragraph)
        ensures
            r.id@ == default_paragraph_id(),
            r.children@ == Seq::<Run>::empty(),
            r.has_numbering == false,
    {
        let r = Paragraph { id: String::from_str("12345678"), children: Vec::new(), has_numbering: false };
        proof {
            assert(r.children@ =~= Seq::<Run>::empty());
        }
        r
    }

    /// Appends one run; the children keep their order.
    pub fn add_run(self, run: Run) -> (r: Paragraph)
        ensures
            r.children@ == self.children@.push(run),
            r.id == self.id,
            r.has_numbering == self.has_numbering,
    {
        let mut children = self.children;
        children.push(run);
        Paragraph { id: self.id, children, has_numbering: self.has_numbering }
    }

    pub fn build_to(&self, out: &mut String)
        ensures
            final(out)@ == old(out)@ + self.markup(),
    {
        out.append("<w:p w14:paraId=\"");
        out.append(self.id.as_str());
        out.append("\"><w:pPr><w:rPr /></w:pPr>");
        let ghost opened = old(out)@ + "<w:p w14:paraId=\""@ + self.id@
            + "\"><w:pPr><w:rPr /></w:pPr>"@;
        proof {
            assert(out@ =~= opened);
        }
        let n = self.children.len();
        let mut i: usize = 0;
        while i < n
            invariant
                i <= n,
                n == self.children@.len(),
                out@ == opened + runs_markup(self.children@.take(i as int)),
            decreases n - i,
        {
            self.children[i].build_to(out);
            proof {
                lemma_runs_markup_take(self.children@, i as int);
            }
            i += 1;
        }
        proof {
            assert(self.children@.take(n as int) =~= self.children@);
        }
        out.append("</w:p>");
        proof {
            assert(out@ =~= old(out)@ + self.markup());
        }
    }

    pub fn structure_to(&self, out: &mut String)
        ensures
            final(out)@ == old(out)@ + self.structure(),
    {
        out.append("{\"id\":\"");
        out.append(self.id.as_str());
        out.append("\",\"children\":[");
        let ghost opened = old(out)@ + "{\"id\":\""@ + self.id@ + "\",\"children\":["@;
        proof {
            assert(out@ =~= opened);
        }
        let n = self.children.len();
        let mut i: usize = 0;
        while i < n
            invariant
                i <= n,
                n == self.children@.len(),
                out@ == opened + runs_structure(self.children@.take(i as int)),
            decreases n - i,
        {
            if i > 0 {
                out.append(",");
            }
            self.children[i].structure_to(out);
            proof {
                if i == 0 {
                    assert(self.children@.take(1).last() == self.children@[0]);
                    assert(out@ =~= opened + runs_structure(self.children@.take(i as int + 1)));
                } else {
                    lemma_runs_structure_take(self.children@, i as int);
                    assert(out@ =~= opened + runs_structure(self.children@.take(i as int + 1)));
                }
            }
            i += 1;
        }
        proof {
            assert(self.children@.take(n as int) =~= self.children@);
        }
        out.append("],\"hasNumbering\":");
        push_bool(out, self.has_numbering);
        out.append("}");
        proof {
            assert(out@ =~= old(out)@ + self.structure());
        }
    }
}

/// A table, consumed here only through its markup emission and its numbering
/// flag; its row and cell structure is outside this layer.
#[derive(Debug, Clone, PartialEq)]
pub struct Table {
    pub has_numbering: bool,
}

impl Table {
    /// The markup of this table: the fixed property and grid blocks.
    pub open spec fn markup(&self) -> Seq<char> {
        "<w:tbl><w:tblPr /><w:tblGrid /></w:tbl>"@
    }

    /// The tagged structural form of this table.
    pub open spec fn structure(&self) -> Seq<char> {
        "{\"hasNumbering\":"@ + bool_chars(self.has_numbering) + "}"@
    }

    pub fn new() -> (r: Table)
        ensures
            r.has_numbering == false,
    {
        Table { has_numbering: false }
    }

    pub fn build_to(&self, out: &mut String)
        ensures
            final(out)@ == old(out)@ + self.markup(),
    {
        out.append("<w:tbl><w:tblPr /><w:tblGrid /></w:tbl>");
    }

    pub fn structure_to(&self, out: &mut String)
        ensures
            final(out)@ == old(out)@ + self.structure(),
    {
        out.append("{\"hasNumbering\":");
        push_bool(out, self.has_numbering);
        out.append("}");
        proof {
            assert(out@ =~= old(out)@ + self.structure());
        }
    }
}

/// The start marker of a bookmark range: a numeric id and a name, neither
/// validated for uniqueness or pairing at this layer.
#[derive(Debug, Clone, PartialEq)]
pub struct BookmarkStart {
    pub id: usize,
    pub name: String,
}

impl BookmarkStart {
    /// The markup of this marker; the name is emitted verbatim.
    pub open spec fn markup(&self) -> Seq<char> {
        "<w:bookmarkStart w:id=\""@ + dec_of(self.id as nat) + "\" w:name=\""@ + self.name@
            + "\" />"@
    }

    /// The tagged structural form of this marker.
    pub open spec fn structure(&self) -> Seq<char> {
        "{\"id\":"@ + dec_of(self.id as nat) + ",\"name\":\""@ + self.name@ + "\"}"@
    }

    pub fn new(id: usize, name: String) -> (r: BookmarkStart)
        ensures
            r == (BookmarkStart { id, name }),
    {
        BookmarkStart { id, name }
    }

    pub fn build_to(&self, out: &mut String)
        ensures
            final(out)@ == old(out)@ + self.markup(),
    {
        out.append("<w:bookmarkStart w:id=\"");
        push_dec_usize(out, self.id);
        out.append("\" w:name=\"");
        out.append(self.name.as_str());
        out.append("\" />");
        proof {
            assert(out@ =~= old(out)@ + self.markup());
        }
    }

    pub fn structure_to(&self, out: &mut String)
        ensures
            final(out)@ == old(out)@ + self.structure(),
    {
        out.append("{\"id\":");
        push_dec_usize(out, self.id);
        out.append(",\"name\":\"");
        out.append(self.name.as_str());
        out.append("\"}");
        proof {
            assert(out@ =~= old(out)@ + self.structure());
        }
    }
}

/// The end marker of a bookmark range.
#[derive(Debug, Clone, PartialEq)]
pub struct BookmarkEnd {
    pub id: usize,
}

impl BookmarkEnd {
    /// The markup of this marker.
    pub open spec fn markup(&self) -> Seq<char> {
        "<w:bookmarkEnd w:id=\""@ + dec_of(self.id as nat) + "\" />"@
    }

    /// The tagged structural form of this marker.
    pub open spec fn structure(&self) -> Seq<char> {
        "{\"id\":"@ + dec_of(self.id as nat) + "}"@
    }

    pub fn new(id: usize) -> (r: BookmarkEnd)
        ensures
            r == (BookmarkEnd { id }),
    {
        BookmarkEnd { id }
    }

    pub fn build_to(&self, out: &mut String)
        ensures
            final(out)@ == old(out)@ + self.markup(),
    {
        out.append("<w:bookmarkEnd w:id=\"");
        push_dec_usize(out, self.id);
        out.append("\" />");
        proof {
            assert(out@ =~= old(out)@ + self.markup());
        }
    }

    pub fn structure_to(&self, out: &mut String)
        ensures
            final(out)@ == old(out)@ + self.structure(),
    {
        out.append("{\"id\":");
        push_dec_usize(out, self.id);
        out.append("}");
        proof {
            assert(out@ =~= old(out)@ + self.structure());
        }
    }
}

/// A comment value, consumed here only through its numeric id; its body is
/// outside this layer.
#[derive(Debug, Clone, PartialEq)]
pub struct Comment {
    pub id: usize,
}

impl Comment {
    /// The tagged structural form of this comment.
    pub open spec fn structure(&self) -> Seq<char> {
        "{\"id\":"@ + dec_of(self.id as nat) + "}"@
    }

    pub fn new(id: usize) -> (r: Comment)
        ensures
            r == (Comment { id }),
    {
        Comment { id }
    }

    pub fn structure_to(&self, out: &mut String)
        ensures
            final(out)@ == old(out)@ + self.structure(),
    {
        out.append("{\"id\":");
        push_dec_usize(out, self.id);
        out.append("}");
        proof {
            assert(out@ =~= old(out)@ + self.structure());
        }
    }
}

/// The start marker of a comment range, wrapping the comment it opens.
#[derive(Debug, Clone, PartialEq)]
pub struct CommentRangeStart {
    pub comment: Comment,
}

impl CommentRangeStart {
    /// The markup of this marker.
    pub open spec fn markup(&self) -> Seq<char> {
        "<w:commentRangeStart w:id=\""@ + dec_of(self.comment.id as nat) + "\" />"@
    }

    /// The tagged structural form of this marker.
    pub open spec fn structure(&self) -> Seq<char> {
        "{\"comment\":"@ + self.comment.structure() + "}"@
    }

    pub fn new(comment: Comment) -> (r: CommentRangeStart)
        ensures
            r == (CommentRangeStart { comment }),
    {
        CommentRangeStart { comment }
    }

    pub fn build_to(&self, out: &mut String)
        ensures
            final(out)@ == old(out)@ + self.markup(),
    {
        out.append("<w:commentRangeStart w:id=\"");
        push_dec_usize(out, self.comment.id);
        out.append("\" />");
        proof {
            assert(out@ =~= old(out)@ + self.markup());
        }
    }

    pub fn structure_to(&self, out: &mut String)
        ensures
            final(out)@ == old(out)@ + self.structure(),
    {
        out.append("{\"comment\":");
        self.comment.structure_to(out);
        out.append("}");
        proof {
            assert(out@ =~= old(out)@ + self.structure());
        }
    }
}

/// The end marker of a comment range: the numeric id of the comment it closes.
#[derive(Debug, Clone, PartialEq)]
pub struct CommentRangeEnd {
    pub id: usize,
}

impl CommentRangeEnd {
    /// The markup of this marker.
    pub open spec fn markup(&self) -> Seq<char> {
        "<w:commentRangeEnd w:id=\""@ + dec_of(self.id as nat) + "\" />"@
    }

    /// The tagged structural form of this marker.
    pub open spec fn structure(&self) -> Seq<char> {
        "{\"id\":"@ + dec_of(self.id as nat) + "}"@
    }

    pub fn new(id: usize) -> (r: CommentRangeEnd)
        ensures
            r == (CommentRangeEnd { id }),
    {
        CommentRangeEnd { id }
    }

    pub fn build_to(&self, out: &mut String)
        ensures
            final(out)@ == old(out)@ + self.markup(),
    {
        out.append("<w:commentRangeEnd w:id=\"");
        push_dec_usize(out, self.id);
        out.append("\" />");
        proof {
            assert(out@ =~= old(out)@ + self.markup());
        }
    }

    pub fn structure_to(&self, out: &mut String)
        ensures
            final(out)@ == old(out)@ + self.structure(),
    {
        out.append("{\"id\":");
        push_dec_usize(out, self.id);
        out.append("}");
        proof {
            assert(out@ =~= old(out)@ + self.structure());
        }
    }
}

} // verus!
