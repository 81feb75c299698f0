//! The section configuration: page geometry, margins and the document grid,
//! rendered after the document's children inside the body.

use vstd::prelude::*;
use vstd::string::StringExecFns;

use crate::elements::push_dec_usize;
use crate::numeric::{dec_of, dec_of_int, push_dec_i32};

verus! {

/// The page dimensions of a section, in twentieths of a point.
#[derive(Debug, Clone, PartialEq)]
pub struct PageSize {
    pub w: usize,
    pub h: usize,
}

impl PageSize {
    /// The markup of the page size element.
    pub open spec fn markup(&self) -> Seq<char> {
        "<w:pgSz w:w=\""@ + dec_of(self.w as nat) + "\" w:h=\""@ + dec_of(self.h as nat) + "\" />"@
    }

    /// The tagged structural form of the page size.
    pub open spec fn structure(&self) -> Seq<char> {
        "{\"w\":"@ + dec_of(self.w as nat) + ",\"h\":"@ + dec_of(self.h as nat) + "}"@
    }

    /// An A4 portrait page.
    pub fn new() -> (r: PageSize)
        ensures
            r == (PageSize { w: 11906usize, h: 16838usize }),
    {
        PageSize { w: 11906, h: 16838 }
    }

    pub fn build_to(&self, out: &mut String)
        ensures
            final(out)@ == old(out)@ + self.markup(),
    {
        out.append("<w:pgSz w:w=\"");
        push_dec_usize(out, self.w);
        out.append("\" w:h=\"");
        push_dec_usize(out, self.h);
        out.append("\" />");
        proof {
            assert(out@ =~= old(out)@ + self.markup());
        }
    }

    pub fn structure_to(&self, out: &mut String)
        ensures
            final(out)@ == old(out)@ + self.structure(),
    {
        out.append("{\"w\":");
        push_dec_usize(out, self.w);
        out.append(",\"h\":");
        push_dec_usize(out, self.h);
        out.append("}");
        proof {
            assert(out@ =~= old(out)@ + self.structure());
        }
    }
}

/// The page margins of a section, in twentieths of a point; negative values
/// are admitted, as the wire format admits them.
#[derive(Debug, Clone, PartialEq)]
pub struct PageMargin {
    pub top: i32,
    pub right: i32,
    pub bottom: i32,
    pub left: i32,
    pub header: i32,
    pub footer: i32,
    pub gutter: i32,
}

impl PageMargin {
    /// The markup of the page margin element.
    pub open spec fn markup(&self) -> Seq<char> {
        "<w:pgMar w:top=\""@ + dec_of_int(self.top as int) + "\" w:right=\""@ + dec_of_int(
            self.right as int,
        ) + "\" w:bottom=\""@ + dec_of_int(self.bottom as int) + "\" w:left=\""@ + dec_of_int(
            self.left as int,
        ) + "\" w:header=\""@ + dec_of_int(self.header as int) + "\" w:footer=\""@ + dec_of_int(
            self.footer as int,
        ) + "\" w:gutter=\""@ + dec_of_int(self.gutter as int) + "\" />"@
    }

    /// The tagged structural form of the page margins.
    pub open spec fn structure(&self) -> Seq<char> {
        "{\"top\":"@ + dec_of_int(self.top as int) + ",\"right\":"@ + dec_of_int(self.right as int)
            + ",\"bottom\":"@ + dec_of_int(self.bottom as int) + ",\"left\":"@ + dec_of_int(
            self.left as int,
        ) + ",\"header\":"@ + dec_of_int(self.header as int) + ",\"footer\":"@ + dec_of_int(
            self.footer as int,
        ) + ",\"gutter\":"@ + dec_of_int(self.gutter as int) + "}"@
    }

    /// The default margins of a fresh section.
    pub fn new() -> (r: PageMargin)
        ensures
            r == (PageMargin {
                top: 1985i32,
                right: 1701i32,
                bottom: 1701i32,
                left: 1701i32,
                header: 851i32,
                footer: 992i32,
                gutter: 0i32,
            }),
    {
        PageMargin { top: 1985, right: 1701, bottom: 1701, left: 1701, header: 851, footer: 992, gutter: 0 }
    }

    pub fn build_to(&self, out: &mut String)
        ensures
            final(out)@ == old(out)@ + self.markup(),
    {
        out.append("<w:pgMar w:top=\"");
        push_dec_i32(out, self.top);
        out.append("\" w:right=\"");
        push_dec_i32(out, self.right);
        out.append("\" w:bottom=\"");
        push_dec_i32(out, self.bottom);
        out.append("\" w:left=\"");
        push_dec_i32(out, self.left);
        out.append("\" w:header=\"");
        push_dec_i32(out, self.header);
        out.append("\" w:footer=\"");
        push_dec_i32(out, self.footer);
        out.append("\" w:gutter=\"");
        push_dec_i32(out, self.gutter);
        out.append("\" />");
        proof {
            assert(out@ =~= old(out)@ + self.markup());
        }
    }

    pub fn structure_to(&self, out: &mut String)
        ensures
            final(out)@ == old(out)@ + self.structure(),
    {
        out.append("{\"top\":");
        push_dec_i32(out, self.top);
        out.append(",\"right\":");
        push_dec_i32(out, self.right);
        out.append(",\"bottom\":");
        push_dec_i32(out, self.bottom);
        out.append(",\"left\":");
        push_dec_i32(out, self.left);
        out.append(",\"header\":");
        push_dec_i32(out, self.header);
        out.append(",\"footer\":");
        push_dec_i32(out, self.footer);
        out.append(",\"gutter\":");
        push_dec_i32(out, self.gutter);
        out.append("}");
        proof {
            assert(out@ =~= old(out)@ + self.structure());
        }
    }
}

/// The kind of character grid a section lays its lines on.
#[derive(Debug, Clone, Copy, PartialEq, Eq)]
pub enum DocGridType {
    Default,
    Lines,
    LinesAndChars,
    SnapToChars,
}

/// The wire name of a grid kind.
pub open spec fn grid_type_chars(t: DocGridType) -> Seq<char> {
    match t {
        DocGridType::Default => "default"@,
        DocGridType::Lines => "lines"@,
        DocGridType::LinesAndChars => "linesAndChars"@,
        DocGridType::SnapToChars => "snapToChars"@,
    }
}

/// Appends the wire name of a grid kind to `out`.
pub fn push_grid_type(out: &mut String, t: DocGridType)
    ensures
        final(out)@ == old(out)@ + grid_type_chars(t),
{
    match t {
        DocGridType::Default => out.append("default"),
        DocGridType::Lines => out.append("lines"),
        DocGridType::LinesAndChars => out.append("linesAndChars"),
        DocGridType::SnapToChars => out.append("snapToChars"),
    }
}

/// The document grid of a section: a grid kind with an optional line pitch
/// and an optional character space.
#[derive(Debug, Clone, PartialEq)]
pub struct DocGrid {
    pub grid_type: DocGridType,
    pub line_pitch: Option<usize>,
    pub char_space: Option<i32>,
}

impl DocGrid {
    /// The markup of the grid element: only the attributes that are present
    /// are emitted.
    pub open spec fn markup(&self) -> Seq<char> {
        "<w:docGrid w:type=\""@ + grid_type_chars(self.grid_type) + "\""@ + (match self.line_pitch {
            Some(p) => " w:linePitch=\""@ + dec_of(p as nat) + "\""@,
            None => Seq::<char>::empty(),
        }) + (match self.char_space {
            Some(c) => " w:charSpace=\""@ + dec_of_int(c as int) + "\""@,
            None => Seq::<char>::empty(),
        }) + " />"@
    }

    /// The tagged structural form of the grid; an absent attribute appears as
    /// `null`.
    pub open spec fn structure(&self) -> Seq<char> {
        "{\"gridType\":\""@ + grid_type_chars(self.grid_type) + "\",\"linePitch\":"@
            + (match self.line_pitch {
            Some(p) => dec_of(p as nat),
            None => "null"@,
        }) + ",\"charSpace\":"@ + (match self.char_space {
            Some(c) => dec_of_int(c as int),
            None => "null"@,
        }) + "}"@
    }

    /// The default grid of a fresh section: lines, pitch 360.
    pub fn new() -> (r: DocGrid)
        ensures
            r == (DocGrid {
                grid_type: DocGridType::Lines,
                line_pitch: Some(360usize),
                char_space: None::<i32>,
            }),
    {
        DocGrid { grid_type: DocGridType::Lines, line_pitch: Some(360), char_space: None }
    }

    pub fn build_to(&self, out: &mut String)
        ensures
            final(out)@ == old(out)@ + self.markup(),
    {
        out.append("<w:docGrid w:type=\"");
        push_grid_type(out, self.grid_type);
        out.append("\"");
        match self.line_pitch {
            Some(p) => {
                out.append(" w:linePitch=\"");
                push_dec_usize(out, p);
                out.append("\"");
            },
            None => {},
        }
        match self.char_space {
            Some(c) => {
                out.append(" w:charSpace=\"");
                push_dec_i32(out, c);
                out.append("\"");
            },
            None => {},
        }
        out.append(" />");
        proof {
            assert(out@ =~= old(out)@ + self.markup());
        }
    }

    pub fn structure_to(&self, out: &mut String)
        ensures
            final(out)@ == old(out)@ + self.structure(),
    {
        out.append("{\"gridType\":\"");
        push_grid_type(out, self.grid_type);
        out.append("\",\"linePitch\":");
        match self.line_pitch {
            Some(p) => push_dec_usize(out, p),
            None => out.append("null"),
        }
        out.append(",\"charSpace\":");
        match self.char_space {
            Some(c) => push_dec_i32(out, c),
            None => out.append("null"),
        }
        out.append("}");
        proof {
            assert(out@ =~= old(out)@ + self.structure());
        }
    }
}

/// The section configuration of a document: page size, margins and grid,
/// together with the fixed header reference and column setup of the format.
#[derive(Debug, Clone, PartialEq)]
pub struct SectionProperty {
    pub page_size: PageSize,
    pub page_margin: PageMargin,
    pub doc_grid: DocGrid,
}

impl SectionProperty {
    /// The section configuration every fresh document carries: default page
    /// size, margins and grid.
    pub open spec fn default_value() -> SectionProperty {
        SectionProperty {
            page_size: PageSize { w: 11906, h: 16838 },
            page_margin: PageMargin {
                top: 1985,
                right: 1701,
                bottom: 1701,
                left: 1701,
                header: 851,
                footer: 992,
                gutter: 0,
            },
            doc_grid: DocGrid {
                grid_type: DocGridType::Lines,
                line_pitch: Some(360),
                char_space: None,
            },
        }
    }

    /// This configuration with the page size replaced.
    pub open spec fn spec_with_page_size(&self, size: PageSize) -> SectionProperty {
        SectionProperty {
            page_size: size,
            page_margin: self.page_margin,
            doc_grid: self.doc_grid,
        }
    }

    /// This configuration with the page margins replaced.
    pub open spec fn spec_with_page_margin(&self, margin: PageMargin) -> SectionProperty {
        SectionProperty {
            page_size: self.page_size,
            page_margin: margin,
            doc_grid: self.doc_grid,
        }
    }

    /// This configuration with the document grid replaced.
    pub open spec fn spec_with_doc_grid(&self, doc_grid: DocGrid) -> SectionProperty {
        SectionProperty {
            page_size: self.page_size,
            page_margin: self.page_margin,
            doc_grid: doc_grid,
        }
    }

    /// The markup of the whole section configuration: page size, margins,
    /// the fixed header reference and column elements, then the grid, inside
    /// the section tags.
    pub open spec fn markup(&self) -> Seq<char> {
        "<w:sectPr>"@ + self.page_size.markup() + self.page_margin.markup()
            + "<w:headerReference w:type=\"default\" r:id=\"rId4\" /><w:cols w:space=\"425\" />"@
            + self.doc_grid.markup() + "</w:sectPr>"@
    }

    /// The tagged structural form of the section configuration.
    pub open spec fn structure(&self) -> Seq<char> {
        "{\"pageSize\":"@ + self.page_size.structure() + ",\"pageMargin\":"@
            + self.page_margin.structure() + ",\"docGrid\":"@ + self.doc_grid.structure() + "}"@
    }

    /// A fresh section configuration with the default page size, margins and
    /// grid.
    pub fn new() -> (r: SectionProperty)
        ensures
            r == SectionProperty::default_value(),
    {
        SectionProperty { page_size: PageSize::new(), page_margin: PageMargin::new(), doc_grid: DocGrid::new() }
    }

    /// Replaces the page size; everything else is kept.
    pub fn page_size(self, size: PageSize) -> (r: SectionProperty)
        ensures
            r == (SectionProperty {
                page_size: size,
                page_margin: self.page_margin,
                doc_grid: self.doc_grid,
            }),
    {
        SectionProperty { page_size: size, page_margin: self.page_margin, doc_grid: self.doc_grid }
    }

    /// Replaces the page margins; everything else is kept.
    pub fn page_margin(self, margin: PageMargin) -> (r: SectionProperty)
        ensures
            r == (SectionProperty {
                page_size: self.page_size,
                page_margin: margin,
                doc_grid: self.doc_grid,
            }),
    {
        SectionProperty { page_size: self.page_size, page_margin: margin, doc_grid: self.doc_grid }
    }

    /// Replaces the document grid; everything else is kept.
    pub fn doc_grid(self, doc_grid: DocGrid) -> (r: SectionProperty)
        ensures
            r == (SectionProperty {
                page_size: self.page_size,
                page_margin: self.page_margin,
                doc_grid: doc_grid,
            }),
    {
        SectionProperty { page_size: self.page_size, page_margin: self.page_margin, doc_grid }
    }

    pub fn build_to(&self, out: &mut String)
        ensures
            final(out)@ == old(out)@ + self.markup(),
    {
        out.append("<w:sectPr>");
        self.page_size.build_to(out);
        self.page_margin.build_to(out);
        out.append("<w:headerReference w:type=\"default\" r:id=\"rId4\" /><w:cols w:space=\"425\" />");
        self.doc_grid.build_to(out);
        out.append("</w:sectPr>");
        proof {
            assert(out@ =~= old(out)@ + self.markup());
        }
    }

    pub fn structure_to(&self, out: &mut String)
        ensures
            final(out)@ == old(out)@ + self.structure(),
    {
        out.append("{\"pageSize\":");
        self.page_size.structure_to(out);
        out.append(",\"pageMargin\":");
        self.page_margin.structure_to(out);
        out.append(",\"docGrid\":");
        self.doc_grid.structure_to(out);
        out.append("}");
        proof {
            assert(out@ =~= old(out)@ + self.structure());
        }
    }
}

} // verus!
