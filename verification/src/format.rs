//! Layout parameters of a painted grid.

use vstd::prelude::*;

verus! {

/// How cells are separated on screen.
#[derive(Clone, Copy, Debug, PartialEq, Eq, Structural)]
pub enum BorderStyle {
    Borderless,
    Simple,
}

/// The physical size of one logical cell, in character columns and rows.
#[derive(Clone, Copy, Debug, PartialEq, Eq, Structural)]
pub struct Format {
    cell_width: usize,
    cell_height: usize,
    border_style: BorderStyle,
}

impl Format {
    #[verifier::type_invariant]
    spec fn positive(self) -> bool {
        self.cell_width >= 1 && self.cell_height >= 1
    }

    /// Both dimensions of a cell are at least one character, as they are in
    /// every format that this library hands out.
    pub closed spec fn wf(self) -> bool {
        self.cell_width >= 1 && self.cell_height >= 1
    }

    pub closed spec fn spec_cell_width(self) -> usize {
        self.cell_width
    }

    pub closed spec fn spec_cell_height(self) -> usize {
        self.cell_height
    }

    pub closed spec fn spec_border_style(self) -> BorderStyle {
        self.border_style
    }

    /// A format without borders, or nothing when a dimension is zero.
    pub fn new(cell_width: usize, cell_height: usize) -> (format: Option<Format>)
        ensures
            format.is_some() <==> cell_width >= 1 && cell_height >= 1,
            format.is_some() ==> {
                &&& format.unwrap().wf()
                &&& format.unwrap().cell_width() == cell_width
                &&& format.unwrap().cell_height() == cell_height
                &&& format.unwrap().border_style() == BorderStyle::Borderless
            },
    {
        if cell_width >= 1 && cell_height >= 1 {
            Some(Format { cell_width, cell_height, border_style: BorderStyle::Borderless })
        } else {
            None
        }
    }

    /// The same sizes under another border style.
    pub fn with_border(self, border_style: BorderStyle) -> (format: Format)
        ensures
            format.wf(),
            format.cell_width() == self.cell_width(),
            format.cell_height() == self.cell_height(),
            format.border_style() == border_style,
    {
        proof {
            use_type_invariant(self);
        }
        Format { cell_width: self.cell_width, cell_height: self.cell_height, border_style }
    }

    #[verifier::when_used_as_spec(spec_cell_width)]
    pub fn cell_width(self) -> (w: usize)
        ensures
            w == self.spec_cell_width(),
            w >= 1,
            self.wf(),
    {
        proof {
            use_type_invariant(self);
        }
        self.cell_width
    }

    #[verifier::when_used_as_spec(spec_cell_height)]
    pub fn cell_height(self) -> (h: usize)
        ensures
            h == self.spec_cell_height(),
            h >= 1,
            self.wf(),
    {
        proof {
            use_type_invariant(self);
        }
        self.cell_height
    }

    #[verifier::when_used_as_spec(spec_border_style)]
    pub fn border_style(self) -> (b: BorderStyle)
        ensures
            b == self.spec_border_style(),
    {
        self.border_style
    }

    /// A well-formed format has positive cell dimensions.
    pub proof fn lemma_wf(self)
        ensures
            self.wf() <==> self.cell_width() >= 1 && self.cell_height() >= 1,
    {
    }
}

} // verus!
