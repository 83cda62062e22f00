//! The text contract: font lookup and the layout builder.
//!
//! A [`PietTextLayoutBuilder`] collects the parameters of one shaping
//! request: the text, one font, one size, one colour, an alignment and
//! a width constraint (multi-section rich text is out of scope). The
//! host submits the request to the external shaping oracle and hands
//! the outcome to [`PietTextLayoutBuilder::build`], which runs the
//! verified layout reconstruction of [`crate::layout`].

use crate::geom::Color;
use crate::layout::{
    spec_build, wf, PietTextLayout, SectionMetrics, ShapingOutcome,
};
use crate::Error;
use vstd::prelude::*;

verus! {

/// A font family, by name. Whether the asset behind the name is loaded
/// is the host's business; an unready font surfaces as a
/// `FontNotReady` build failure.
#[derive(Clone, Debug)]
pub struct FontFamily {
    pub name: Vec<u8>,
}

/// Horizontal text alignment. Justified text is not built.
#[derive(Clone, Copy, Debug, PartialEq, Eq, Structural)]
pub enum TextAlignment {
    Start,
    End,
    Center,
    Justified,
}

/// A default attribute of a layout under construction. These three are
/// the attributes this backend honours; others of the drawing contract
/// (weight, style, underline, ...) have no effect here and are dropped
/// by the host adapter.
#[derive(Clone, Debug)]
pub enum TextAttribute {
    TextColor(Color),
    FontFamily(FontFamily),
    FontSize(i64),
}

/// The text factory: resolves font names and opens layout builders.
/// `scale_factor` is the device scale the host reports, in device
/// pixels per logical unit.
#[derive(Clone, Copy, Debug)]
pub struct PietText {
    pub scale_factor: i64,
}

impl PietText {
    pub fn new(scale_factor: i64) -> (r: PietText)
        ensures
            r.scale_factor == scale_factor,
    {
        PietText { scale_factor }
    }

    pub fn scale_factor(&self) -> (r: i64)
        ensures
            r == self.scale_factor,
    {
        self.scale_factor
    }

    /// Wrap a family name without checking it; resolution happens at
    /// build time.
    pub fn font_family(&self, family_name: Vec<u8>) -> (r: Option<FontFamily>)
        ensures
            r matches Some(f) && f.name@ == family_name@,
    {
        Some(FontFamily { name: family_name })
    }

    /// Loading raw font data is not built; fonts come from the host's
    /// asset registry by name.
    pub fn load_font(&self, data: &Vec<u8>) -> (r: Result<FontFamily, Error>)
        ensures
            r == Err::<FontFamily, Error>(Error::NotImplemented),
    {
        let _ = data;
        Err(Error::NotImplemented)
    }

    /// A builder over `text` with the default parameters: unbounded
    /// width, start alignment, black text, no font, size 12.
    pub fn new_text_layout(&self, text: Vec<u8>) -> (r: PietTextLayoutBuilder)
        ensures
            r.text@ == text@,
            r.max_width == i64::MAX,
            r.alignment == TextAlignment::Start,
            r.color == (Color { r: 0, g: 0, b: 0, a: 0xFF }),
            r.font is None,
            r.size == 12,
            r.scale_factor == self.scale_factor,
    {
        PietTextLayoutBuilder {
            text,
            max_width: i64::MAX,
            alignment: TextAlignment::Start,
            color: Color { r: 0, g: 0, b: 0, a: 0xFF },
            font: None,
            size: 12,
            scale_factor: self.scale_factor,
        }
    }
}

/// The parameters of one single-section shaping request. The host
/// reads the public fields to drive the shaping oracle, then hands the
/// outcome to [`PietTextLayoutBuilder::build`].
#[derive(Clone, Debug)]
pub struct PietTextLayoutBuilder {
    pub text: Vec<u8>,
    pub max_width: i64,
    pub alignment: TextAlignment,
    pub color: Color,
    pub font: Option<FontFamily>,
    pub size: i64,
    pub scale_factor: i64,
}

impl PietTextLayoutBuilder {
    /// Constrain the layout width.
    pub fn max_width(self, width: i64) -> (r: PietTextLayoutBuilder)
        ensures
            r == (PietTextLayoutBuilder { max_width: width, ..self }),
    {
        PietTextLayoutBuilder { max_width: width, ..self }
    }

    /// Set the alignment.
    pub fn alignment(self, alignment: TextAlignment) -> (r: PietTextLayoutBuilder)
        ensures
            r == (PietTextLayoutBuilder { alignment, ..self }),
    {
        PietTextLayoutBuilder { alignment, ..self }
    }

    /// Set a default attribute: colour, font or size.
    pub fn default_attribute(self, attribute: TextAttribute) -> (r: PietTextLayoutBuilder)
        ensures
            match attribute {
                TextAttribute::TextColor(c) => r == (PietTextLayoutBuilder { color: c, ..self }),
                TextAttribute::FontFamily(f) => r == (PietTextLayoutBuilder {
                    font: Some(f),
                    ..self
                }),
                TextAttribute::FontSize(s) => r == (PietTextLayoutBuilder { size: s, ..self }),
            },
    {
        match attribute {
            TextAttribute::TextColor(c) => PietTextLayoutBuilder { color: c, ..self },
            TextAttribute::FontFamily(f) => PietTextLayoutBuilder { font: Some(f), ..self },
            TextAttribute::FontSize(s) => PietTextLayoutBuilder { size: s, ..self },
        }
    }

    /// Styling a sub-range (rich text) is not built.
    pub fn range_attribute(
        self,
        range_start: usize,
        range_end: usize,
        attribute: TextAttribute,
    ) -> (r: Result<PietTextLayoutBuilder, Error>)
        ensures
            r is Err && r->Err_0 == Error::NotImplemented,
    {
        let _ = (range_start, range_end, attribute);
        Err(Error::NotImplemented)
    }

    /// Build the layout from the oracle's outcome for this request.
    ///
    /// `entity` is the pre-allocated host node of the layout;
    /// `sections` are the scaled font metrics of the request's
    /// sections (one entry for this backend's single section). A
    /// builder without a font fails with `InvalidArgument` before
    /// anything else; otherwise the result is exactly
    /// [`spec_build`] over the request's text and scale factor, and a
    /// successful layout is well formed.
    pub fn build(
        self,
        entity: u64,
        outcome: ShapingOutcome,
        sections: Vec<SectionMetrics>,
    ) -> (r: Result<PietTextLayout, Error>)
        ensures
            self.font is None ==> r == Err::<PietTextLayout, Error>(Error::InvalidArgument),
            self.font is Some ==> {
                &&& (r is Ok <==> spec_build(
                    self.text@,
                    entity,
                    outcome,
                    sections@,
                    self.scale_factor as int,
                ) is Ok)
                &&& r is Ok ==> r->Ok_0@ == spec_build(
                    self.text@,
                    entity,
                    outcome,
                    sections@,
                    self.scale_factor as int,
                )->Ok_0 && wf(r->Ok_0@)
                &&& r is Err ==> r->Err_0 == spec_build(
                    self.text@,
                    entity,
                    outcome,
                    sections@,
                    self.scale_factor as int,
                )->Err_0
            },
    {
        if self.font.is_none() {
            return Err(Error::InvalidArgument);
        }
        crate::layout::build_layout(self.text, entity, outcome, sections, self.scale_factor)
    }
}

} // verus!
