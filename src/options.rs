use vstd::prelude::*;
use crate::layout::PageLayout;

verus! {

/// A number of the print protocol, held as the bit pattern of an IEEE-754
/// double so that it passes through the library unchanged.
#[derive(Clone, Copy, Debug, PartialEq, Eq)]
pub struct PdfNumber {
    pub bits: u64,
}

/// The bit pattern of 1.0.
pub const ONE_BITS: u64 = 0x3FF0_0000_0000_0000;

/// The bit pattern of 8.5.
pub const EIGHT_AND_A_HALF_BITS: u64 = 0x4021_0000_0000_0000;

/// The bit pattern of 11.0.
pub const ELEVEN_BITS: u64 = 0x4026_0000_0000_0000;

/// The bit pattern of 16.0.
pub const SIXTEEN_BITS: u64 = 0x4030_0000_0000_0000;

/// The bit pattern of 9.0.
pub const NINE_BITS: u64 = 0x4022_0000_0000_0000;

/// The parameters handed to the browser's print-to-PDF command. A field that
/// is `None` is left to the browser's default. Paper sizes are in inches.
#[derive(Clone, Debug, PartialEq)]
pub struct PrintOptions {
    pub landscape: Option<bool>,
    pub display_header_footer: Option<bool>,
    pub print_background: Option<bool>,
    pub scale: Option<PdfNumber>,
    pub paper_width: Option<PdfNumber>,
    pub paper_height: Option<PdfNumber>,
    pub margin_top: Option<PdfNumber>,
    pub margin_bottom: Option<PdfNumber>,
    pub margin_left: Option<PdfNumber>,
    pub margin_right: Option<PdfNumber>,
    pub page_ranges: Option<String>,
    pub ignore_invalid_page_ranges: Option<bool>,
    pub header_template: Option<String>,
    pub footer_template: Option<String>,
    pub prefer_css_page_size: Option<bool>,
}

/// What the user asked for: the input page, the output file, the layout and
/// an optional scale that replaces the layout's own.
#[derive(Clone, Debug, PartialEq)]
pub struct Flags {
    pub html_path: String,
    pub out: String,
    pub scale: Option<PdfNumber>,
    pub layout: PageLayout,
}

/// The legal preset: US letter paper, backgrounds printed, scale 1, the
/// page's own CSS size preferred; everything else unset.
pub open spec fn legal_preset() -> PrintOptions {
    PrintOptions {
        landscape: None,
        display_header_footer: None,
        print_background: Some(true),
        scale: Some(PdfNumber { bits: ONE_BITS }),
        paper_width: Some(PdfNumber { bits: EIGHT_AND_A_HALF_BITS }),
        paper_height: Some(PdfNumber { bits: ELEVEN_BITS }),
        margin_top: None,
        margin_bottom: None,
        margin_left: None,
        margin_right: None,
        page_ranges: None,
        ignore_invalid_page_ranges: None,
        header_template: None,
        footer_template: None,
        prefer_css_page_size: Some(true),
    }
}

/// The slideshow preset: the legal preset in landscape on 16 by 9 paper.
pub open spec fn slideshow_preset() -> PrintOptions {
    PrintOptions {
        landscape: Some(true),
        paper_width: Some(PdfNumber { bits: SIXTEEN_BITS }),
        paper_height: Some(PdfNumber { bits: NINE_BITS }),
        ..legal_preset()
    }
}

/// The preset options of a layout.
pub open spec fn preset(layout: PageLayout) -> PrintOptions {
    match layout {
        PageLayout::Legal => legal_preset(),
        PageLayout::Slideshow => slideshow_preset(),
    }
}

/// The options for a layout and an optional scale override: the preset, with
/// its scale replaced where an override is given.
pub open spec fn options_for(layout: PageLayout, scale: Option<PdfNumber>) -> PrintOptions {
    match scale {
        Some(s) => PrintOptions { scale: Some(s), ..preset(layout) },
        None => preset(layout),
    }
}

/// The options of the legal preset.
pub fn default_pdf_options() -> (r: PrintOptions)
    ensures
        r == legal_preset(),
{
    PrintOptions {
        landscape: None,
        display_header_footer: None,
        print_background: Some(true),
        scale: Some(PdfNumber { bits: ONE_BITS }),
        paper_width: Some(PdfNumber { bits: EIGHT_AND_A_HALF_BITS }),
        paper_height: Some(PdfNumber { bits: ELEVEN_BITS }),
        margin_top: None,
        margin_bottom: None,
        margin_left: None,
        margin_right: None,
        page_ranges: None,
        ignore_invalid_page_ranges: None,
        header_template: None,
        footer_template: None,
        prefer_css_page_size: Some(true),
    }
}

/// The options of the slideshow preset.
pub fn slideshow_pdf_options() -> (r: PrintOptions)
    ensures
        r == slideshow_preset(),
{
    let mut options = default_pdf_options();
    options.landscape = Some(true);
    options.paper_width = Some(PdfNumber { bits: SIXTEEN_BITS });
    options.paper_height = Some(PdfNumber { bits: NINE_BITS });
    options
}

/// The print options for a layout, with the scale replaced where an override
/// is given.
pub fn build_print_options(layout: PageLayout, scale: Option<PdfNumber>) -> (r: PrintOptions)
    ensures
        r == options_for(layout, scale),
{
    let mut base = match layout {
        PageLayout::Legal => default_pdf_options(),
        PageLayout::Slideshow => slideshow_pdf_options(),
    };
    if let Some(scale) = scale {
        base.scale = Some(scale);
    }
    base
}

impl Flags {
    /// The print options that these flags select.
    pub fn to_pdf_options(&self) -> (r: PrintOptions)
        ensures
            r == options_for(self.layout, self.scale),
    {
        build_print_options(self.layout, self.scale)
    }
}

/// The print options depend on the layout and the scale override alone: two
/// sets of flags that agree on those two select the same options, whatever
/// their paths.
pub proof fn options_depend_on_layout_and_scale(a: Flags, b: Flags)
    requires
        a.layout == b.layout,
        a.scale == b.scale,
    ensures
        options_for(a.layout, a.scale) == options_for(b.layout, b.scale),
{
}

/// A scale override replaces the preset's scale and changes nothing else.
pub proof fn scale_override_changes_only_scale(layout: PageLayout, s: PdfNumber)
    ensures
        options_for(layout, Some(s)).scale == Some(s),
        options_for(layout, Some(s)) == (PrintOptions {
            scale: Some(s),
            ..options_for(layout, None)
        }),
{
}

/// The slideshow preset is the legal preset with landscape on and 16 by 9
/// paper; every other field is the same.
pub proof fn slideshow_extends_legal()
    ensures
        slideshow_preset().landscape == Some(true),
        legal_preset().landscape.is_none(),
        slideshow_preset() == (PrintOptions {
            landscape: Some(true),
            paper_width: Some(PdfNumber { bits: SIXTEEN_BITS }),
            paper_height: Some(PdfNumber { bits: NINE_BITS }),
            ..legal_preset()
        }),
{
}

} // verus!
