use print_to_pdf::layout::{InvalidLayout, PageLayout};
use print_to_pdf::options::{
    build_print_options, default_pdf_options, slideshow_pdf_options, Flags, PdfNumber,
    PrintOptions,
};

fn num(x: f64) -> Option<PdfNumber> {
    Some(PdfNumber { bits: x.to_bits() })
}

fn legal_expected() -> PrintOptions {
    PrintOptions {
        landscape: None,
        display_header_footer: None,
        print_background: Some(true),
        scale: num(1.0),
        paper_width: num(8.5),
        paper_height: num(11.0),
        margin_top: None,
        margin_bottom: None,
        margin_left: None,
        margin_right: None,
        page_ranges: None,
        ignore_invalid_page_ranges: None,
        header_template: None,
        footer_template: None,
        prefer_css_page_size: Some(true),
    }
}

fn flags(layout: PageLayout, scale: Option<f64>) -> Flags {
    Flags {
        html_path: "page.html".to_string(),
        out: "page.pdf".to_string(),
        scale: scale.map(|s| PdfNumber { bits: s.to_bits() }),
        layout,
    }
}

#[test]
fn legal_preset_without_override() {
    assert_eq!(flags(PageLayout::Legal, None).to_pdf_options(), legal_expected());
    assert_eq!(default_pdf_options(), legal_expected());
}

#[test]
fn slideshow_preset_without_override() {
    let mut expected = legal_expected();
    expected.landscape = Some(true);
    expected.paper_width = num(16.0);
    expected.paper_height = num(9.0);
    assert_eq!(flags(PageLayout::Slideshow, None).to_pdf_options(), expected);
    assert_eq!(slideshow_pdf_options(), expected);
}

#[test]
fn legal_preset_with_half_scale() {
    let mut expected = legal_expected();
    expected.scale = num(0.5);
    assert_eq!(flags(PageLayout::Legal, Some(0.5)).to_pdf_options(), expected);
}

#[test]
fn slideshow_scale_override_replaces_scale_only() {
    let options = build_print_options(PageLayout::Slideshow, num(1.5));
    assert_eq!(options.scale, num(1.5));
    assert_eq!(options.landscape, Some(true));
    assert_eq!(options.paper_width, num(16.0));
    assert_eq!(options.paper_height, num(9.0));
}

#[test]
fn options_are_the_same_on_every_call() {
    for layout in [PageLayout::Legal, PageLayout::Slideshow] {
        for scale in [None, Some(0.25), Some(2.0)] {
            let a = flags(layout, scale).to_pdf_options();
            let mut other = flags(layout, scale);
            other.html_path = "elsewhere/other.html".to_string();
            other.out = "other.pdf".to_string();
            let b = other.to_pdf_options();
            assert_eq!(a, b);
        }
    }
}

#[test]
fn layout_names_ignore_case() {
    assert_eq!(PageLayout::from_str("legal"), Ok(PageLayout::Legal));
    assert_eq!(PageLayout::from_str("LEGAL"), Ok(PageLayout::Legal));
    assert_eq!(PageLayout::from_str("SlideShow"), Ok(PageLayout::Slideshow));
}

#[test]
fn unknown_layout_is_rejected() {
    let err = PageLayout::from_str("Poster").unwrap_err();
    assert_eq!(err, InvalidLayout { value: "poster".to_string() });
    assert_eq!(err.message(), "Unknown layout: poster");
}

#[test]
fn folded_lookup_does_not_fold() {
    assert_eq!(PageLayout::from_folded("slideshow"), Ok(PageLayout::Slideshow));
    assert!(PageLayout::from_folded("Legal").is_err());
    assert!(PageLayout::from_folded("").is_err());
}
