use vstd::prelude::*;
use crate::text::concat;

verus! {

/// The page layout presets that a conversion can use.
#[derive(Clone, Copy, Debug, PartialEq, Eq)]
pub enum PageLayout {
    Legal,
    Slideshow,
}

/// A layout name that names no preset.
#[derive(Clone, Debug, PartialEq, Eq)]
pub struct InvalidLayout {
    /// The name as it was looked up.
    pub value: String,
}

/// What `str::to_lowercase` returns for a string.
pub uninterp spec fn lower_of(s: Seq<char>) -> Seq<char>;

/// Relies on `str::to_lowercase`: its result depends on the characters alone.
#[verifier::external_body]
fn lowercase(s: &str) -> (r: String)
    ensures
        r@ == lower_of(s@),
{
    s.to_lowercase()
}

/// The preset that a lower-case name stands for, if any.
pub open spec fn layout_named(name: Seq<char>) -> Option<PageLayout> {
    if name == "legal"@ {
        Some(PageLayout::Legal)
    } else if name == "slideshow"@ {
        Some(PageLayout::Slideshow)
    } else {
        None
    }
}


impl PageLayout {
    /// Looks a name up among the presets, as written: no case folding.
    pub fn from_folded(name: &str) -> (r: Result<PageLayout, InvalidLayout>)
        ensures
            match layout_named(name@) {
                Some(l) => r == Ok::<PageLayout, InvalidLayout>(l),
                None => r is Err && r->Err_0.value@ == name@,
            },
    {
        let name = name.to_owned();
        let legal = "legal".to_owned();
        let slideshow = "slideshow".to_owned();
        if name == legal {
            Ok(PageLayout::Legal)
        } else if name == slideshow {
            Ok(PageLayout::Slideshow)
        } else {
            Err(InvalidLayout { value: name })
        }
    }

    /// Parses a layout name, ignoring case.
    pub fn from_str(s: &str) -> (r: Result<PageLayout, InvalidLayout>)
        ensures
            match layout_named(lower_of(s@)) {
                Some(l) => r == Ok::<PageLayout, InvalidLayout>(l),
                None => r is Err && r->Err_0.value@ == lower_of(s@),
            },
    {
        let folded = lowercase(s);
        PageLayout::from_folded(folded.as_str())
    }
}

impl InvalidLayout {
    /// The message that reports this error.
    pub fn message(&self) -> (r: String)
        ensures
            r@ == "Unknown layout: "@ + self.value@,
    {
        concat("Unknown layout: ", self.value.as_str())
    }
}

} // verus!
