//! Fonts: how they are described, and what is kept of a loaded one.

use vstd::prelude::*;

verus! {

/// Identifies a loaded font.
#[derive(Clone, Copy, Debug, PartialEq, Eq, Structural, Hash)]
pub struct FontKey {
    pub token: u32,
}

/// The slope of the letters.
#[derive(Clone, Copy, Debug, PartialEq, Eq, Structural, Hash)]
pub enum Slant {
    Normal,
    Italic,
    Oblique,
}

/// The boldness of the letters.
#[derive(Clone, Copy, Debug, PartialEq, Eq, Structural, Hash)]
pub enum Weight {
    Normal,
    Bold,
}

/// Which font of a family is wanted.
#[derive(Debug, PartialEq, Eq, Hash)]
pub enum Style {
    /// The font whose face has this name.
    Specific(String),
    /// The font that matches best.
    Description { slant: Slant, weight: Weight },
}

/// Which font is wanted.
#[derive(Debug, PartialEq, Eq, Hash)]
pub struct FontDesc {
    /// The name of the family.
    pub name: String,
    pub style: Style,
}

/// A style as a mathematical value.
pub enum StyleView {
    Specific(Seq<char>),
    Description { slant: Slant, weight: Weight },
}

/// A font description as a mathematical value.
pub struct FontDescView {
    pub name: Seq<char>,
    pub style: StyleView,
}

impl View for Style {
    type V = StyleView;

    open spec fn view(&self) -> StyleView {
        match *self {
            Style::Specific(name) => StyleView::Specific(name@),
            Style::Description { slant, weight } => StyleView::Description { slant, weight },
        }
    }
}

impl View for FontDesc {
    type V = FontDescView;

    open spec fn view(&self) -> FontDescView {
        FontDescView { name: self.name@, style: self.style@ }
    }
}

impl Clone for Style {
    fn clone(&self) -> (copy: Style)
        ensures
            copy == *self,
    {
        match self {
            Style::Specific(name) => Style::Specific(name.clone()),
            Style::Description { slant, weight } => Style::Description {
                slant: *slant,
                weight: *weight,
            },
        }
    }
}

impl Clone for FontDesc {
    fn clone(&self) -> (copy: FontDesc)
        ensures
            copy == *self,
    {
        FontDesc { name: self.name.clone(), style: self.style.clone() }
    }
}

impl Style {
    /// Whether two styles are the same.
    pub fn same(&self, other: &Style) -> (r: bool)
        ensures
            r == (self@ == other@),
            r <==> match (*self, *other) {
                (Style::Specific(a), Style::Specific(b)) => a@ == b@,
                (
                    Style::Description { slant: s1, weight: w1 },
                    Style::Description { slant: s2, weight: w2 },
                ) => s1 == s2 && w1 == w2,
                _ => false,
            },
    {
        match (self, other) {
            (Style::Specific(a), Style::Specific(b)) => *a == *b,
            (
                Style::Description { slant: s1, weight: w1 },
                Style::Description { slant: s2, weight: w2 },
            ) => *s1 == *s2 && *w1 == *w2,
            _ => false,
        }
    }
}

impl FontDesc {
    /// Whether two descriptions are the same.
    pub fn same(&self, other: &FontDesc) -> (r: bool)
        ensures
            r == (self@ == other@),
            r <==> self.name@ == other.name@ && match (self.style, other.style) {
                (Style::Specific(a), Style::Specific(b)) => a@ == b@,
                (
                    Style::Description { slant: s1, weight: w1 },
                    Style::Description { slant: s2, weight: w2 },
                ) => s1 == s2 && w1 == w2,
                _ => false,
            },
    {
        self.name == other.name && self.style.same(&other.style)
    }
}

/// The weight of a font, as DirectWrite grades it.
#[derive(Clone, Copy, Debug, PartialEq, Eq, Structural)]
pub enum FontWeight {
    Thin,
    ExtraLight,
    Light,
    SemiLight,
    Regular,
    Medium,
    SemiBold,
    Bold,
    ExtraBold,
    Black,
    ExtraBlack,
    Unknown(u32),
}

/// The slope of a font, as DirectWrite grades it.
#[derive(Clone, Copy, Debug, PartialEq, Eq, Structural)]
pub enum FontStyle {
    Normal,
    Oblique,
    Italic,
}

/// The width of a font, as DirectWrite grades it.
#[derive(Clone, Copy, Debug, PartialEq, Eq, Structural)]
pub enum FontStretch {
    Undefined,
    UltraCondensed,
    ExtraCondensed,
    Condensed,
    SemiCondensed,
    Normal,
    SemiExpanded,
    Expanded,
    ExtraExpanded,
    UltraExpanded,
}

impl From<Weight> for FontWeight {
    fn from(weight: Weight) -> (r: FontWeight) {
        match weight {
            Weight::Bold => FontWeight::Bold,
            Weight::Normal => FontWeight::Regular,
        }
    }
}

impl vstd::std_specs::convert::FromSpecImpl<Weight> for FontWeight {
    open spec fn obeys_from_spec() -> bool {
        true
    }

    open spec fn from_spec(weight: Weight) -> FontWeight {
        if weight == Weight::Bold {
            FontWeight::Bold
        } else {
            FontWeight::Regular
        }
    }
}

impl From<Slant> for FontStyle {
    fn from(slant: Slant) -> (r: FontStyle) {
        match slant {
            Slant::Oblique => FontStyle::Oblique,
            Slant::Italic => FontStyle::Italic,
            Slant::Normal => FontStyle::Normal,
        }
    }
}

impl vstd::std_specs::convert::FromSpecImpl<Slant> for FontStyle {
    open spec fn obeys_from_spec() -> bool {
        true
    }

    open spec fn from_spec(slant: Slant) -> FontStyle {
        match slant {
            Slant::Oblique => FontStyle::Oblique,
            Slant::Italic => FontStyle::Italic,
            Slant::Normal => FontStyle::Normal,
        }
    }
}

/// A loaded font. `F` is the handle by which DirectWrite knows its face.
#[derive(Debug)]
pub struct Font<F> {
    pub face: F,
    pub family_name: String,
    pub weight: FontWeight,
    pub style: FontStyle,
    pub stretch: FontStretch,
}

/// A description is known by its parts: two are the same value if and only if
/// they name the same family and the same style, letter for letter.
pub proof fn law_descriptions_are_known_by_their_parts(a: FontDesc, b: FontDesc)
    ensures
        a@ == b@ <==> a.name@ == b.name@ && match (a.style, b.style) {
            (Style::Specific(s), Style::Specific(t)) => s@ == t@,
            (
                Style::Description { slant: s1, weight: w1 },
                Style::Description { slant: s2, weight: w2 },
            ) => s1 == s2 && w1 == w2,
            _ => false,
        },
{
}

/// A weight is asked for as the grade of the same boldness, and a slant as the
/// slope of the same name.
pub proof fn law_grades_keep_their_meaning(weight: Weight, slant: Slant)
    ensures
        weight is Bold <==> <FontWeight as vstd::std_specs::convert::FromSpec<_>>::from_spec(
            weight,
        ) is Bold,
        weight is Normal <==> <FontWeight as vstd::std_specs::convert::FromSpec<_>>::from_spec(
            weight,
        ) is Regular,
        slant is Normal <==> <FontStyle as vstd::std_specs::convert::FromSpec<_>>::from_spec(
            slant,
        ) is Normal,
        slant is Italic <==> <FontStyle as vstd::std_specs::convert::FromSpec<_>>::from_spec(
            slant,
        ) is Italic,
        slant is Oblique <==> <FontStyle as vstd::std_specs::convert::FromSpec<_>>::from_spec(
            slant,
        ) is Oblique,
{
}

} // verus!
