//! How a font is selected and loaded.
//!
//! Each step below says what to ask of DirectWrite next; the answer leads to
//! the step after it.

use crate::error::Error;
use crate::font::{
    FontDesc, FontKey, FontStretch, FontStyle, FontWeight, Slant, Style, Weight,
};
use crate::glyph::Size;
use crate::rasterizer::DirectWriteRasterizer;
use vstd::prelude::*;

verus! {

/// What to do next while a font is loaded.
#[derive(Debug)]
pub enum LoadStep {
    /// Nothing: this is the result.
    Done(Result<FontKey, Error>),
    /// Look the family up by the name in the description.
    FindFamily(FamilyLookup),
    /// Get the first font of the family that matches, and store it.
    GetFirstMatchingFont(FontMatch),
    /// Count the fonts of the family.
    CountFonts(FontCount),
    /// Get the face name of the font of the family that has the scan's index.
    GetFaceName(FaceScan),
    /// Store the font of the family that has this index.
    StoreFont(FontChoice),
}

/// Waits for the family.
#[derive(Debug)]
pub struct FamilyLookup {
    pub desc: FontDesc,
}

/// What the first matching font is asked for by.
#[derive(Debug)]
pub struct FontMatch {
    pub desc: FontDesc,
    pub weight: FontWeight,
    pub stretch: FontStretch,
    pub style: FontStyle,
}

/// Waits for the number of fonts.
#[derive(Debug)]
pub struct FontCount {
    pub desc: FontDesc,
    pub face_name: String,
}

/// Looks through the fonts of a family for one whose face has a given name.
/// It waits for the face name of the font that has `index`.
#[derive(Debug)]
pub struct FaceScan {
    pub desc: FontDesc,
    pub face_name: String,
    pub index: u32,
    pub count: u32,
}

/// A font that was found in its family.
#[derive(Debug)]
pub struct FontChoice {
    pub desc: FontDesc,
    pub index: u32,
}

impl<F> DirectWriteRasterizer<F> {
    /// Begins to load a font.
    ///
    /// A description that a font was loaded by before gives the key of that
    /// font at once.
    pub fn load_font(&self, desc: &FontDesc, _size: Size) -> (step: LoadStep)
        requires
            self.well_formed(),
        ensures
            step == self.load_begun(*desc),
            self.keys().contains_key(desc@) ==> (step matches LoadStep::Done(Ok(key)) && key
                == self.keys()[desc@]),
            !self.keys().contains_key(desc@) ==> (step matches LoadStep::FindFamily(lookup)
                && lookup.desc == *desc),
    {
        match self.cached_key(desc) {
            Some(key) => LoadStep::Done(Ok(key)),
            None => LoadStep::FindFamily(FamilyLookup { desc: desc.clone() }),
        }
    }

    /// The first step of loading a font.
    pub open spec fn load_begun(self, desc: FontDesc) -> LoadStep {
        if self.keys().contains_key(desc@) {
            LoadStep::Done(Ok(self.keys()[desc@]))
        } else {
            LoadStep::FindFamily(FamilyLookup { desc })
        }
    }
}

impl FamilyLookup {
    /// Takes in whether the family was found.
    ///
    /// For a style that is described, the first font that matches is the best
    /// one, so nothing else has to be tried if no font matches exactly.
    pub fn looked_up(self, found: bool) -> (step: LoadStep)
        ensures
            step == self.after(found),
            !found ==> (step matches LoadStep::Done(Err(Error::FontNotFound(desc))) && desc
                == self.desc),
            found ==> match self.desc.style {
                Style::Description { slant, weight } => step
                    matches LoadStep::GetFirstMatchingFont(request) && {
                    &&& request.desc == self.desc
                    &&& request.stretch is Normal
                    &&& weight is Bold ==> request.weight is Bold
                    &&& weight is Normal ==> request.weight is Regular
                    &&& slant is Normal ==> request.style is Normal
                    &&& slant is Italic ==> request.style is Italic
                    &&& slant is Oblique ==> request.style is Oblique
                },
                Style::Specific(name) => step matches LoadStep::CountFonts(fonts) && {
                    &&& fonts.desc == self.desc
                    &&& fonts.face_name@ == name@
                },
            },
    {
        if !found {
            return LoadStep::Done(Err(Error::FontNotFound(self.desc)));
        }
        match &self.desc.style {
            Style::Description { slant, weight } => {
                let weight = FontWeight::from(*weight);
                let style = FontStyle::from(*slant);
                LoadStep::GetFirstMatchingFont(
                    FontMatch { desc: self.desc, weight, stretch: FontStretch::Normal, style },
                )
            },
            Style::Specific(name) => {
                let face_name: String = name.clone();
                LoadStep::CountFonts(FontCount { desc: self.desc, face_name })
            },
        }
    }

    /// The step after the family was looked up.
    pub open spec fn after(self, found: bool) -> LoadStep {
        if !found {
            LoadStep::Done(Err(Error::FontNotFound(self.desc)))
        } else {
            match self.desc.style {
                Style::Description { slant, weight } => LoadStep::GetFirstMatchingFont(
                    FontMatch {
                        desc: self.desc,
                        weight: <FontWeight as vstd::std_specs::convert::FromSpec<_>>::from_spec(
                            weight,
                        ),
                        stretch: FontStretch::Normal,
                        style: <FontStyle as vstd::std_specs::convert::FromSpec<_>>::from_spec(
                            slant,
                        ),
                    },
                ),
                Style::Specific(name) => LoadStep::CountFonts(
                    FontCount { desc: self.desc, face_name: name },
                ),
            }
        }
    }
}

impl FontCount {
    /// Takes in how many fonts the family has.
    pub fn counted(self, count: u32) -> (step: LoadStep)
        ensures
            step == self.after(count),
            count == 0 ==> (step matches LoadStep::Done(Err(Error::FontNotFound(desc))) && desc
                == self.desc),
            count > 0 ==> (step matches LoadStep::GetFaceName(scan) && {
                &&& scan.desc == self.desc
                &&& scan.face_name == self.face_name
                &&& scan.index == 0
                &&& scan.count == count
            }),
    {
        if count == 0 {
            LoadStep::Done(Err(Error::FontNotFound(self.desc)))
        } else {
            LoadStep::GetFaceName(
                FaceScan { desc: self.desc, face_name: self.face_name, index: 0, count },
            )
        }
    }

    /// The step after the fonts were counted.
    pub open spec fn after(self, count: u32) -> LoadStep {
        if count == 0 {
            LoadStep::Done(Err(Error::FontNotFound(self.desc)))
        } else {
            LoadStep::GetFaceName(
                FaceScan { desc: self.desc, face_name: self.face_name, index: 0, count },
            )
        }
    }
}

impl FaceScan {
    /// Takes in the face name of the font at the current index.
    pub fn named(self, face_name: &String) -> (step: LoadStep)
        requires
            self.index < self.count,
        ensures
            step == self.after(face_name@),
            face_name@ == self.face_name@ ==> (step matches LoadStep::StoreFont(choice) && {
                &&& choice.desc == self.desc
                &&& choice.index == self.index
            }),
            face_name@ != self.face_name@ && self.index + 1 < self.count ==> (step
                matches LoadStep::GetFaceName(scan) && {
                &&& scan.desc == self.desc
                &&& scan.face_name == self.face_name
                &&& scan.index == self.index + 1
                &&& scan.count == self.count
            }),
            face_name@ != self.face_name@ && self.index + 1 == self.count ==> (step
                matches LoadStep::Done(Err(Error::FontNotFound(desc))) && desc == self.desc),
    {
        if *face_name == self.face_name {
            return LoadStep::StoreFont(FontChoice { desc: self.desc, index: self.index });
        }
        let next: u32 = self.index + 1;
        if next == self.count {
            LoadStep::Done(Err(Error::FontNotFound(self.desc)))
        } else {
            LoadStep::GetFaceName(
                FaceScan {
                    desc: self.desc,
                    face_name: self.face_name,
                    index: next,
                    count: self.count,
                },
            )
        }
    }

    /// The step after the face name of the font at the current index was asked
    /// for.
    pub open spec fn after(self, face_name: Seq<char>) -> LoadStep {
        if face_name == self.face_name@ {
            LoadStep::StoreFont(FontChoice { desc: self.desc, index: self.index })
        } else if self.index + 1 == self.count {
            LoadStep::Done(Err(Error::FontNotFound(self.desc)))
        } else {
            LoadStep::GetFaceName(
                FaceScan {
                    desc: self.desc,
                    face_name: self.face_name,
                    index: (self.index + 1) as u32,
                    count: self.count,
                },
            )
        }
    }

    /// The step at which the scan stops in a family whose fonts have these
    /// face names.
    pub open spec fn stopped(self, face_names: Seq<Seq<char>>) -> LoadStep
        decreases self.count - self.index,
        when self.index < self.count
    {
        match self.after(face_names[self.index as int]) {
            LoadStep::GetFaceName(next) => next.stopped(face_names),
            step => step,
        }
    }
}

/// The scan stops at the first font from its index on whose face has the name,
/// and fails if there is none.
proof fn lemma_scan(scan: FaceScan, face_names: Seq<Seq<char>>, first: int)
    requires
        scan.index < scan.count,
        face_names.len() == scan.count,
        scan.index <= first <= scan.count,
        forall|i: int| scan.index <= i < first ==> face_names[i] != scan.face_name@,
        first < scan.count ==> face_names[first] == scan.face_name@,
    ensures
        scan.stopped(face_names) == if first < scan.count {
            LoadStep::StoreFont(FontChoice { desc: scan.desc, index: first as u32 })
        } else {
            LoadStep::Done(Err(Error::FontNotFound(scan.desc)))
        },
    decreases scan.count - scan.index,
{
    if first > scan.index && scan.index + 1 < scan.count {
        let next = FaceScan { index: (scan.index + 1) as u32, ..scan };
        lemma_scan(next, face_names, first);
    }
}

/// The step at which the search for a specific style stops in a family whose
/// fonts have these face names.
pub open spec fn specific_style_search(desc: FontDesc, face_names: Seq<Seq<char>>) -> LoadStep {
    match (FamilyLookup { desc }).after(true) {
        LoadStep::CountFonts(fonts) => match fonts.after(face_names.len() as u32) {
            LoadStep::GetFaceName(scan) => scan.stopped(face_names),
            step => step,
        },
        step => step,
    }
}

/// A specific style selects the first font of the family whose face has that
/// name, letter for letter.
pub proof fn law_specific_style_selects_first(
    desc: FontDesc,
    name: String,
    face_names: Seq<Seq<char>>,
    first: int,
)
    requires
        desc.style == Style::Specific(name),
        face_names.len() <= u32::MAX,
        0 <= first < face_names.len(),
        face_names[first] == name@,
        forall|i: int| 0 <= i < first ==> face_names[i] != name@,
    ensures
        specific_style_search(desc, face_names) == LoadStep::StoreFont(
            FontChoice { desc, index: first as u32 },
        ),
{
    let count = face_names.len() as u32;
    lemma_scan(FaceScan { desc, face_name: name, index: 0, count }, face_names, first);
}

/// If no font of the family has a face of that name, the font is not found.
pub proof fn law_specific_style_not_found(
    desc: FontDesc,
    name: String,
    face_names: Seq<Seq<char>>,
)
    requires
        desc.style == Style::Specific(name),
        face_names.len() <= u32::MAX,
        forall|i: int| 0 <= i < face_names.len() ==> face_names[i] != name@,
    ensures
        specific_style_search(desc, face_names) == LoadStep::Done(
            Err::<FontKey, Error>(Error::FontNotFound(desc)),
        ),
{
    let count = face_names.len() as u32;
    if count > 0 {
        lemma_scan(
            FaceScan { desc, face_name: name, index: 0, count },
            face_names,
            count as int,
        );
    }
}

/// Once a font was stored by a description, loading by that description gives
/// its key at once.
pub proof fn law_loading_again_gives_the_key<F>(
    before: DirectWriteRasterizer<F>,
    after: DirectWriteRasterizer<F>,
    desc: FontDesc,
    key: FontKey,
    font: crate::font::Font<F>,
)
    requires
        after.stores(before, desc@, key, font),
    ensures
        after.load_begun(desc) == LoadStep::Done(Ok::<FontKey, Error>(key)),
{
}

/// A key that loading gives at once is the one that the description has, and a
/// font is loaded under it.
pub proof fn law_key_given_at_once_has_its_font<F>(
    rasterizer: DirectWriteRasterizer<F>,
    desc: FontDesc,
    key: FontKey,
)
    requires
        rasterizer.well_formed(),
        rasterizer.load_begun(desc) == LoadStep::Done(Ok::<FontKey, Error>(key)),
    ensures
        rasterizer.keys().contains_key(desc@),
        rasterizer.keys()[desc@] == key,
        rasterizer.fonts().contains_key(key.token),
{
    crate::rasterizer::law_cached_keys_have_fonts(rasterizer, desc@);
}

/// A font that is loaded because its description has no key, and that is stored
/// under a fresh one, keeps the two maps of the rasterizer in agreement, and is
/// found under the key that the description then has.
pub proof fn law_loading_follows<F>(
    before: DirectWriteRasterizer<F>,
    after: DirectWriteRasterizer<F>,
    desc: FontDesc,
    key: FontKey,
    font: crate::font::Font<F>,
)
    requires
        before.load_begun(desc) !is Done,
        !before.fonts().contains_key(key.token),
        after.stores(before, desc@, key, font),
    ensures
        after.follows(before),
        before.consistent() ==> after.consistent(),
        after.keys().contains_key(desc@),
        after.keys()[desc@] == key,
        after.fonts().contains_key(key.token),
        after.fonts()[key.token] == font,
{
    if before.consistent() {
        crate::rasterizer::law_loading_keeps_maps_consistent(before, after, desc@, key, font);
    }
}

/// A description that has no key is always looked up, by its family and in every
/// state of the rasterizer; one that has a key is never looked up again.
pub proof fn law_description_without_key_is_looked_up<F>(
    rasterizer: DirectWriteRasterizer<F>,
    desc: FontDesc,
)
    ensures
        !rasterizer.keys().contains_key(desc@) <==> rasterizer.load_begun(desc) is FindFamily,
        rasterizer.load_begun(desc) matches LoadStep::FindFamily(lookup) ==> lookup.desc == desc,
        rasterizer.keys().contains_key(desc@) ==> rasterizer.load_begun(desc) == LoadStep::Done(
            Ok::<FontKey, Error>(rasterizer.keys()[desc@]),
        ),
{
}

/// How loading goes on depends on the keys alone: two rasterizers that agree in
/// the key of a description, or in that it has none, begin to load it alike,
/// whatever else they offer or hold.
pub proof fn law_loading_depends_on_keys_alone<F>(
    a: DirectWriteRasterizer<F>,
    b: DirectWriteRasterizer<F>,
    desc: FontDesc,
)
    requires
        a.keys().contains_key(desc@) == b.keys().contains_key(desc@),
        a.keys().contains_key(desc@) ==> a.keys()[desc@] == b.keys()[desc@],
    ensures
        a.load_begun(desc) == b.load_begun(desc),
{
}

/// A family that is found is searched by the style that is described: by the
/// weight of the same boldness and the slope of the same name, at normal width.
pub proof fn law_described_style_asks_for_the_best_match(
    desc: FontDesc,
    slant: Slant,
    weight: Weight,
)
    requires
        desc.style == (Style::Description { slant, weight }),
    ensures
        (FamilyLookup { desc }).after(true) matches LoadStep::GetFirstMatchingFont(request) && {
            &&& request.desc == desc
            &&& request.stretch is Normal
            &&& weight is Bold <==> request.weight is Bold
            &&& weight is Normal <==> request.weight is Regular
            &&& slant is Normal <==> request.style is Normal
            &&& slant is Italic <==> request.style is Italic
            &&& slant is Oblique <==> request.style is Oblique
        },
{
}

/// The step at which loading stops in a system that has the family or not, and
/// in which the fonts of the family have these face names.
pub open spec fn load_stopped<F>(
    rasterizer: DirectWriteRasterizer<F>,
    desc: FontDesc,
    found: bool,
    face_names: Seq<Seq<char>>,
) -> LoadStep {
    match rasterizer.load_begun(desc) {
        LoadStep::FindFamily(lookup) => if found {
            specific_style_search(lookup.desc, face_names)
        } else {
            lookup.after(false)
        },
        step => step,
    }
}

/// A font is reported as not found if and only if its description has no key and
/// either its family was not found, or a specific style was asked for that no
/// face of the family has the name of; and the report names the description.
pub proof fn law_not_found_only_for_a_reason<F>(
    rasterizer: DirectWriteRasterizer<F>,
    desc: FontDesc,
    found: bool,
    face_names: Seq<Seq<char>>,
)
    requires
        face_names.len() <= u32::MAX,
    ensures
        load_stopped(rasterizer, desc, found, face_names) matches LoadStep::Done(Err(_)) <==> {
            &&& !rasterizer.keys().contains_key(desc@)
            &&& !found || (desc.style matches Style::Specific(name) && forall|i: int|
                0 <= i < face_names.len() ==> face_names[i] != name@)
        },
        load_stopped(rasterizer, desc, found, face_names) matches LoadStep::Done(Err(error))
            ==> error == Error::FontNotFound(desc),
{
    if !rasterizer.keys().contains_key(desc@) && found {
        match desc.style {
            Style::Specific(name) => {
                if forall|i: int| 0 <= i < face_names.len() ==> face_names[i] != name@ {
                    law_specific_style_not_found(desc, name, face_names);
                } else {
                    let i = choose|i: int| 0 <= i < face_names.len() && face_names[i] == name@;
                    let first = lemma_first_face(face_names, name@, i);
                    law_specific_style_selects_first(desc, name, face_names, first);
                }
            },
            Style::Description { slant, weight } => {},
        }
    }
}

/// If some face has the name, some face is the first that has it.
proof fn lemma_first_face(face_names: Seq<Seq<char>>, name: Seq<char>, i: int) -> (first: int)
    requires
        0 <= i < face_names.len(),
        face_names[i] == name,
    ensures
        0 <= first <= i,
        face_names[first] == name,
        forall|j: int| 0 <= j < first ==> face_names[j] != name,
    decreases i,
{
    if exists|j: int| 0 <= j < i && face_names[j] == name {
        let j = choose|j: int| 0 <= j < i && face_names[j] == name;
        lemma_first_face(face_names, name, j)
    } else {
        i
    }
}

} // verus!
