//! The rasterizer: which fonts are loaded, and under which keys.

use crate::error::Error;
use crate::font::{Font, FontDesc, FontKey};
use std::collections::HashMap;
use vstd::prelude::*;

verus! {

/// Rasterizes glyphs with DirectWrite. `F` is the handle by which DirectWrite
/// knows a font face.
pub struct DirectWriteRasterizer<F> {
    /// The loaded fonts, by the tokens of their keys.
    fonts: HashMap<u32, Font<F>>,
    /// The keys of loaded fonts, each with the description it was loaded by.
    keys: Vec<(FontDesc, FontKey)>,
    /// Whether the system offers a font fallback.
    has_fallback: bool,
    /// Whether color glyphs can be decomposed into layers.
    has_color_factory: bool,
}

/// The pairs as a map.
spec fn by_description(pairs: Seq<(FontDesc, FontKey)>) -> Map<
    crate::font::FontDescView,
    FontKey,
> {
    Map::new(
        |desc: crate::font::FontDescView|
            exists|i: int| 0 <= i < pairs.len() && (#[trigger] pairs[i]).0@ == desc,
        |desc: crate::font::FontDescView|
            pairs[choose|i: int| 0 <= i < pairs.len() && (#[trigger] pairs[i]).0@ == desc].1,
    )
}

/// Whether the pairs hold different descriptions.
spec fn no_description_twice(pairs: Seq<(FontDesc, FontKey)>) -> bool {
    forall|i: int, j: int|
        0 <= i < pairs.len() && 0 <= j < pairs.len() && (#[trigger] pairs[i]).0@ == (
        #[trigger] pairs[j]).0@ ==> i == j
}

/// Each pair is an entry of the map.
proof fn lemma_entry(pairs: Seq<(FontDesc, FontKey)>, i: int)
    requires
        no_description_twice(pairs),
        0 <= i < pairs.len(),
    ensures
        by_description(pairs).contains_key(pairs[i].0@),
        by_description(pairs)[pairs[i].0@] == pairs[i].1,
{
}

/// If `after` holds each pair of `before`, but for the one with the description
/// that pair `at` has, and no others, then it is `before` with that pair added.
proof fn lemma_insert(
    before: Seq<(FontDesc, FontKey)>,
    after: Seq<(FontDesc, FontKey)>,
    at: int,
)
    requires
        no_description_twice(before),
        no_description_twice(after),
        0 <= at < after.len(),
        before.len() == after.len() || before.len() == at == after.len() - 1,
        forall|i: int| 0 <= i < before.len() && i != at ==> before[i] == after[i],
        at < before.len() ==> before[at].0@ == after[at].0@,
    ensures
        by_description(after) == by_description(before).insert(after[at].0@, after[at].1),
{
    let expected = by_description(before).insert(after[at].0@, after[at].1);
    assert forall|desc: crate::font::FontDescView|
        #[trigger] by_description(after).contains_key(desc) implies expected.contains_key(desc)
        && expected[desc] == by_description(after)[desc] by {
        let i = choose|i: int| 0 <= i < after.len() && (#[trigger] after[i]).0@ == desc;
        lemma_entry(after, i);
        if i != at {
            lemma_entry(before, i);
        }
    }
    assert forall|desc: crate::font::FontDescView|
        #[trigger] expected.contains_key(desc) implies by_description(after).contains_key(
        desc,
    ) by {
        if desc == after[at].0@ {
            lemma_entry(after, at);
        } else {
            let i = choose|i: int| 0 <= i < before.len() && (#[trigger] before[i]).0@ == desc;
            lemma_entry(after, i);
        }
    }
    assert(by_description(after) =~= expected);
}

impl<F> DirectWriteRasterizer<F> {
    /// The loaded fonts, by the tokens of their keys.
    pub closed spec fn fonts(self) -> Map<u32, Font<F>> {
        self.fonts@
    }

    /// The keys under which fonts were loaded, by their descriptions.
    pub closed spec fn keys(self) -> Map<crate::font::FontDescView, FontKey> {
        by_description(self.keys@)
    }

    /// Whether the system offers a font fallback.
    pub closed spec fn falls_back(self) -> bool {
        self.has_fallback
    }

    /// Whether color glyphs can be decomposed into layers.
    pub closed spec fn decomposes_colors(self) -> bool {
        self.has_color_factory
    }

    /// No description has two keys, and every key has a font.
    pub closed spec fn well_formed(self) -> bool {
        &&& no_description_twice(self.keys@)
        &&& forall|i: int|
            0 <= i < self.keys@.len() ==> self.fonts@.contains_key(
                (#[trigger] self.keys@[i]).1.token,
            )
    }

    /// Whether the two maps agree: no two descriptions share a key, and the
    /// loaded fonts are exactly those whose keys descriptions have.
    pub open spec fn consistent(self) -> bool {
        &&& self.keys().is_injective()
        &&& forall|token: u32| #[trigger]
            self.fonts().contains_key(token) <==> self.has_token(token)
    }

    /// Whether some description has the key with this token.
    pub open spec fn has_token(self, token: u32) -> bool {
        exists|desc: crate::font::FontDescView|
            #[trigger] self.keys().contains_key(desc) && self.keys()[desc].token == token
    }

    /// Whether this rasterizer is what a request can leave of `before`: the
    /// same fonts and keys, or those and one font more, under a key that no
    /// font had, by a description that had none.
    pub open spec fn follows(self, before: DirectWriteRasterizer<F>) -> bool {
        ||| self.keys() == before.keys() && self.fonts() == before.fonts()
        ||| exists|desc: crate::font::FontDescView, key: FontKey, font: Font<F>|
            {
                &&& !before.keys().contains_key(desc)
                &&& !before.fonts().contains_key(key.token)
                &&& #[trigger] self.stores(before, desc, key, font)
            }
    }

    /// Creates a rasterizer that has no fonts loaded.
    pub fn new(has_fallback: bool, has_color_factory: bool) -> (r: Result<
        DirectWriteRasterizer<F>,
        Error,
    >)
        ensures
            r matches Ok(rasterizer) && {
                &&& rasterizer.well_formed()
                &&& rasterizer.consistent()
                &&& rasterizer.fonts() == Map::<u32, Font<F>>::empty()
                &&& rasterizer.keys() == Map::<crate::font::FontDescView, FontKey>::empty()
                &&& rasterizer.falls_back() == has_fallback
                &&& rasterizer.decomposes_colors() == has_color_factory
            },
    {
        let rasterizer = DirectWriteRasterizer {
            fonts: HashMap::new(),
            keys: Vec::new(),
            has_fallback,
            has_color_factory,
        };
        assert(rasterizer.keys() =~= Map::<crate::font::FontDescView, FontKey>::empty());
        Ok(rasterizer)
    }

    /// Whether the system offers a font fallback.
    pub fn has_fallback(&self) -> (r: bool)
        ensures
            r == self.falls_back(),
    {
        self.has_fallback
    }

    /// Whether color glyphs can be decomposed into layers.
    pub fn has_color_factory(&self) -> (r: bool)
        ensures
            r == self.decomposes_colors(),
    {
        self.has_color_factory
    }

    /// The font that is loaded under a key.
    pub fn get_loaded_font(&self, font_key: FontKey) -> (r: Result<&Font<F>, Error>)
        ensures
            match r {
                Ok(font) => self.fonts().contains_key(font_key.token)
                    && *font == self.fonts()[font_key.token],
                Err(error) => !self.fonts().contains_key(font_key.token)
                    && error == Error::UnknownFontKey,
            },
    {
        broadcast use vstd::std_specs::hash::group_hash_axioms;

        match self.fonts.get(&font_key.token) {
            Some(font) => Ok(font),
            None => Err(Error::UnknownFontKey),
        }
    }

    /// Where in `keys` a description stands.
    fn find_key(&self, desc: &FontDesc) -> (r: Option<usize>)
        ensures
            match r {
                Some(i) => i < self.keys@.len() && self.keys@[i as int].0@ == desc@,
                None => forall|i: int|
                    0 <= i < self.keys@.len() ==> (#[trigger] self.keys@[i]).0@ != desc@,
            },
    {
        let mut i: usize = 0;
        while i < self.keys.len()
            invariant
                i <= self.keys@.len(),
                forall|j: int| 0 <= j < i ==> (#[trigger] self.keys@[j]).0@ != desc@,
            decreases self.keys@.len() - i,
        {
            if self.keys[i].0.same(desc) {
                return Some(i);
            }
            i += 1;
        }
        None
    }

    /// The key under which a font was loaded by a description.
    pub fn cached_key(&self, desc: &FontDesc) -> (r: Option<FontKey>)
        requires
            self.well_formed(),
        ensures
            r is Some <==> self.keys().contains_key(desc@),
            r matches Some(key) ==> key == self.keys()[desc@],
    {
        match self.find_key(desc) {
            Some(i) => {
                proof {
                    lemma_entry(self.keys@, i as int);
                }
                Some(self.keys[i].1)
            },
            None => None,
        }
    }

    /// Keeps a font that was loaded by a description, under a key.
    pub fn store_font(&mut self, desc: FontDesc, key: FontKey, font: Font<F>) -> (r: Result<
        FontKey,
        Error,
    >)
        requires
            old(self).well_formed(),
        ensures
            r == Ok::<FontKey, Error>(key),
            final(self).well_formed(),
            final(self).stores(*old(self), desc@, key, font),
            final(self).keys() == old(self).keys().insert(desc@, key),
            final(self).fonts() == old(self).fonts().insert(key.token, font),
            final(self).falls_back() == old(self).falls_back(),
            final(self).decomposes_colors() == old(self).decomposes_colors(),
            old(self).consistent() && !old(self).keys().contains_key(desc@)
                && !old(self).fonts().contains_key(key.token) ==> final(self).consistent(),
    {
        broadcast use vstd::std_specs::hash::group_hash_axioms;

        let ghost before = self.keys@;
        let ghost described = desc@;
        match self.find_key(&desc) {
            Some(i) => {
                self.keys[i].1 = key;
                proof {
                    lemma_insert(before, self.keys@, i as int);
                }
            },
            None => {
                self.keys.push((desc, key));
                proof {
                    lemma_insert(before, self.keys@, before.len() as int);
                }
            },
        }
        self.fonts.insert(key.token, font);
        proof {
            if old(self).consistent() && !old(self).keys().contains_key(described)
                && !old(self).fonts().contains_key(key.token) {
                law_loading_keeps_maps_consistent(*old(self), *self, described, key, font);
            }
        }
        Ok(key)
    }

    /// Whether this rasterizer is `before` with a font added that was loaded by
    /// a description, under a key.
    pub open spec fn stores(
        self,
        before: DirectWriteRasterizer<F>,
        desc: crate::font::FontDescView,
        key: FontKey,
        font: Font<F>,
    ) -> bool {
        &&& self.keys() == before.keys().insert(desc, key)
        &&& self.fonts() == before.fonts().insert(key.token, font)
        &&& self.falls_back() == before.falls_back()
        &&& self.decomposes_colors() == before.decomposes_colors()
    }
}

/// Every key that a description is cached under has a loaded font.
pub proof fn law_cached_keys_have_fonts<F>(
    rasterizer: DirectWriteRasterizer<F>,
    desc: crate::font::FontDescView,
)
    requires
        rasterizer.well_formed(),
        rasterizer.keys().contains_key(desc),
    ensures
        rasterizer.fonts().contains_key(rasterizer.keys()[desc].token),
{
    let pairs = rasterizer.keys@;
    let i = choose|i: int| 0 <= i < pairs.len() && (#[trigger] pairs[i]).0@ == desc;
    lemma_entry(pairs, i);
}

/// What was stored by a description under a key is found by both.
pub proof fn law_stored_font_is_found<F>(
    before: DirectWriteRasterizer<F>,
    after: DirectWriteRasterizer<F>,
    desc: crate::font::FontDescView,
    key: FontKey,
    font: Font<F>,
)
    requires
        after.stores(before, desc, key, font),
    ensures
        after.keys().contains_key(desc),
        after.keys()[desc] == key,
        after.fonts().contains_key(key.token),
        after.fonts()[key.token] == font,
{
}

/// Storing under a fresh key takes nothing away: every other description keeps
/// its key, every key that was in use keeps its font, and if no two
/// descriptions had one key before, none have after.
pub proof fn law_fresh_key_takes_nothing_away<F>(
    before: DirectWriteRasterizer<F>,
    after: DirectWriteRasterizer<F>,
    desc: crate::font::FontDescView,
    key: FontKey,
    font: Font<F>,
)
    requires
        before.well_formed(),
        !before.fonts().contains_key(key.token),
        after.stores(before, desc, key, font),
    ensures
        forall|d: crate::font::FontDescView|
            d != desc && #[trigger] before.keys().contains_key(d) ==> after.keys().contains_key(d)
                && after.keys()[d] == before.keys()[d],
        forall|token: u32| #[trigger]
            before.fonts().contains_key(token) ==> after.fonts().contains_key(token)
                && after.fonts()[token] == before.fonts()[token],
        before.keys().is_injective() ==> after.keys().is_injective(),
{
    if before.keys().is_injective() {
        assert forall|d: crate::font::FontDescView, e: crate::font::FontDescView|
            d != e && after.keys().dom().contains(d) && after.keys().dom().contains(
                e,
            ) implies #[trigger] after.keys()[d] != #[trigger] after.keys()[e] by {
            if d == desc {
                law_cached_keys_have_fonts(before, e);
            } else if e == desc {
                law_cached_keys_have_fonts(before, d);
            } else {
                assert(before.keys()[d] != before.keys()[e]);
            }
        }
    }
}

/// A rasterizer without fonts is consistent.
pub proof fn law_no_fonts_are_consistent<F>(rasterizer: DirectWriteRasterizer<F>)
    requires
        rasterizer.keys() == Map::<crate::font::FontDescView, FontKey>::empty(),
        rasterizer.fonts() == Map::<u32, Font<F>>::empty(),
    ensures
        rasterizer.consistent(),
{
}

/// Storing a font under a fresh key, by a description that had none, keeps the
/// two maps consistent.
pub proof fn law_loading_keeps_maps_consistent<F>(
    before: DirectWriteRasterizer<F>,
    after: DirectWriteRasterizer<F>,
    desc: crate::font::FontDescView,
    key: FontKey,
    font: Font<F>,
)
    requires
        before.consistent(),
        !before.keys().contains_key(desc),
        !before.fonts().contains_key(key.token),
        after.stores(before, desc, key, font),
    ensures
        after.consistent(),
{
    assert forall|d: crate::font::FontDescView, e: crate::font::FontDescView|
        d != e && after.keys().dom().contains(d) && after.keys().dom().contains(
            e,
        ) implies #[trigger] after.keys()[d] != #[trigger] after.keys()[e] by {
        if d == desc {
            assert(before.keys().contains_key(e));
            assert(before.has_token(before.keys()[e].token));
        } else if e == desc {
            assert(before.keys().contains_key(d));
            assert(before.has_token(before.keys()[d].token));
        } else {
            assert(before.keys()[d] != before.keys()[e]);
        }
    }
    assert forall|token: u32| #[trigger]
        after.fonts().contains_key(token) <==> after.has_token(token) by {
        if after.fonts().contains_key(token) {
            if token == key.token {
                assert(after.keys().contains_key(desc));
            } else {
                assert(before.fonts().contains_key(token));
                let d = choose|d: crate::font::FontDescView| #[trigger]
                    before.keys().contains_key(d) && before.keys()[d].token == token;
                assert(after.keys().contains_key(d));
            }
        }
        if after.has_token(token) {
            let d = choose|d: crate::font::FontDescView| #[trigger]
                after.keys().contains_key(d) && after.keys()[d].token == token;
            if d != desc {
                assert(before.keys().contains_key(d));
                assert(before.fonts().contains_key(token));
            }
        }
    }
}

/// The two maps agree in every state that is reached from a rasterizer without
/// fonts by any number of requests.
pub proof fn law_maps_agree_in_every_state<F>(states: Seq<DirectWriteRasterizer<F>>, i: int)
    requires
        states.len() > 0,
        states[0].keys() == Map::<crate::font::FontDescView, FontKey>::empty(),
        states[0].fonts() == Map::<u32, Font<F>>::empty(),
        forall|k: int, n: int|
            0 <= k && n == k + 1 && n < states.len() ==> (#[trigger] states[n]).follows(
                #[trigger] states[k],
            ),
        0 <= i < states.len(),
    ensures
        states[i].consistent(),
    decreases i,
{
    if i == 0 {
        law_no_fonts_are_consistent(states[0]);
    } else {
        let before = states[i - 1];
        let after = states[i];
        law_maps_agree_in_every_state(states, i - 1);
        assert(after.follows(before));
        if after.keys() == before.keys() && after.fonts() == before.fonts() {
            assert forall|token: u32| #[trigger]
                after.fonts().contains_key(token) <==> after.has_token(token) by {
                assert(before.fonts().contains_key(token) <==> before.has_token(token));
                assert(before.has_token(token) <==> after.has_token(token));
            }
        } else {
            let (desc, key, font) = choose|
                desc: crate::font::FontDescView,
                key: FontKey,
                font: Font<F>,
            |
                {
                    &&& !before.keys().contains_key(desc)
                    &&& !before.fonts().contains_key(key.token)
                    &&& #[trigger] after.stores(before, desc, key, font)
                };
            law_loading_keeps_maps_consistent(before, after, desc, key, font);
        }
    }
}

/// There are as many loaded fonts as there are keys.
pub proof fn law_as_many_fonts_as_keys<F>(rasterizer: DirectWriteRasterizer<F>)
    requires
        rasterizer.well_formed(),
        rasterizer.consistent(),
    ensures
        rasterizer.keys().dom().finite(),
        rasterizer.fonts().dom().finite(),
        rasterizer.keys().len() == rasterizer.fonts().len(),
{
    let pairs = rasterizer.keys@;
    let keys = rasterizer.keys();
    let fonts = rasterizer.fonts();
    lemma_finite(pairs);
    let token = |desc: crate::font::FontDescView| keys[desc].token;
    assert forall|d: crate::font::FontDescView, e: crate::font::FontDescView|
        keys.dom().contains(d) && keys.dom().contains(e) && #[trigger] token(d)
            == #[trigger] token(e) implies d == e by {
        if d != e {
            assert(keys[d] != keys[e]);
        }
    }
    assert(keys.dom().map(token) =~= fonts.dom()) by {
        assert forall|t: u32| #[trigger] keys.dom().map(token).contains(t) <==> fonts.dom().contains(
            t,
        ) by {
            if fonts.dom().contains(t) {
                assert(fonts.contains_key(t));
                let d = choose|d: crate::font::FontDescView| #[trigger]
                    keys.contains_key(d) && keys[d].token == t;
                assert(keys.dom().contains(d) && token(d) == t);
            }
            if keys.dom().map(token).contains(t) {
                let d = choose|d: crate::font::FontDescView| #[trigger]
                    keys.dom().contains(d) && t == token(d);
                assert(keys.contains_key(d));
                assert(rasterizer.has_token(t));
                assert(fonts.contains_key(t));
            }
        }
    }
    vstd::set_lib::lemma_map_size(keys.dom(), fonts.dom(), token);
}

/// Finitely many pairs have finitely many descriptions.
proof fn lemma_finite(pairs: Seq<(FontDesc, FontKey)>)
    ensures
        by_description(pairs).dom().finite(),
{
    let descs = Seq::new(pairs.len(), |i: int| pairs[i].0@);
    broadcast use vstd::seq_lib::seq_to_set_is_finite;

    assert forall|d: crate::font::FontDescView| #[trigger]
        by_description(pairs).dom().contains(d) implies descs.to_set().contains(d) by {
        let i = choose|i: int| 0 <= i < pairs.len() && (#[trigger] pairs[i]).0@ == d;
        assert(descs[i] == d);
    }
    assert(by_description(pairs).dom().subset_of(descs.to_set()));
    vstd::set_lib::lemma_set_subset_finite(descs.to_set(), by_description(pairs).dom());
}

/// Storing a font changes nothing but what is stored: a description has a key
/// afterwards if and only if it had one or is the one that was stored by, and
/// every other keeps its own; a token has a font if and only if it had one or is
/// that of the key, and every other keeps its own; and what the system offers
/// stays as it was.
pub proof fn law_storing_changes_nothing_else<F>(
    before: DirectWriteRasterizer<F>,
    after: DirectWriteRasterizer<F>,
    desc: crate::font::FontDescView,
    key: FontKey,
    font: Font<F>,
    other: crate::font::FontDescView,
    token: u32,
)
    requires
        after.stores(before, desc, key, font),
    ensures
        after.keys().contains_key(other) <==> before.keys().contains_key(other) || other == desc,
        before.keys().contains_key(other) && other != desc ==> after.keys()[other]
            == before.keys()[other],
        after.keys()[desc] == key,
        after.fonts().contains_key(token) <==> before.fonts().contains_key(token) || token
            == key.token,
        before.fonts().contains_key(token) && token != key.token ==> after.fonts()[token]
            == before.fonts()[token],
        after.fonts()[key.token] == font,
        after.falls_back() == before.falls_back(),
        after.decomposes_colors() == before.decomposes_colors(),
{
}

/// What a request leaves of a rasterizer has every key and every font that it
/// had before.
pub proof fn law_requests_take_nothing_away<F>(
    before: DirectWriteRasterizer<F>,
    after: DirectWriteRasterizer<F>,
    desc: crate::font::FontDescView,
    token: u32,
)
    requires
        after.follows(before),
    ensures
        before.keys().contains_key(desc) ==> after.keys().contains_key(desc) && after.keys()[desc]
            == before.keys()[desc],
        before.fonts().contains_key(token) ==> after.fonts().contains_key(token)
            && after.fonts()[token] == before.fonts()[token],
{
}

/// The two maps agree if and only if no two descriptions have one key, every key
/// of a description has a font, and every font has a key that some description
/// has.
pub proof fn law_agreement_of_the_maps<F>(rasterizer: DirectWriteRasterizer<F>)
    ensures
        rasterizer.consistent() <==> {
            &&& forall|d: crate::font::FontDescView, e: crate::font::FontDescView|
                #[trigger] rasterizer.keys().contains_key(d)
                    && #[trigger] rasterizer.keys().contains_key(e) && rasterizer.keys()[d].token
                    == rasterizer.keys()[e].token ==> d == e
            &&& forall|d: crate::font::FontDescView| #[trigger]
                rasterizer.keys().contains_key(d) ==> rasterizer.fonts().contains_key(
                    rasterizer.keys()[d].token,
                )
            &&& forall|token: u32| #[trigger]
                rasterizer.fonts().contains_key(token) ==> exists|d: crate::font::FontDescView|
                    #[trigger] rasterizer.keys().contains_key(d) && rasterizer.keys()[d].token
                        == token
        },
{
    let keys = rasterizer.keys();
    if rasterizer.consistent() {
        assert forall|d: crate::font::FontDescView, e: crate::font::FontDescView|
            #[trigger] keys.contains_key(d) && #[trigger] keys.contains_key(e) && keys[d].token
                == keys[e].token implies d == e by {
            if d != e {
                assert(keys[d] != keys[e]);
            }
        }
        assert forall|d: crate::font::FontDescView| #[trigger]
            keys.contains_key(d) implies rasterizer.fonts().contains_key(keys[d].token) by {
            assert(rasterizer.has_token(keys[d].token));
        }
        assert forall|token: u32| #[trigger]
            rasterizer.fonts().contains_key(token) implies exists|d: crate::font::FontDescView|
            #[trigger] keys.contains_key(d) && keys[d].token == token by {
            assert(rasterizer.has_token(token));
        }
    }
}

} // verus!
