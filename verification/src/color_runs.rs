//! Which color runs of a glyph become layers.
//!
//! DirectWrite decomposes a color glyph into runs of one color each, and hands
//! them out one by one. Each step below says what to ask of DirectWrite next;
//! the answer leads to the step after it. Any error on the way leaves the glyph
//! without layers.

use crate::bounds::Bounds;
use crate::glyph_run::RenderSetup;
use crate::layer::{ColorRun, Layer};
use vstd::prelude::*;

verus! {

/// What to do next while the color runs of a glyph are taken in.
#[derive(Debug)]
pub enum ColorStep {
    /// Move the enumerator to the next run.
    MoveNext(NextRun),
    /// Get the run that the enumerator stands at.
    GetCurrentRun(CurrentRun),
    /// Create the analysis of that run.
    Analyze(RunAnalysis),
    /// Get the bounds of the run's texture.
    GetBounds(RunBounds),
    /// Create the run's texture within these bounds.
    CreateTexture(RunTexture),
    /// Release the enumerator. These are the layers, from back to front, or
    /// `None` if a call failed.
    Release(Option<Vec<Layer>>),
}

/// What has been taken in so far: the layers, from back to front, and how they
/// are rendered.
#[derive(Debug)]
pub struct Progress {
    pub setup: RenderSetup,
    pub layers: Vec<Layer>,
}

/// Waits for the enumerator to move.
#[derive(Debug)]
pub struct NextRun {
    pub progress: Progress,
}

/// Waits for the current run.
#[derive(Debug)]
pub struct CurrentRun {
    pub progress: Progress,
}

/// Waits for the analysis of a run.
#[derive(Debug)]
pub struct RunAnalysis {
    pub progress: Progress,
    pub run: ColorRun,
}

/// Waits for the bounds of a run.
#[derive(Debug)]
pub struct RunBounds {
    pub progress: Progress,
    pub run: ColorRun,
}

/// Waits for the texture of a run.
#[derive(Debug)]
pub struct RunTexture {
    pub progress: Progress,
    pub run: ColorRun,
    pub bounds: Bounds,
}

/// What has been taken in, as a mathematical value.
pub struct ProgressView {
    pub setup: RenderSetup,
    pub layers: Seq<Layer>,
}

impl View for Progress {
    type V = ProgressView;

    open spec fn view(&self) -> ProgressView {
        ProgressView { setup: self.setup, layers: self.layers@ }
    }
}

impl ProgressView {
    /// Nothing has been taken in.
    pub open spec fn begun(setup: RenderSetup) -> ProgressView {
        ProgressView { setup, layers: Seq::empty() }
    }

    /// One more layer has been taken in, in front of the others.
    pub open spec fn with(self, layer: Layer) -> ProgressView {
        ProgressView { setup: self.setup, layers: self.layers.push(layer) }
    }
}

/// A step as a mathematical value.
pub enum ColorStepView {
    MoveNext(ProgressView),
    GetCurrentRun(ProgressView),
    Analyze(ProgressView, ColorRun),
    GetBounds(ProgressView, ColorRun),
    CreateTexture(ProgressView, ColorRun, Bounds),
    Release(Option<Seq<Layer>>),
}

impl View for ColorStep {
    type V = ColorStepView;

    open spec fn view(&self) -> ColorStepView {
        match *self {
            ColorStep::MoveNext(s) => ColorStepView::MoveNext(s.progress@),
            ColorStep::GetCurrentRun(s) => ColorStepView::GetCurrentRun(s.progress@),
            ColorStep::Analyze(s) => ColorStepView::Analyze(s.progress@, s.run),
            ColorStep::GetBounds(s) => ColorStepView::GetBounds(s.progress@, s.run),
            ColorStep::CreateTexture(s) => ColorStepView::CreateTexture(
                s.progress@,
                s.run,
                s.bounds,
            ),
            ColorStep::Release(Some(layers)) => ColorStepView::Release(Some(layers@)),
            ColorStep::Release(None) => ColorStepView::Release(None),
        }
    }
}

/// Whether translating a glyph run gave color runs to enumerate: the call
/// succeeded and handed out an enumerator.
pub open spec fn is_color_glyph(hr: i32, has_enumerator: bool) -> bool {
    &&& hr != crate::hresult::DWRITE_E_NOCOLOR
    &&& crate::hresult::is_success(hr)
    &&& has_enumerator
}

/// The step after the enumerator was told to move.
pub open spec fn after_move(progress: ProgressView, hr: i32, has_run: i32) -> ColorStepView {
    if !crate::hresult::is_success(hr) {
        ColorStepView::Release(None)
    } else if has_run == 0 {
        ColorStepView::Release(Some(progress.layers))
    } else {
        ColorStepView::GetCurrentRun(progress)
    }
}

/// The step after the current run was asked for.
pub open spec fn after_current_run(
    progress: ProgressView,
    hr: i32,
    run: Option<ColorRun>,
) -> ColorStepView {
    if crate::hresult::is_success(hr) && run is Some {
        ColorStepView::Analyze(progress, run->0)
    } else {
        ColorStepView::Release(None)
    }
}

/// The step after a run was analyzed.
pub open spec fn after_analysis(
    progress: ProgressView,
    run: ColorRun,
    analysis: Result<(), i32>,
) -> ColorStepView {
    if analysis is Ok {
        ColorStepView::GetBounds(progress, run)
    } else {
        ColorStepView::Release(None)
    }
}

/// The step after the bounds of a run were asked for.
pub open spec fn after_bounds(
    progress: ProgressView,
    run: ColorRun,
    bounds: Result<Bounds, i32>,
) -> ColorStepView {
    match bounds {
        Ok(bounds) => if bounds.empty() {
            ColorStepView::MoveNext(progress)
        } else {
            ColorStepView::CreateTexture(progress, run, bounds)
        },
        Err(_) => ColorStepView::Release(None),
    }
}

/// The step after the texture of a run was created.
pub open spec fn after_texture(
    progress: ProgressView,
    run: ColorRun,
    bounds: Bounds,
    texture: Result<Vec<u8>, i32>,
) -> ColorStepView {
    match texture {
        Ok(coverage) => ColorStepView::MoveNext(
            progress.with(Layer { bounds, coverage, color: run.paint() }),
        ),
        Err(_) => ColorStepView::Release(None),
    }
}

/// Begins to take in the color runs of a glyph.
///
/// `hr` is what translating the glyph run returned, and `has_enumerator` is
/// whether it handed out an enumerator. There is nothing to take in if the
/// glyph has no color layers, or on any error.
pub fn translate_color_glyph_run(hr: i32, has_enumerator: bool, setup: RenderSetup) -> (step:
    Option<ColorStep>)
    ensures
        step is Some <==> is_color_glyph(hr, has_enumerator),
        step matches Some(s) ==> s@ == ColorStepView::MoveNext(ProgressView::begun(setup)),
        step is Some <==> hr >= 0 && has_enumerator,
        step matches Some(s) ==> (s matches ColorStep::MoveNext(next) && {
            &&& next.progress.setup == setup
            &&& next.progress.layers@.len() == 0
        }),
{
    if hr == crate::hresult::DWRITE_E_NOCOLOR || !crate::hresult::succeeded(hr)
        || !has_enumerator {
        return None;
    }
    let layers: Vec<Layer> = Vec::new();
    Some(ColorStep::MoveNext(NextRun { progress: Progress { setup, layers } }))
}

impl NextRun {
    /// Takes in whether the enumerator moved to a run.
    pub fn moved(self, hr: i32, has_run: i32) -> (step: ColorStep)
        ensures
            step@ == after_move(self.progress@, hr, has_run),
            hr < 0 ==> (step matches ColorStep::Release(layers) && layers is None),
            hr >= 0 && has_run == 0 ==> (step matches ColorStep::Release(Some(layers)) && layers
                == self.progress.layers),
            hr >= 0 && has_run != 0 ==> (step matches ColorStep::GetCurrentRun(s) && s.progress
                == self.progress),
    {
        if !crate::hresult::succeeded(hr) {
            ColorStep::Release(None)
        } else if has_run == 0 {
            ColorStep::Release(Some(self.progress.layers))
        } else {
            ColorStep::GetCurrentRun(CurrentRun { progress: self.progress })
        }
    }
}

impl CurrentRun {
    /// Takes in the current run, which is `None` if the call handed out none.
    pub fn got(self, hr: i32, run: Option<ColorRun>) -> (step: ColorStep)
        ensures
            step@ == after_current_run(self.progress@, hr, run),
            hr < 0 || run is None ==> (step matches ColorStep::Release(layers) && layers is None),
            hr >= 0 && run is Some ==> (step matches ColorStep::Analyze(s) && s.progress
                == self.progress && s.run == run->0),
    {
        if !crate::hresult::succeeded(hr) {
            return ColorStep::Release(None);
        }
        match run {
            Some(run) => ColorStep::Analyze(RunAnalysis { progress: self.progress, run }),
            None => ColorStep::Release(None),
        }
    }
}

impl RunAnalysis {
    /// Takes in whether the analysis was created.
    pub fn analyzed(self, analysis: Result<(), i32>) -> (step: ColorStep)
        ensures
            step@ == after_analysis(self.progress@, self.run, analysis),
            analysis is Err ==> (step matches ColorStep::Release(layers) && layers is None),
            analysis is Ok ==> (step matches ColorStep::GetBounds(s) && s.progress == self.progress
                && s.run == self.run),
    {
        match analysis {
            Ok(_) => ColorStep::GetBounds(RunBounds { progress: self.progress, run: self.run }),
            Err(_) => ColorStep::Release(None),
        }
    }
}

impl RunBounds {
    /// Takes in the bounds of the run's texture. A run without pixels is
    /// passed over.
    pub fn measured(self, bounds: Result<Bounds, i32>) -> (step: ColorStep)
        ensures
            step@ == after_bounds(self.progress@, self.run, bounds),
            match bounds {
                Err(_) => step matches ColorStep::Release(layers) && layers is None,
                Ok(b) => if b.left < b.right && b.top < b.bottom {
                    step matches ColorStep::CreateTexture(s) && {
                        &&& s.progress == self.progress
                        &&& s.run == self.run
                        &&& s.bounds == b
                    }
                } else {
                    step matches ColorStep::MoveNext(s) && s.progress == self.progress
                },
            },
    {
        match bounds {
            Ok(bounds) => {
                if bounds.is_empty() {
                    ColorStep::MoveNext(NextRun { progress: self.progress })
                } else {
                    ColorStep::CreateTexture(
                        RunTexture { progress: self.progress, run: self.run, bounds },
                    )
                }
            },
            Err(_) => ColorStep::Release(None),
        }
    }
}

impl RunTexture {
    /// Takes in the texture of the run.
    pub fn textured(self, texture: Result<Vec<u8>, i32>) -> (step: ColorStep)
        ensures
            step@ == after_texture(self.progress@, self.run, self.bounds, texture),
            match texture {
                Err(_) => step matches ColorStep::Release(layers) && layers is None,
                Ok(coverage) => step matches ColorStep::MoveNext(s) && {
                    &&& s.progress.setup == self.progress.setup
                    &&& s.progress.layers@.len() == self.progress.layers@.len() + 1
                    &&& s.progress.layers@.drop_last() == self.progress.layers@
                    &&& s.progress.layers@.last().bounds == self.bounds
                    &&& s.progress.layers@.last().coverage == coverage
                    &&& self.run.palette_index != 0xFFFF ==> s.progress.layers@.last().color
                        == self.run.color
                    &&& self.run.palette_index == 0xFFFF ==> {
                        &&& s.progress.layers@.last().color.r == 0x3F80_0000
                        &&& s.progress.layers@.last().color.g == 0x3F80_0000
                        &&& s.progress.layers@.last().color.b == 0x3F80_0000
                        &&& s.progress.layers@.last().color.a == 0x3F80_0000
                    }
                },
            },
    {
        match texture {
            Ok(coverage) => {
                let color = self.run.layer_color();
                let setup = self.progress.setup;
                let mut layers: Vec<Layer> = self.progress.layers;
                layers.push(Layer { bounds: self.bounds, coverage, color });
                ColorStep::MoveNext(NextRun { progress: Progress { setup, layers } })
            },
            Err(_) => ColorStep::Release(None),
        }
    }
}

/// What DirectWrite answers from one move of the enumerator to the next. An
/// answer to a question that is not asked is without consequence.
pub struct RunAnswers {
    pub moved: (i32, i32),
    pub current: (i32, Option<ColorRun>),
    pub analysis: Result<(), i32>,
    pub bounds: Result<Bounds, i32>,
    pub texture: Result<Vec<u8>, i32>,
}

/// What becomes of a run.
pub enum RunFate {
    /// There are no more runs.
    End,
    /// A call failed.
    Failed,
    /// The run has no pixels.
    Skipped,
    /// The run becomes a layer.
    Kept(Layer),
}

impl RunAnswers {
    /// What becomes of the run.
    pub open spec fn fate(self) -> RunFate {
        if !crate::hresult::is_success(self.moved.0) {
            RunFate::Failed
        } else if self.moved.1 == 0 {
            RunFate::End
        } else if !crate::hresult::is_success(self.current.0) || self.current.1 is None
            || self.analysis is Err || self.bounds is Err {
            RunFate::Failed
        } else if self.bounds->Ok_0.empty() {
            RunFate::Skipped
        } else if self.texture is Err {
            RunFate::Failed
        } else {
            RunFate::Kept(
                Layer {
                    bounds: self.bounds->Ok_0,
                    coverage: self.texture->Ok_0,
                    color: (self.current.1->0).paint(),
                },
            )
        }
    }

    /// The step that answers a step.
    pub open spec fn answered(self, step: ColorStepView) -> ColorStepView {
        match step {
            ColorStepView::MoveNext(progress) => after_move(
                progress,
                self.moved.0,
                self.moved.1,
            ),
            ColorStepView::GetCurrentRun(progress) => after_current_run(
                progress,
                self.current.0,
                self.current.1,
            ),
            ColorStepView::Analyze(progress, run) => after_analysis(progress, run, self.analysis),
            ColorStepView::GetBounds(progress, run) => after_bounds(progress, run, self.bounds),
            ColorStepView::CreateTexture(progress, run, bounds) => after_texture(
                progress,
                run,
                bounds,
                self.texture,
            ),
            ColorStepView::Release(_) => step,
        }
    }

    /// The step at which answering stops: at the next move, or at the end.
    pub open spec fn settled(self, step: ColorStepView) -> ColorStepView
        decreases
                match step {
                    ColorStepView::GetCurrentRun(_) => 4int,
                    ColorStepView::Analyze(_, _) => 3,
                    ColorStepView::GetBounds(_, _) => 2,
                    ColorStepView::CreateTexture(_, _, _) => 1,
                    _ => 0,
                },
    {
        match step {
            ColorStepView::MoveNext(_) => step,
            ColorStepView::Release(_) => step,
            _ => self.settled(self.answered(step)),
        }
    }

    /// The step after one move of the enumerator and all that follows from it.
    pub open spec fn round(self, progress: ProgressView) -> ColorStepView {
        self.settled(self.answered(ColorStepView::MoveNext(progress)))
    }
}

/// The layers that are released in the end, if DirectWrite answers in turn as
/// `answers` says, and after that has no more runs.
pub open spec fn released(progress: ProgressView, answers: Seq<RunAnswers>) -> Option<Seq<Layer>>
    decreases answers.len(),
{
    if answers.len() == 0 {
        Some(progress.layers)
    } else {
        match answers[0].round(progress) {
            ColorStepView::MoveNext(more) => released(more, answers.drop_first()),
            ColorStepView::Release(all) => all,
            _ => arbitrary(),
        }
    }
}

/// The layers of a glyph, if translating its run returns `hr` and hands out an
/// enumerator or not, and its runs are answered in turn as `answers` says.
pub open spec fn layers_of(
    hr: i32,
    has_enumerator: bool,
    setup: RenderSetup,
    answers: Seq<RunAnswers>,
) -> Option<Seq<Layer>> {
    if is_color_glyph(hr, has_enumerator) {
        released(ProgressView::begun(setup), answers)
    } else {
        None
    }
}

/// The layers of the runs that are kept, up to the end, in their order; none if
/// a call fails before that.
pub open spec fn kept(answers: Seq<RunAnswers>) -> Option<Seq<Layer>>
    decreases answers.len(),
{
    if answers.len() == 0 {
        Some(Seq::empty())
    } else {
        match answers[0].fate() {
            RunFate::End => Some(Seq::empty()),
            RunFate::Failed => None,
            RunFate::Skipped => kept(answers.drop_first()),
            RunFate::Kept(layer) => match kept(answers.drop_first()) {
                Some(layers) => Some(seq![layer] + layers),
                None => None,
            },
        }
    }
}

/// Whether the enumeration has not ended before it comes to a run.
pub open spec fn comes_to(answers: Seq<RunAnswers>, k: int) -> bool {
    &&& 0 <= k < answers.len()
    &&& forall|j: int| 0 <= j < k ==> (#[trigger] answers[j]).fate() !is End
}

/// Whether a call fails before the enumeration ends.
pub open spec fn some_call_fails(answers: Seq<RunAnswers>) -> bool {
    exists|k: int| #[trigger] comes_to(answers, k) && answers[k].fate() is Failed
}

/// Whether some run that the enumeration comes to has pixels to paint.
pub open spec fn some_run_is_kept(answers: Seq<RunAnswers>) -> bool {
    exists|k: int| #[trigger] comes_to(answers, k) && answers[k].fate() is Kept
}

/// One move of the enumerator ends the enumeration, leaves the layers as they
/// are, or adds the layer of the run in front of them; if a call fails, there
/// are no layers.
pub proof fn law_round_follows_fate(progress: ProgressView, answers: RunAnswers)
    ensures
        answers.round(progress) == match answers.fate() {
            RunFate::End => ColorStepView::Release(Some(progress.layers)),
            RunFate::Failed => ColorStepView::Release(None),
            RunFate::Skipped => ColorStepView::MoveNext(progress),
            RunFate::Kept(layer) => ColorStepView::MoveNext(progress.with(layer)),
        },
{
    reveal_with_fuel(RunAnswers::settled, 6);
}

/// The layers of a glyph are those of the runs that have pixels, in the order
/// in which DirectWrite hands the runs out; and there are none on any error.
pub proof fn law_layers_keep_paint_order(setup: RenderSetup, answers: Seq<RunAnswers>)
    ensures
        released(ProgressView::begun(setup), answers) == kept(answers),
{
    lemma_released(ProgressView::begun(setup), answers);
    match kept(answers) {
        Some(layers) => {
            assert(Seq::<Layer>::empty() + layers =~= layers);
        },
        None => {},
    }
}

proof fn lemma_released(progress: ProgressView, answers: Seq<RunAnswers>)
    ensures
        released(progress, answers) == match kept(answers) {
            Some(layers) => Some(progress.layers + layers),
            None => None,
        },
    decreases answers.len(),
{
    assert(progress.layers + Seq::<Layer>::empty() =~= progress.layers);
    if answers.len() > 0 {
        let rest = answers.drop_first();
        law_round_follows_fate(progress, answers[0]);
        match answers[0].fate() {
            RunFate::End => {},
            RunFate::Failed => {},
            RunFate::Skipped => {
                lemma_released(progress, rest);
            },
            RunFate::Kept(layer) => {
                lemma_released(progress.with(layer), rest);
                match kept(rest) {
                    Some(more) => {
                        assert(progress.layers.push(layer) + more =~= progress.layers + (
                        seq![layer] + more));
                    },
                    None => {},
                }
            },
        }
    }
}

/// There are no layers to composite if and only if a call fails: moving on,
/// getting a run, analyzing it, measuring it, or creating its texture.
pub proof fn law_any_error_leaves_no_layers(answers: Seq<RunAnswers>)
    ensures
        kept(answers) is None <==> some_call_fails(answers),
    decreases answers.len(),
{
    if answers.len() > 0 {
        let rest = answers.drop_first();
        law_any_error_leaves_no_layers(rest);
        lemma_comes_to_rest(answers);
        if answers[0].fate() is Failed {
            assert(comes_to(answers, 0));
        }
        if some_call_fails(answers) && answers[0].fate() !is Failed {
            let k = choose|k: int| #[trigger] comes_to(answers, k) && answers[k].fate() is Failed;
            assert(comes_to(rest, k - 1));
        }
        if some_call_fails(rest) && answers[0].fate() !is End {
            let k = choose|k: int| #[trigger] comes_to(rest, k) && rest[k].fate() is Failed;
            assert(comes_to(answers, k + 1));
        }
    }
}

/// If no call fails, there is a layer if and only if some run has pixels.
pub proof fn law_layers_come_from_runs_with_pixels(answers: Seq<RunAnswers>)
    requires
        !some_call_fails(answers),
    ensures
        kept(answers) is Some,
        kept(answers)->0.len() > 0 <==> some_run_is_kept(answers),
    decreases answers.len(),
{
    law_any_error_leaves_no_layers(answers);
    if answers.len() > 0 {
        let rest = answers.drop_first();
        lemma_comes_to_rest(answers);
        match answers[0].fate() {
            RunFate::End => {},
            RunFate::Failed => {},
            RunFate::Skipped => {
                law_any_error_leaves_no_layers(rest);
                law_layers_come_from_runs_with_pixels(rest);
                if some_run_is_kept(answers) {
                    let k = choose|k: int| #[trigger]
                        comes_to(answers, k) && answers[k].fate() is Kept;
                    assert(comes_to(rest, k - 1));
                }
                if some_run_is_kept(rest) {
                    let k = choose|k: int| #[trigger] comes_to(rest, k) && rest[k].fate() is Kept;
                    assert(comes_to(answers, k + 1));
                }
            },
            RunFate::Kept(layer) => {
                assert(comes_to(answers, 0));
            },
        }
    }
}

/// Which runs the enumeration comes to behind the first one.
proof fn lemma_comes_to_rest(answers: Seq<RunAnswers>)
    requires
        answers.len() > 0,
    ensures
        forall|k: int|
            k > 0 ==> (#[trigger] comes_to(answers, k) <==> answers[0].fate() !is End && comes_to(
                answers.drop_first(),
                k - 1,
            )),
{
    let rest = answers.drop_first();
    assert forall|k: int| k > 0 implies (#[trigger] comes_to(answers, k) <==> answers[0].fate()
        !is End && comes_to(rest, k - 1)) by {
        if comes_to(answers, k) {
            assert forall|j: int| 0 <= j < k - 1 implies (#[trigger] rest[j]).fate() !is End by {
                assert(rest[j] == answers[j + 1]);
            }
        }
        if answers[0].fate() !is End && comes_to(rest, k - 1) {
            assert forall|j: int| 0 <= j < k implies (#[trigger] answers[j]).fate() !is End by {
                if j > 0 {
                    assert(rest[j - 1] == answers[j]);
                }
            }
        }
    }
}

/// The answers without those on runs that have no pixels.
pub open spec fn without_empty_runs(answers: Seq<RunAnswers>) -> Seq<RunAnswers>
    decreases answers.len(),
{
    if answers.len() == 0 {
        Seq::empty()
    } else if answers[0].fate() is Skipped {
        without_empty_runs(answers.drop_first())
    } else {
        seq![answers[0]] + without_empty_runs(answers.drop_first())
    }
}

/// Runs without pixels change nothing, wherever they stand: taking all of them
/// out leaves the same layers.
pub proof fn law_empty_runs_change_no_layers(answers: Seq<RunAnswers>)
    ensures
        kept(without_empty_runs(answers)) == kept(answers),
    decreases answers.len(),
{
    if answers.len() > 0 {
        let rest = answers.drop_first();
        law_empty_runs_change_no_layers(rest);
        if answers[0].fate() !is Skipped {
            let shorter = without_empty_runs(answers);
            assert(shorter[0] == answers[0]);
            assert(shorter.drop_first() =~= without_empty_runs(rest));
        }
    }
}

/// Whether the second runs are the first ones and, at any places among them,
/// runs without pixels.
pub open spec fn adds_empty_runs(first: Seq<RunAnswers>, second: Seq<RunAnswers>) -> bool
    decreases second.len(),
{
    if second.len() == 0 {
        first.len() == 0
    } else {
        ||| {
            &&& first.len() > 0
            &&& first[0] == second[0]
            &&& adds_empty_runs(first.drop_first(), second.drop_first())
        }
        ||| {
            &&& second[0].fate() is Skipped
            &&& adds_empty_runs(first, second.drop_first())
        }
    }
}

/// A run is without pixels if no call fails on it, up to measuring it, and its
/// texture bounds are empty; and in no other case.
pub proof fn law_empty_bounds_make_an_empty_run(answers: RunAnswers)
    ensures
        answers.fate() is Skipped <==> {
            &&& crate::hresult::is_success(answers.moved.0)
            &&& answers.moved.1 != 0
            &&& crate::hresult::is_success(answers.current.0)
            &&& answers.current.1 is Some
            &&& answers.analysis is Ok
            &&& answers.bounds is Ok
            &&& (answers.bounds->Ok_0.right <= answers.bounds->Ok_0.left
                || answers.bounds->Ok_0.bottom <= answers.bounds->Ok_0.top)
        },
{
}

/// Adding runs without pixels, at any places, changes no layers.
pub proof fn law_adding_empty_runs_changes_no_layers(
    first: Seq<RunAnswers>,
    second: Seq<RunAnswers>,
)
    requires
        adds_empty_runs(first, second),
    ensures
        without_empty_runs(first) == without_empty_runs(second),
        kept(first) == kept(second),
    decreases second.len(),
{
    if second.len() > 0 {
        let rest = second.drop_first();
        if first.len() > 0 && first[0] == second[0] && adds_empty_runs(first.drop_first(), rest) {
            law_adding_empty_runs_changes_no_layers(first.drop_first(), rest);
        } else {
            law_adding_empty_runs_changes_no_layers(first, rest);
        }
    }
    law_empty_runs_change_no_layers(first);
    law_empty_runs_change_no_layers(second);
}

/// One more run without pixels, at any place, changes nothing.
pub proof fn law_inserting_an_empty_run_changes_no_layers(
    before: Seq<RunAnswers>,
    empty: RunAnswers,
    behind: Seq<RunAnswers>,
)
    requires
        empty.fate() is Skipped,
    ensures
        without_empty_runs(before.push(empty) + behind) == without_empty_runs(before + behind),
        kept(before.push(empty) + behind) == kept(before + behind),
    decreases before.len(),
{
    let more = before.push(empty) + behind;
    let less = before + behind;
    if before.len() == 0 {
        assert(more.drop_first() =~= behind);
        assert(less =~= behind);
    } else {
        let rest = before.drop_first();
        assert(more.drop_first() =~= rest.push(empty) + behind);
        assert(less.drop_first() =~= rest + behind);
        law_inserting_an_empty_run_changes_no_layers(rest, empty, behind);
    }
    law_empty_runs_change_no_layers(more);
    law_empty_runs_change_no_layers(less);
}

/// Every layer has pixels.
pub proof fn law_layers_are_not_empty(answers: Seq<RunAnswers>, i: int)
    requires
        kept(answers) is Some,
        0 <= i < kept(answers)->0.len(),
    ensures
        !kept(answers)->0[i].bounds.empty(),
    decreases answers.len(),
{
    let rest = answers.drop_first();
    match answers[0].fate() {
        RunFate::End => {},
        RunFate::Failed => {},
        RunFate::Skipped => {
            law_layers_are_not_empty(rest, i);
        },
        RunFate::Kept(layer) => {
            if i > 0 {
                law_layers_are_not_empty(rest, i - 1);
            }
        },
    }
}

/// If every texture has three bytes for each pixel of its bounds, every layer
/// has a coverage for each of its pixels.
pub proof fn law_full_textures_make_well_formed_layers(answers: Seq<RunAnswers>, i: int)
    requires
        forall|k: int|
            0 <= k < answers.len() && (#[trigger] answers[k]).bounds is Ok
                && answers[k].texture is Ok ==> answers[k].bounds->Ok_0.width()
                * answers[k].bounds->Ok_0.height() * 3 <= answers[k].texture->Ok_0@.len(),
        kept(answers) is Some,
        0 <= i < kept(answers)->0.len(),
    ensures
        kept(answers)->0[i].well_formed(),
    decreases answers.len(),
{
    let rest = answers.drop_first();
    match answers[0].fate() {
        RunFate::End => {},
        RunFate::Failed => {},
        RunFate::Skipped => {
            law_full_textures_make_well_formed_layers(rest, i);
        },
        RunFate::Kept(layer) => {
            if i > 0 {
                law_full_textures_make_well_formed_layers(rest, i - 1);
            }
        },
    }
}

/// A glyph has color runs to enumerate if and only if translating it succeeded
/// and handed out an enumerator.
pub proof fn law_color_glyphs_have_an_enumerator(hr: i32, has_enumerator: bool)
    ensures
        is_color_glyph(hr, has_enumerator) <==> hr >= 0 && has_enumerator,
{
}

/// The enumeration ends with a move that succeeds without a run. Else a run
/// fails if moving to it, getting it, analyzing it or measuring it fails, or if
/// it has pixels and creating its texture fails; it is passed over if it has no
/// pixels; and it becomes a layer with its bounds, its texture and its color, or
/// opaque white for the foreground color, if it has.
pub proof fn law_fate_of_a_run(answers: RunAnswers)
    ensures
        answers.fate() is End <==> answers.moved.0 >= 0 && answers.moved.1 == 0,
        answers.fate() is Failed <==> answers.moved.0 < 0 || (answers.moved.1 != 0 && {
            ||| answers.current.0 < 0
            ||| answers.current.1 is None
            ||| answers.analysis is Err
            ||| answers.bounds is Err
            ||| answers.texture is Err && answers.bounds->Ok_0.left < answers.bounds->Ok_0.right
                && answers.bounds->Ok_0.top < answers.bounds->Ok_0.bottom
        }),
        answers.fate() matches RunFate::Kept(layer) ==> {
            &&& answers.bounds == Ok::<Bounds, i32>(layer.bounds)
            &&& answers.texture == Ok::<Vec<u8>, i32>(layer.coverage)
            &&& layer.bounds.left < layer.bounds.right && layer.bounds.top < layer.bounds.bottom
            &&& answers.current.1 is Some
            &&& (answers.current.1->0).palette_index != 0xFFFF ==> layer.color
                == (answers.current.1->0).color
            &&& (answers.current.1->0).palette_index == 0xFFFF ==> {
                &&& layer.color.r == 0x3F80_0000
                &&& layer.color.g == 0x3F80_0000
                &&& layer.color.b == 0x3F80_0000
                &&& layer.color.a == 0x3F80_0000
            }
        },
{
}

/// Runs are taken in one after the other: if no call fails on the first ones,
/// and they do not end the enumeration, the layers of all are the layers of the
/// first ones and, in front of them, those of the others; and a call that fails
/// on the others leaves no layers at all.
pub proof fn law_runs_are_taken_in_order(
    hr: i32,
    setup: RenderSetup,
    first: Seq<RunAnswers>,
    others: Seq<RunAnswers>,
)
    requires
        hr >= 0,
        forall|k: int| 0 <= k < first.len() ==> (#[trigger] first[k]).moved.1 != 0,
        layers_of(hr, true, setup, first) is Some,
    ensures
        layers_of(hr, true, setup, Seq::empty()) == Some(Seq::<Layer>::empty()),
        layers_of(hr, true, setup, first + others) == match layers_of(hr, true, setup, others) {
            Some(layers) => Some((layers_of(hr, true, setup, first)->0) + layers),
            None => None,
        },
{
    law_layers_keep_paint_order(setup, first);
    law_layers_keep_paint_order(setup, others);
    law_layers_keep_paint_order(setup, first + others);
    lemma_kept_in_order(first, others);
}

proof fn lemma_kept_in_order(first: Seq<RunAnswers>, others: Seq<RunAnswers>)
    requires
        forall|k: int| 0 <= k < first.len() ==> (#[trigger] first[k]).moved.1 != 0,
        kept(first) is Some,
    ensures
        kept(first + others) == match kept(others) {
            Some(layers) => Some((kept(first)->0) + layers),
            None => None,
        },
    decreases first.len(),
{
    if first.len() == 0 {
        assert(first + others =~= others);
        match kept(others) {
            Some(layers) => {
                assert(Seq::<Layer>::empty() + layers =~= layers);
            },
            None => {},
        }
    } else {
        let rest = first.drop_first();
        assert((first + others).drop_first() =~= rest + others);
        assert(first[0].moved.1 != 0);
        assert forall|k: int| 0 <= k < rest.len() implies (#[trigger] rest[k]).moved.1 != 0 by {
            assert(rest[k] == first[k + 1]);
        }
        lemma_kept_in_order(rest, others);
        match (first[0].fate(), kept(others)) {
            (RunFate::Kept(layer), Some(layers)) => {
                assert(seq![layer] + ((kept(rest)->0) + layers) =~= (seq![layer] + (kept(rest)->0))
                    + layers);
            },
            _ => {},
        }
    }
}

/// If translating a glyph fails or hands out no enumerator, there are no layers.
/// If it succeeds, no call fails and every run has pixels, each run is a layer:
/// from back to front, in the order of the runs, with the bounds, the texture
/// and the color of its run.
pub proof fn law_each_run_with_pixels_is_a_layer(
    hr: i32,
    has_enumerator: bool,
    setup: RenderSetup,
    answers: Seq<RunAnswers>,
)
    requires
        forall|k: int|
            0 <= k < answers.len() ==> {
                &&& (#[trigger] answers[k]).moved.0 >= 0 && answers[k].moved.1 != 0
                &&& answers[k].current.0 >= 0 && answers[k].current.1 is Some
                &&& answers[k].analysis is Ok
                &&& answers[k].bounds is Ok
                &&& answers[k].bounds->Ok_0.left < answers[k].bounds->Ok_0.right
                &&& answers[k].bounds->Ok_0.top < answers[k].bounds->Ok_0.bottom
                &&& answers[k].texture is Ok
            },
    ensures
        layers_of(hr, has_enumerator, setup, answers) is Some <==> hr >= 0 && has_enumerator,
        layers_of(hr, has_enumerator, setup, answers) matches Some(layers) ==> {
            &&& layers.len() == answers.len()
            &&& forall|k: int|
                0 <= k < answers.len() ==> {
                    &&& (#[trigger] layers[k]).bounds == answers[k].bounds->Ok_0
                    &&& layers[k].coverage == answers[k].texture->Ok_0
                    &&& (answers[k].current.1->0).palette_index != 0xFFFF ==> layers[k].color == (
                    answers[k].current.1->0).color
                    &&& (answers[k].current.1->0).palette_index == 0xFFFF ==> layers[k].color.r
                        == 0x3F80_0000 && layers[k].color.g == 0x3F80_0000 && layers[k].color.b
                        == 0x3F80_0000 && layers[k].color.a == 0x3F80_0000
                }
        },
{
    law_layers_keep_paint_order(setup, answers);
    lemma_all_kept(answers);
}

proof fn lemma_all_kept(answers: Seq<RunAnswers>)
    requires
        forall|k: int| 0 <= k < answers.len() ==> (#[trigger] answers[k]).fate() is Kept,
    ensures
        kept(answers) matches Some(layers) && layers.len() == answers.len() && forall|k: int|
            0 <= k < answers.len() ==> answers[k].fate() == RunFate::Kept(#[trigger] layers[k]),
    decreases answers.len(),
{
    if answers.len() > 0 {
        let rest = answers.drop_first();
        assert forall|k: int| 0 <= k < rest.len() implies (#[trigger] rest[k]).fate() is Kept by {
            assert(rest[k] == answers[k + 1]);
        }
        lemma_all_kept(rest);
        assert(answers[0].fate() is Kept);
        let more = kept(rest)->0;
        let layers = kept(answers)->0;
        assert forall|k: int| 0 <= k < answers.len() implies answers[k].fate() == RunFate::Kept(
            #[trigger] layers[k],
        ) by {
            if k > 0 {
                assert(layers[k] == more[k - 1]);
                assert(rest[k - 1] == answers[k]);
            }
        }
    }
}

/// A call that fails on any run before the enumeration ends leaves no layers,
/// whichever run it is, and whatever the others answer.
pub proof fn law_one_failing_call_leaves_no_layers(
    hr: i32,
    has_enumerator: bool,
    setup: RenderSetup,
    answers: Seq<RunAnswers>,
    k: int,
)
    requires
        0 <= k < answers.len(),
        forall|j: int| 0 <= j < k ==> (#[trigger] answers[j]).moved.1 != 0,
        answers[k].moved.0 < 0 || (answers[k].moved.1 != 0 && {
            ||| answers[k].current.0 < 0
            ||| answers[k].current.1 is None
            ||| answers[k].analysis is Err
            ||| answers[k].bounds is Err
            ||| answers[k].texture is Err && answers[k].bounds->Ok_0.left
                < answers[k].bounds->Ok_0.right && answers[k].bounds->Ok_0.top
                < answers[k].bounds->Ok_0.bottom
        }),
    ensures
        layers_of(hr, has_enumerator, setup, answers) is None,
{
    law_layers_keep_paint_order(setup, answers);
    law_any_error_leaves_no_layers(answers);
    assert(comes_to(answers, k));
    assert(answers[k].fate() is Failed);
}

/// Once the enumerator reports that there are no more runs, nothing is taken in
/// any more.
pub proof fn law_enumeration_ends(
    hr: i32,
    has_enumerator: bool,
    setup: RenderSetup,
    answers: Seq<RunAnswers>,
    k: int,
)
    requires
        0 <= k < answers.len(),
        answers[k].moved.0 >= 0,
        answers[k].moved.1 == 0,
    ensures
        layers_of(hr, has_enumerator, setup, answers) == layers_of(
            hr,
            has_enumerator,
            setup,
            answers.take(k),
        ),
{
    law_layers_keep_paint_order(setup, answers);
    law_layers_keep_paint_order(setup, answers.take(k));
    lemma_kept_up_to_end(answers, k);
}

proof fn lemma_kept_up_to_end(answers: Seq<RunAnswers>, k: int)
    requires
        0 <= k < answers.len(),
        answers[k].fate() is End,
    ensures
        kept(answers) == kept(answers.take(k)),
    decreases k,
{
    if k > 0 {
        lemma_kept_up_to_end(answers.drop_first(), k - 1);
        assert(answers.take(k).drop_first() =~= answers.drop_first().take(k - 1));
    }
}

} // verus!
