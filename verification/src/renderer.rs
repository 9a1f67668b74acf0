//! The scene and effect state of the renderer: which scene is shown, whether
//! its image must be drawn anew, whether the effect is on, and when the surface
//! is out of date. The drawing itself is done by the caller.
use vstd::prelude::*;

verus! {

/// The outcome of drawing a frame.
#[derive(Debug, Clone, Copy, PartialEq, Eq, Structural)]
pub enum RenderResult {
    /// Nothing changes until something asks for a new frame.
    Clean,
    /// The next frame differs again and must be drawn.
    OutOfDate,
}

/// Why a request to the renderer failed.
#[derive(Debug, Clone, Copy, PartialEq, Eq, Structural)]
pub enum RendererError {
    /// The renderer has not been set up yet.
    NotInitialized,
    /// No scene bears the name asked for.
    NoSuchScene,
}

/// The position of the first scene named `ident`, if there is one.
pub open spec fn first_index(idents: Seq<String>, ident: Seq<char>) -> Option<int>
    decreases idents.len(),
{
    if idents.len() == 0 {
        None
    } else if idents.last()@ == ident && first_index(idents.drop_last(), ident) is None {
        Some(idents.len() - 1)
    } else {
        first_index(idents.drop_last(), ident)
    }
}

pub(crate) proof fn lemma_first_index(idents: Seq<String>, ident: Seq<char>)
    ensures
        match first_index(idents, ident) {
            Some(i) => 0 <= i < idents.len() && idents[i]@ == ident && forall|j: int|
                0 <= j < i ==> #[trigger] idents[j]@ != ident,
            None => forall|j: int| 0 <= j < idents.len() ==> #[trigger] idents[j]@ != ident,
        },
    decreases idents.len(),
{
    if idents.len() > 0 {
        lemma_first_index(idents.drop_last(), ident);
        let p = idents.drop_last();
        assert forall|j: int| 0 <= j < p.len() implies #[trigger] idents[j] == p[j] by {}
    }
}

/// Whether a frame leaves the surface clean: when the effect strength has
/// settled and the scene is not drawn anew on every frame.
pub open spec fn spec_render_result(effect_settled: bool, dynamic: bool) -> RenderResult {
    if effect_settled && !dynamic {
        RenderResult::Clean
    } else {
        RenderResult::OutOfDate
    }
}

/// The outcome of a frame: `Clean` when the effect strength had already
/// settled and the scene is not dynamic, `OutOfDate` otherwise.
pub fn render_result(effect_settled: bool, dynamic: bool) -> (r: RenderResult)
    ensures
        r == spec_render_result(effect_settled, dynamic),
        dynamic ==> r == RenderResult::OutOfDate,
        !effect_settled ==> r == RenderResult::OutOfDate,
        effect_settled && !dynamic ==> r == RenderResult::Clean,
{
    let mut r = if effect_settled {
        RenderResult::Clean
    } else {
        RenderResult::OutOfDate
    };
    if dynamic {
        r = RenderResult::OutOfDate;
    }
    r
}

/// The state of an initialized renderer: the names of its scenes in order, the
/// scene shown, whether that scene's image must be drawn anew, and whether the
/// effect is on.
pub struct RendererImpl {
    idents: Vec<String>,
    scene_index: usize,
    scene_out_of_date: bool,
    effect_on: bool,
}

impl RendererImpl {
    /// The scene shown is one of the scenes, or the first position when there
    /// are none.
    #[verifier::type_invariant]
    pub closed spec fn wf(&self) -> bool {
        if self.idents.len() == 0 {
            self.scene_index == 0
        } else {
            self.scene_index < self.idents.len()
        }
    }

    /// The names of the scenes.
    pub closed spec fn idents(&self) -> Seq<String> {
        self.idents@
    }

    /// The position of the scene shown.
    pub closed spec fn index(&self) -> nat {
        self.scene_index as nat
    }

    /// Whether the scene's image must be drawn anew.
    pub closed spec fn scene_out_of_date(&self) -> bool {
        self.scene_out_of_date
    }

    /// Whether the effect is on.
    pub closed spec fn effect_on(&self) -> bool {
        self.effect_on
    }

    /// A renderer showing the first of the scenes named `idents`, with the
    /// effect off and the scene still to be drawn.
    pub fn new(idents: Vec<String>) -> (r: Self)
        ensures
            r.idents() == idents@,
            r.index() == 0,
            r.scene_out_of_date(),
            !r.effect_on(),
    {
        RendererImpl { idents, scene_index: 0, scene_out_of_date: true, effect_on: false }
    }

    /// The number of scenes.
    pub fn scene_count(&self) -> (r: usize)
        ensures
            r == self.idents().len(),
    {
        self.idents.len()
    }

    /// The name of the scene at position `i`.
    pub fn scene_ident(&self, i: usize) -> (r: &String)
        requires
            i < self.idents().len(),
        ensures
            *r == self.idents()[i as int],
    {
        &self.idents[i]
    }

    /// The position of the scene shown, or `None` when there are no scenes (the
    /// built-in default scene is shown then).
    pub fn current_scene(&self) -> (r: Option<usize>)
        ensures
            r == (if self.idents().len() == 0 {
                None
            } else {
                Some(self.index() as usize)
            }),
    {
        proof {
            use_type_invariant(self);
        }
        if self.scene_index < self.idents.len() {
            Some(self.scene_index)
        } else {
            None
        }
    }

    /// Shows the first scene named `ident` and returns its position; the scene
    /// must then be drawn anew. Fails, changing nothing, when no scene has that
    /// name.
    pub fn switch_scene(&mut self, ident: &str) -> (r: Result<usize, RendererError>)
        ensures
            final(self).idents() == old(self).idents(),
            final(self).effect_on() == old(self).effect_on(),
            match first_index(old(self).idents(), ident@) {
                Some(i) => r is Ok && r->Ok_0 == i && final(self).index() == i
                    && final(self).scene_out_of_date(),
                None => {
                    &&& r == Err::<usize, RendererError>(RendererError::NoSuchScene)
                    &&& *final(self) == *old(self)
                },
            },
    {
        match self.find_scene(ident) {
            Some(i) => {
                self.scene_index = i;
                self.scene_out_of_date = true;
                Ok(i)
            },
            None => Err(RendererError::NoSuchScene),
        }
    }

    fn find_scene(&self, ident: &str) -> (r: Option<usize>)
        ensures
            match r {
                Some(k) => first_index(self.idents(), ident@) == Some(k as int) && k
                    < self.idents().len(),
                None => first_index(self.idents(), ident@) is None,
            },
    {
        let wanted = ident.to_owned();
        let n = self.idents.len();
        let mut i: usize = 0;
        while i < n
            invariant
                i <= n,
                n == self.idents@.len(),
                wanted@ == ident@,
                forall|j: int| 0 <= j < i ==> #[trigger] self.idents@[j]@ != ident@,
            decreases n - i,
        {
            if self.idents[i] == wanted {
                proof {
                    lemma_first_index(self.idents@, ident@);
                }
                return Some(i);
            }
            i = i + 1;
        }
        proof {
            lemma_first_index(self.idents@, ident@);
        }
        None
    }

    /// Moves on to the scene after the shown one, wrapping around at the end,
    /// and returns the position shown then: that of the first scene bearing the
    /// name of the next one.
    pub fn next_scene(&mut self) -> (r: usize)
        requires
            old(self).idents().len() > 0,
        ensures
            next_scene_step(*old(self), *final(self)),
            final(self).effect_on() == old(self).effect_on(),
            final(self).index() == r,
            final(self).scene_out_of_date(),
    {
        proof {
            use_type_invariant(&*self);
        }
        let next_index = (self.scene_index + 1) % self.idents.len();
        let ident = self.idents[next_index].clone();
        proof {
            lemma_first_index(self.idents@, ident@);
        }
        match self.switch_scene(ident.as_str()) {
            Ok(i) => i,
            Err(_) => {
                proof {
                    assert(self.idents@[next_index as int]@ == ident@);
                }
                0
            },
        }
    }

    /// Whether the effect is on.
    pub fn is_effect_on(&self) -> (r: bool)
        ensures
            r == self.effect_on(),
    {
        self.effect_on
    }

    /// Turns the effect on or off.
    pub fn set_effect(&mut self, on: bool)
        ensures
            final(self).effect_on() == on,
            final(self).idents() == old(self).idents(),
            final(self).index() == old(self).index(),
            final(self).scene_out_of_date() == old(self).scene_out_of_date(),
    {
        proof {
            use_type_invariant(&*self);
        }
        self.effect_on = on;
    }

    /// Turns the effect on when it is off and off when it is on; returns whether
    /// it is on now.
    pub fn toggle_effect(&mut self) -> (on: bool)
        ensures
            on == !old(self).effect_on(),
            final(self).effect_on() == on,
            final(self).idents() == old(self).idents(),
            final(self).index() == old(self).index(),
            final(self).scene_out_of_date() == old(self).scene_out_of_date(),
    {
        proof {
            use_type_invariant(&*self);
        }
        self.effect_on = !self.effect_on;
        self.effect_on
    }

    /// Whether the scene's image must be drawn in this frame; it counts as drawn
    /// afterwards.
    pub fn take_scene_out_of_date(&mut self) -> (r: bool)
        ensures
            r == old(self).scene_out_of_date(),
            !final(self).scene_out_of_date(),
            final(self).effect_on() == old(self).effect_on(),
            final(self).idents() == old(self).idents(),
            final(self).index() == old(self).index(),
    {
        proof {
            use_type_invariant(&*self);
        }
        let r = self.scene_out_of_date;
        self.scene_out_of_date = false;
        r
    }
}


/// One move of `RendererImpl::next_scene`: the scenes stay, and the scene
/// shown next is the first one bearing the name of the scene after the shown
/// one (wrapping around at the end).
pub open spec fn next_scene_step(before: RendererImpl, after: RendererImpl) -> bool {
    &&& before.idents().len() > 0
    &&& after.idents() == before.idents()
    &&& first_index(
        before.idents(),
        before.idents()[((before.index() + 1) % before.idents().len()) as int]@,
    ) == Some(after.index() as int)
}

/// The renderer as the rest of the program sees it: set up or not yet, and
/// whether the surface is out of date and must be drawn in the next frame.
pub struct Renderer {
    renderer: Option<RendererImpl>,
    out_of_date: bool,
}

impl Renderer {
    /// The set-up renderer, if there is one.
    pub closed spec fn inner(&self) -> Option<RendererImpl> {
        self.renderer
    }

    /// Whether the surface must be drawn in the next frame.
    pub closed spec fn out_of_date(&self) -> bool {
        self.out_of_date
    }

    /// A renderer that is not set up yet.
    pub fn new() -> (r: Self)
        ensures
            r.inner() is None,
            !r.out_of_date(),
    {
        Renderer { renderer: None, out_of_date: false }
    }

    /// Sets the renderer up with the scenes named `idents`; the surface is then
    /// out of date.
    pub fn init(&mut self, idents: Vec<String>)
        ensures
            final(self).inner() matches Some(r) && r.idents() == idents@ && r.index() == 0
                && r.scene_out_of_date() && !r.effect_on(),
            final(self).out_of_date(),
    {
        self.renderer = Some(RendererImpl::new(idents));
        self.out_of_date = true;
    }

    /// The set-up renderer, for drawing.
    pub fn renderer_impl(&mut self) -> (r: &mut Option<RendererImpl>)
        ensures
            *r == old(self).inner(),
            final(self).inner() == *final(r),
            final(self).out_of_date() == old(self).out_of_date(),
    {
        &mut self.renderer
    }

    /// Whether a frame must be drawn now.
    pub fn needs_render(&self) -> (r: bool)
        ensures
            r == self.out_of_date(),
    {
        self.out_of_date
    }

    /// Records the outcome of a drawn frame: a clean frame leaves the surface
    /// up to date, any other leaves it out of date.
    pub fn record_render(&mut self, result: RenderResult)
        ensures
            final(self).inner() == old(self).inner(),
            final(self).out_of_date() == (old(self).out_of_date() && result
                == RenderResult::OutOfDate),
    {
        if result == RenderResult::Clean {
            self.out_of_date = false;
        }
    }

    /// Moves on to the next scene and returns its name; the surface is then
    /// out of date. Fails, changing nothing, when the renderer is not set up.
    pub fn next_scene(&mut self) -> (r: Result<String, RendererError>)
        requires
            old(self).inner() matches Some(ri) ==> ri.idents().len() > 0,
        ensures
            spec_next_scene(*old(self), *final(self), r),
    {
        let ghost old_inner = self.renderer;
        match &mut self.renderer {
            None => Err(RendererError::NotInitialized),
            Some(ri) => {
                let ghost ri0 = *ri;
                let i = ri.next_scene();
                proof {
                    use_type_invariant(&*ri);
                }
                let name = ri.scene_ident(i).clone();
                self.out_of_date = true;
                proof {
                    let n = ri0.idents().len();
                    let next = ri0.idents()[((ri0.index() + 1) % n) as int];
                    lemma_first_index(ri0.idents(), next@);
                }
                Ok(name)
            },
        }
    }

    /// Shows the first scene named `ident`; the surface is then out of date.
    /// Fails, changing nothing, when the renderer is not set up or no scene
    /// bears that name.
    pub fn switch_scene(&mut self, ident: &str) -> (r: Result<(), RendererError>)
        ensures
            spec_switch_scene(*old(self), *final(self), ident@, r),
    {
        match &mut self.renderer {
            None => Err(RendererError::NotInitialized),
            Some(ri) => {
                match ri.switch_scene(ident) {
                    Ok(_) => {
                        self.out_of_date = true;
                        Ok(())
                    },
                    Err(e) => Err(e),
                }
            },
        }
    }

    /// Turns the effect on or off; the surface is then out of date. Fails,
    /// changing nothing, when the renderer is not set up.
    pub fn set_effect_on(&mut self, on: bool) -> (r: Result<(), RendererError>)
        ensures
            spec_set_effect_on(*old(self), *final(self), on, r),
            r is Ok <==> old(self).inner() is Some,
            r is Ok ==> (final(self).inner() matches Some(fi) && fi.effect_on() == on),
    {
        match &mut self.renderer {
            None => Err(RendererError::NotInitialized),
            Some(ri) => {
                ri.set_effect(on);
                self.out_of_date = true;
                Ok(())
            },
        }
    }

    /// Turns the effect over and returns whether it is on now; the surface is
    /// then out of date. Fails, changing nothing, when the renderer is not set
    /// up.
    pub fn toggle_effect(&mut self) -> (r: Result<bool, RendererError>)
        ensures
            spec_toggle_effect(*old(self), *final(self), r),
    {
        match &mut self.renderer {
            None => Err(RendererError::NotInitialized),
            Some(ri) => {
                let on = ri.toggle_effect();
                self.out_of_date = true;
                Ok(on)
            },
        }
    }
}

/// What `Renderer::next_scene` does: without a set-up renderer it fails with
/// `NotInitialized` and changes nothing; otherwise it shows the first scene
/// bearing the name of the scene after the shown one (wrapping around), returns
/// that name, and leaves the surface out of date.
pub open spec fn spec_next_scene(before: Renderer, after: Renderer, r: Result<String, RendererError>) -> bool {
    match before.inner() {
        None => r == Err::<String, RendererError>(RendererError::NotInitialized)
            && after.inner() == before.inner() && after.out_of_date()
            == before.out_of_date(),
        Some(ri) => {
            let n = ri.idents().len();
            let next = ri.idents()[((ri.index() + 1) % n) as int];
            &&& after.inner() matches Some(fi)
            &&& first_index(ri.idents(), next@) == Some(fi.index() as int)
            &&& fi.idents() == ri.idents()
            &&& fi.effect_on() == ri.effect_on()
            &&& fi.scene_out_of_date()
            &&& r matches Ok(name) && name@ == next@
            &&& after.out_of_date()
        },
    }
}

/// What `Renderer::switch_scene` does: without a set-up renderer it fails with
/// `NotInitialized`, and without a scene named `ident` with `NoSuchScene`, changing
/// nothing; otherwise it shows the first scene so named and leaves the surface
/// out of date.
pub open spec fn spec_switch_scene(before: Renderer, after: Renderer, ident: Seq<char>, r: Result<(), RendererError>) -> bool {
    match before.inner() {
        None => r == Err::<(), RendererError>(RendererError::NotInitialized)
            && after.inner() == before.inner() && after.out_of_date()
            == before.out_of_date(),
        Some(ri) => match first_index(ri.idents(), ident) {
            None => r == Err::<(), RendererError>(RendererError::NoSuchScene)
                && after.inner() == before.inner() && after.out_of_date()
                == before.out_of_date(),
            Some(i) => {
                &&& r is Ok
                &&& after.inner() matches Some(fi)
                &&& fi.index() == i
                &&& fi.idents() == ri.idents()
                &&& fi.effect_on() == ri.effect_on()
                &&& fi.scene_out_of_date()
                &&& after.out_of_date()
            },
        },
    }
}

/// What `Renderer::set_effect_on` does: without a set-up renderer it fails with
/// `NotInitialized` and changes nothing; otherwise the effect is `on` and the
/// surface out of date.
pub open spec fn spec_set_effect_on(before: Renderer, after: Renderer, on: bool, r: Result<(), RendererError>) -> bool {
    match before.inner() {
        None => r == Err::<(), RendererError>(RendererError::NotInitialized)
            && after.inner() == before.inner() && after.out_of_date()
            == before.out_of_date(),
        Some(ri) => {
            &&& r is Ok
            &&& after.inner() matches Some(fi)
            &&& fi.effect_on() == on
            &&& fi.idents() == ri.idents()
            &&& fi.index() == ri.index()
            &&& fi.scene_out_of_date() == ri.scene_out_of_date()
            &&& after.out_of_date()
        },
    }
}

/// What `Renderer::toggle_effect` does: without a set-up renderer it fails with
/// `NotInitialized` and changes nothing; otherwise the effect is turned over,
/// its after state returned, and the surface out of date.
pub open spec fn spec_toggle_effect(before: Renderer, after: Renderer, r: Result<bool, RendererError>) -> bool {
    match before.inner() {
        None => r == Err::<bool, RendererError>(RendererError::NotInitialized)
            && after.inner() == before.inner() && after.out_of_date()
            == before.out_of_date(),
        Some(ri) => {
            &&& r == Ok::<bool, RendererError>(!ri.effect_on())
            &&& after.inner() matches Some(fi)
            &&& fi.effect_on() == !ri.effect_on()
            &&& fi.idents() == ri.idents()
            &&& fi.index() == ri.index()
            &&& fi.scene_out_of_date() == ri.scene_out_of_date()
            &&& after.out_of_date()
        },
    }
}


/// No scene name occurs twice.
pub open spec fn distinct_names(idents: Seq<String>) -> bool {
    forall|i: int, j: int|
        0 <= i < idents.len() && 0 <= j < idents.len() && i != j ==> #[trigger] idents[i]@
            != #[trigger] idents[j]@
}

proof fn lemma_first_index_distinct(idents: Seq<String>, k: int)
    requires
        distinct_names(idents),
        0 <= k < idents.len(),
    ensures
        first_index(idents, idents[k]@) == Some(k),
{
    lemma_first_index(idents, idents[k]@);
}

/// With distinct scene names, the slideshow goes through the scenes in order:
/// `next_scene` shows the scene right after the shown one, and the first scene
/// after the last.
pub proof fn law_next_scene_advances(before: Renderer, after: Renderer, r: Result<String, RendererError>)
    requires
        before.inner() matches Some(ri) && ri.idents().len() > 0 && distinct_names(ri.idents()),
        spec_next_scene(before, after, r),
    ensures
        after.inner()->0.index() == (before.inner()->0.index() + 1) % before.inner()->0.idents().len(),
        r matches Ok(name) && name@ == after.inner()->0.idents()[after.inner()->0.index() as int]@,
{
    let ri = before.inner()->0;
    let n = ri.idents().len();
    let k = ((ri.index() + 1) % n) as int;
    lemma_first_index_distinct(ri.idents(), k);
}

/// After switching to a scene by name, the scene shown bears that name.
pub proof fn law_switch_shows_named_scene(before: Renderer, after: Renderer, ident: Seq<char>)
    requires
        spec_switch_scene(before, after, ident, Ok(())),
    ensures
        after.inner() matches Some(fi) && fi.index() < fi.idents().len() && fi.idents()[fi.index() as int]@
            == ident,
{
    lemma_first_index(before.inner()->0.idents(), ident);
}

/// A dynamic scene is drawn anew on every frame, whether or not the effect
/// has settled, and so is any scene while the effect still changes; a frame
/// leaves the surface clean only when the effect has settled and the scene is
/// not dynamic.
pub proof fn law_redraw_while_moving(effect_settled: bool, dynamic: bool)
    ensures
        dynamic ==> spec_render_result(effect_settled, dynamic) == RenderResult::OutOfDate,
        !effect_settled ==> spec_render_result(effect_settled, dynamic) == RenderResult::OutOfDate,
        spec_render_result(effect_settled, dynamic) == RenderResult::Clean <==> (effect_settled
            && !dynamic),
{
}

/// Setting the effect succeeds exactly on a set-up renderer, and afterwards the
/// effect is on exactly when it was asked to be on, whatever it was before;
/// the scenes and the scene shown stay.
pub proof fn law_set_effect_sets(before: Renderer, after: Renderer, on: bool, r: Result<(), RendererError>)
    requires
        spec_set_effect_on(before, after, on, r),
    ensures
        r is Ok <==> before.inner() is Some,
        r is Ok ==> (after.inner() matches Some(fi) && fi.effect_on() == on && fi.idents()
            == before.inner()->0.idents() && fi.index() == before.inner()->0.index()),
        r is Err ==> after.inner() == before.inner() && after.out_of_date() == before.out_of_date(),
{
}

/// Turning the effect over twice leaves it as it was.
pub proof fn law_toggle_twice(
    a: Renderer,
    b: Renderer,
    c: Renderer,
    r1: Result<bool, RendererError>,
    r2: Result<bool, RendererError>,
)
    requires
        a.inner() is Some,
        spec_toggle_effect(a, b, r1),
        spec_toggle_effect(b, c, r2),
    ensures
        c.inner()->0.effect_on() == a.inner()->0.effect_on(),
        c.inner()->0.idents() == a.inner()->0.idents(),
        c.inner()->0.index() == a.inner()->0.index(),
        r2 == Ok::<bool, RendererError>(a.inner()->0.effect_on()),
{
}


proof fn lemma_mod_succ(a: int, n: int)
    requires
        0 <= a,
        0 < n,
    ensures
        ((a % n) + 1) % n == (a + 1) % n,
{
    vstd::arithmetic::div_mod::lemma_add_mod_noop(a, 1, n);
    vstd::arithmetic::div_mod::lemma_add_mod_noop(a % n, 1, n);
    vstd::arithmetic::div_mod::lemma_mod_bound(a, n);
    vstd::arithmetic::div_mod::lemma_small_mod((a % n) as nat, n as nat);
}

proof fn lemma_next_scene_run(states: Seq<RendererImpl>, k: int)
    requires
        0 <= k < states.len(),
        states[0].wf(),
        states[0].idents().len() > 0,
        distinct_names(states[0].idents()),
        forall|j: int| 0 <= j < states.len() - 1 ==> next_scene_step(#[trigger] states[j], states[j + 1]),
    ensures
        states[k].idents() == states[0].idents(),
        states[k].index() == (states[0].index() + k) % (states[0].idents().len() as int),
    decreases k,
{
    let n = states[0].idents().len() as int;
    if k == 0 {
        vstd::arithmetic::div_mod::lemma_small_mod(states[0].index(), n as nat);
    } else {
        lemma_next_scene_run(states, k - 1);
        let prev = states[k - 1];
        assert(next_scene_step(prev, states[k]));
        vstd::arithmetic::div_mod::lemma_mod_bound(prev.index() as int + 1, n);
        lemma_first_index_distinct(prev.idents(), (prev.index() as int + 1) % n);
        lemma_mod_succ(states[0].index() as int + k - 1, n);
    }
}

/// With distinct scene names, moving on to the next scene as many times as
/// there are scenes comes back to the scene shown at the start, after showing
/// each scene in turn: after `k` moves, the scene `k` places further on is shown.
pub proof fn law_next_scene_cycle(states: Seq<RendererImpl>)
    requires
        states.len() >= 1,
        states[0].wf(),
        states[0].idents().len() > 0,
        distinct_names(states[0].idents()),
        states.len() == states[0].idents().len() + 1,
        forall|j: int| 0 <= j < states.len() - 1 ==> next_scene_step(#[trigger] states[j], states[j + 1]),
    ensures
        forall|k: int|
            0 <= k < states.len() ==> #[trigger] states[k].index() == (states[0].index() + k) % (
            states[0].idents().len() as int),
        states.last().index() == states[0].index(),
{
    let n = states[0].idents().len() as int;
    assert forall|k: int| 0 <= k < states.len() implies #[trigger] states[k].index() == (
    states[0].index() + k) % n by {
        lemma_next_scene_run(states, k);
    }
    lemma_next_scene_run(states, n);
    vstd::arithmetic::div_mod::lemma_mod_add_multiples_vanish(states[0].index() as int, n);
    vstd::arithmetic::div_mod::lemma_small_mod(states[0].index(), n as nat);
}

} // verus!
