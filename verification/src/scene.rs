//! A stack of scenes, for moving between completely different game states that share one
//! context. New scenes are pushed on top while the ones below stay in memory unchanged; the scene
//! on top gets the updates and events, and drawing goes down the stack as far as scenes ask for
//! the scene below them to be drawn too (useful for layered GUIs).
use vstd::prelude::*;

verus! {

#[verifier::external_type_specification]
#[verifier::external_body]
pub struct ExAnyhowError(anyhow::Error);

/// A trait for you to implement on a scene. Defines the callbacks the scene uses, with a common
/// context type `C` and an input event type `Ev`.
///
/// Each callback that changes the scene is described by a relation that an implementation may
/// name: what the scene, the context (and, for an update, the stack) were before and after the
/// call, and what the call returned. An implementation that does not name one relates anything
/// (the default `true`): its callback promises nothing. The scene stack's contracts say which
/// scenes' callbacks it runs, in which order and with which contexts, in terms of these
/// relations.
pub trait Scene<C, Ev>: Sized {
    /// How an update takes the scene from `before` to `after`, the stack it stands on from
    /// `stack_before` to `stack_after` and the context from `ctx_before` to `ctx_after`,
    /// returning `r`.
    open spec fn updated(
        before: Self,
        after: Self,
        stack_before: Seq<Self>,
        stack_after: Seq<Self>,
        ctx_before: C,
        ctx_after: C,
        r: Result<(), anyhow::Error>,
    ) -> bool {
        true
    }

    /// How drawing takes the scene from `before` to `after` and the context from `ctx_before`
    /// to `ctx_after`, returning `r`.
    open spec fn drawn(before: Self, after: Self, ctx_before: C, ctx_after: C, r: Result<(), anyhow::Error>) -> bool {
        true
    }

    /// How handling `event` takes the scene from `before` to `after` and the context from
    /// `ctx_before` to `ctx_after`, returning `r`.
    open spec fn handled(
        before: Self,
        after: Self,
        ctx_before: C,
        ctx_after: C,
        event: Ev,
        r: Result<(), anyhow::Error>,
    ) -> bool {
        true
    }

    /// Advances the scene; it may change the stack it stands on.
    fn update(&mut self, scene_stack: &mut SceneStack<Self>, ctx: &mut C) -> (r: Result<
        (),
        anyhow::Error,
    >)
        ensures
            Self::updated(
                *old(self),
                *final(self),
                old(scene_stack)@,
                final(scene_stack)@,
                *old(ctx),
                *final(ctx),
                r,
            ),
    ;

    /// Draws the scene.
    fn draw(&mut self, ctx: &mut C) -> (r: Result<(), anyhow::Error>)
        ensures
            Self::drawn(*old(self), *final(self), *old(ctx), *final(ctx), r),
    ;

    /// Handles an input event.
    fn event(&mut self, ctx: &mut C, event: Ev) -> (r: Result<(), anyhow::Error>)
        ensures
            Self::handled(*old(self), *final(self), *old(ctx), *final(ctx), event, r),
    ;

    /// Only used for human-readable convenience (or not at all). By default, no name.
    fn name(&self) -> (name: Option<String>)
        default_ensures
            name is None,
    {
        None
    }

    /// Whether the scene below this one on the stack is drawn as well; useful for layers or GUI
    /// elements that only partially cover the screen. By default, it is not.
    fn draw_previous(&self) -> (draws_previous: bool)
        default_ensures
            !draws_previous,
    {
        false
    }
}

/// A stack of scenes; the last one is the current scene.
pub struct SceneStack<S> {
    scenes: Vec<S>,
}

impl<S> View for SceneStack<S> {
    type V = Seq<S>;

    /// The scenes from the bottom of the stack to the top.
    closed spec fn view(&self) -> Seq<S> {
        self.scenes@
    }
}

impl<S> SceneStack<S> {
    /// An empty stack.
    pub fn new() -> (stack: Self)
        ensures
            stack@ == Seq::<S>::empty(),
    {
        Self { scenes: Vec::new() }
    }

    /// Adds a new scene to the top of the stack.
    pub fn push(&mut self, scene: S)
        ensures
            final(self)@ == old(self)@.push(scene),
    {
        self.scenes.push(scene)
    }

    /// Removes the top scene from the stack and returns it. The stack must not be empty.
    pub fn pop(&mut self) -> (scene: S)
        requires
            old(self)@.len() > 0,
        ensures
            scene == old(self)@.last(),
            final(self)@ == old(self)@.drop_last(),
    {
        self.scenes.pop().unwrap()
    }

    /// Replaces the top scene on the stack by popping and then pushing a new scene, and returns
    /// the replaced scene. The stack must not be empty.
    pub fn replace(&mut self, scene: S) -> (replaced: S)
        requires
            old(self)@.len() > 0,
        ensures
            replaced == old(self)@.last(),
            final(self)@ == old(self)@.drop_last().push(scene),
    {
        let replaced = self.pop();
        self.push(scene);
        replaced
    }

    /// The current scene. The stack must not be empty.
    pub fn current(&self) -> (scene: &S)
        requires
            self@.len() > 0,
        ensures
            *scene == self@.last(),
    {
        let n = self.scenes.len();
        &self.scenes[n - 1]
    }

    /// The number of scenes on the stack.
    pub fn len(&self) -> (n: usize)
        ensures
            n == self@.len(),
    {
        self.scenes.len()
    }

    /// Updates the current scene: a clone of it is handed the stack (which it may change) and
    /// the context, and its result is returned. An empty stack is left as it is. The scene is
    /// updated through a clone, so for the update to last, the scene type should be a shared
    /// handle (as dynamic scenes are).
    pub fn update<C, Ev>(&mut self, ctx: &mut C) -> (r: Result<(), anyhow::Error>) where
        S: Scene<C, Ev> + Clone,

        ensures
            old(self)@.len() == 0 ==> r is Ok && final(self)@ == old(self)@ && *final(ctx)
                == *old(ctx),
            old(self)@.len() > 0 ==> exists|copy: S, after: S|
                #![trigger S::updated(copy, after, old(self)@, final(self)@, *old(ctx), *final(ctx), r)]
                cloned(old(self)@.last(), copy) && S::updated(
                    copy,
                    after,
                    old(self)@,
                    final(self)@,
                    *old(ctx),
                    *final(ctx),
                    r,
                ),
    {
        let n = self.scenes.len();
        if n > 0 {
            let mut current_scene = self.scenes[n - 1].clone();
            let ghost copy = current_scene;
            let ghost stack_before = self@;
            let ghost ctx_before = *ctx;
            let r = current_scene.update(self, ctx);
            assert(S::updated(copy, current_scene, stack_before, self@, ctx_before, *ctx, r));
            r
        } else {
            Ok(())
        }
    }

    /// The index of the lowest scene that is drawn: going down from the top, scenes are drawn as
    /// long as the scene above asks for the one below it to be drawn too.
    fn first_drawn<C, Ev>(&self) -> (start: usize) where S: Scene<C, Ev>
        requires
            self@.len() > 0,
        ensures
            start < self@.len(),
            drawn_from::<C, Ev, S>(self@, start as int),
    {
        let mut i = self.scenes.len() - 1;
        while i > 0
            invariant
                i < self.scenes@.len(),
                forall|j: int|
                    i < j < self.scenes@.len() ==> call_ensures(
                        S::draw_previous,
                        (&self.scenes@[j],),
                        true,
                    ),
            decreases i,
        {
            let previous = self.scenes[i].draw_previous();
            if !previous {
                return i;
            }
            i -= 1;
        }
        i
    }

    /// Draws the stack: the scenes from the lowest one that is drawn up to the current one, in
    /// that order, each with the context the one before left, stopping at the first error, which
    /// is returned. The scenes stay in place.
    pub fn draw<C, Ev>(&mut self, ctx: &mut C) -> (r: Result<(), anyhow::Error>) where
        S: Scene<C, Ev>,

        ensures
            old(self)@.len() == 0 ==> r is Ok && final(self)@ == old(self)@ && *final(ctx)
                == *old(ctx),
            old(self)@.len() > 0 ==> exists|start: int, ctxs: Seq<C>|
                #![trigger drawn_run::<C, Ev, S>(old(self)@, final(self)@, start, ctxs, r)]
                0 <= start < old(self)@.len() && drawn_from::<C, Ev, S>(old(self)@, start)
                    && drawn_run::<C, Ev, S>(old(self)@, final(self)@, start, ctxs, r) && ctxs[0]
                    == *old(ctx) && ctxs.last() == *final(ctx),
    {
        let n = self.scenes.len();
        if n == 0 {
            return Ok(());
        }
        let start = self.first_drawn::<C, Ev>();
        let ghost before = self@;
        let ghost mut ctxs: Seq<C> = seq![*ctx];
        let mut i = start;
        while i < n
            invariant
                self.scenes@.len() == n,
                before.len() == n,
                before == old(self)@,
                n == old(self)@.len(),
                start < n,
                drawn_from::<C, Ev, S>(before, start as int),
                ctxs[0] == *old(ctx),
                start <= i <= n,
                ctxs.len() == i - start + 1,
                ctxs.last() == *ctx,
                forall|j: int|
                    0 <= j < n && !(start <= j < i) ==> #[trigger] self.scenes@[j] == before[j],
                forall|j: int|
                    start <= j < i ==> S::drawn(
                        before[j],
                        #[trigger] self.scenes@[j],
                        ctxs[j - start],
                        ctxs[j - start + 1],
                        Ok(()),
                    ),
            decreases n - i,
        {
            let ghost scenes_before = self.scenes@;
            let ghost ctx_before = *ctx;
            let ghost ctxs_before = ctxs;
            let result = self.scenes[i].draw(ctx);
            proof {
                assert(S::drawn(scenes_before[i as int], self.scenes@[i as int], ctx_before, *ctx, result));
                assert(scenes_before[i as int] == before[i as int]);
                ctxs = ctxs.push(*ctx);
                assert(self.scenes@ == scenes_before.update(i as int, self.scenes@[i as int]));
            }
            match result {
                Ok(unit) => {
                    proof {
                        assert(ctxs[i - start] == ctx_before);
                        assert forall|j: int| start <= j < i + 1 implies S::drawn(
                            before[j],
                            #[trigger] self.scenes@[j],
                            ctxs[j - start],
                            ctxs[j - start + 1],
                            Ok(()),
                        ) by {
                            if j < i {
                                assert(self.scenes@[j] == scenes_before[j]);
                                assert(ctxs[j - start] == ctxs_before[j - start]);
                                assert(ctxs[j - start + 1] == ctxs_before[j - start + 1]);
                            } else {
                                assert(unit == ());
                                assert(result == Ok::<(), anyhow::Error>(()));
                            }
                        }
                    }
                },
                Err(e) => {
                    proof {
                        assert(drawn_run::<C, Ev, S>(before, self@, start as int, ctxs, Err(e)));
                    }
                    return Err(e);
                },
            }
            i += 1;
        }
        proof {
            assert(drawn_run::<C, Ev, S>(before, self@, start as int, ctxs, Ok(())));
        }
        Ok(())
    }

    /// Feeds the given event to the current scene and returns its result. An empty stack
    /// ignores it.
    pub fn event<C, Ev>(&mut self, ctx: &mut C, event: Ev) -> (r: Result<(), anyhow::Error>) where
        S: Scene<C, Ev>,

        ensures
            final(self)@.len() == old(self)@.len(),
            old(self)@.len() == 0 ==> r is Ok && final(self)@ == old(self)@ && *final(ctx)
                == *old(ctx),
            old(self)@.len() > 0 ==> final(self)@.drop_last() == old(self)@.drop_last()
                && S::handled(
                old(self)@.last(),
                final(self)@.last(),
                *old(ctx),
                *final(ctx),
                event,
                r,
            ),
    {
        let n = self.scenes.len();
        if n > 0 {
            let ghost before = self@;
            let r = self.scenes[n - 1].event(ctx, event);
            assert(self@.drop_last() =~= before.drop_last());
            r
        } else {
            Ok(())
        }
    }
}

/// Whether drawing starts at the scene at `start`: every scene above it may answer that the
/// scene below it is drawn too, and the one at `start`, unless it is the lowest, may answer that
/// it is not.
pub open spec fn drawn_from<C, Ev, S: Scene<C, Ev>>(scenes: Seq<S>, start: int) -> bool {
    &&& forall|i: int|
        start < i < scenes.len() ==> call_ensures(S::draw_previous, (&scenes[i],), true)
    &&& start > 0 ==> call_ensures(S::draw_previous, (&scenes[start],), false)
}

/// A run of draws over the scenes from `start` on, taking them from `before` to `after`: the
/// scene at `start + j` is drawn from context `ctxs[j]` to `ctxs[j + 1]`; every draw but the last
/// succeeds, the last one returns `r`, the run reaches the top unless `r` is an error, and the
/// scenes not drawn are unchanged.
pub open spec fn drawn_run<C, Ev, S: Scene<C, Ev>>(
    before: Seq<S>,
    after: Seq<S>,
    start: int,
    ctxs: Seq<C>,
    r: Result<(), anyhow::Error>,
) -> bool {
    let k = ctxs.len() - 1;
    &&& ctxs.len() >= 2
    &&& 0 <= start
    &&& start + k <= before.len()
    &&& after.len() == before.len()
    &&& r is Ok ==> start + k == before.len()
    &&& forall|j: int|
        0 <= j < before.len() && !(start <= j < start + k) ==> #[trigger] after[j] == before[j]
    &&& forall|j: int|
        0 <= j < k - 1 ==> S::drawn(
            before[start + j],
            #[trigger] after[start + j],
            ctxs[j],
            ctxs[j + 1],
            Ok(()),
        )
    &&& S::drawn(before[start + k - 1], after[start + k - 1], ctxs[k - 1], ctxs[k], r)
}

/// Popping after pushing gives back the pushed scene and the stack as it was.
pub proof fn lemma_pop_undoes_push<S>(stack: Seq<S>, scene: S)
    ensures
        stack.push(scene).len() > 0,
        stack.push(scene).last() == scene,
        stack.push(scene).drop_last() == stack,
{
    assert(stack.push(scene).drop_last() =~= stack);
}

/// Replacing the current scene keeps the scenes below it and puts the new scene on top.
pub proof fn lemma_replace_keeps_below<S>(stack: Seq<S>, scene: S)
    requires
        stack.len() > 0,
    ensures
        stack.drop_last().push(scene).len() == stack.len(),
        forall|i: int|
            0 <= i < stack.len() - 1 ==> #[trigger] stack.drop_last().push(scene)[i] == stack[i],
        stack.drop_last().push(scene).last() == scene,
{
}

} // verus!
