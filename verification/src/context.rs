//! The render context: the handle of the native context, the parameter array that was
//! submitted last, and the cleanup of the update callback that is registered.
//!
//! A context never calls the native library. Each operation says what the caller is to hand
//! to the native call, and the caller hands the outcome back.

use crate::array::spec_render_params;
use crate::array::ParamArray;
use crate::codec::is_terminated;
use crate::codec::EncodedParam;
use crate::error::mpv_err;
use crate::error::Error;
use crate::param::RenderParam;
use vstd::prelude::*;

verus! {

/// One step that the caller takes for a context. Steps are given in the order in which they
/// are to be taken.
#[derive(Debug, PartialEq, Eq)]
pub enum Action<Cleanup> {
    /// Run this cleanup. It reclaims the storage of an update callback: of the one that is
    /// about to be replaced, or of the one whose context ends.
    RunCleanup(Cleanup),
    /// Register the new update callback with the native context that has this handle.
    SetUpdateCallback(usize),
    /// Free the native context that has this handle.
    Free(usize),
}

/// One parameter to hand to a native call on the context with the handle `ctx`.
#[derive(Debug, PartialEq, Eq)]
pub struct NativeCall<Resolver, GLContext> {
    pub ctx: usize,
    pub param: EncodedParam<Resolver, GLContext>,
}

/// What a render context holds.
pub struct RenderContextView<Resolver, GLContext, Cleanup> {
    /// The handle of the native context. A handle of 0 is null.
    pub ctx: usize,
    /// The parameter array that was submitted last.
    pub render_params: Seq<EncodedParam<Resolver, GLContext>>,
    /// The cleanup of the update callback that is registered, if one is.
    pub update_callback_cleanup: Option<Cleanup>,
}

impl<Resolver, GLContext, Cleanup> RenderContextView<Resolver, GLContext, Cleanup> {
    /// The context that a successful creation gives.
    pub open spec fn created(
        render_params: Seq<EncodedParam<Resolver, GLContext>>,
        mpv_gl: usize,
    ) -> Self {
        RenderContextView { ctx: mpv_gl, render_params, update_callback_cleanup: None }
    }

    /// The context after a render call for a target of the given size.
    pub open spec fn render(self, width: i32, height: i32) -> Self {
        RenderContextView { render_params: spec_render_params(width, height), ..self }
    }

    /// The context after `cleanup` was recorded for a new update callback.
    pub open spec fn set_update_callback(self, cleanup: Cleanup) -> Self {
        RenderContextView { update_callback_cleanup: Some(cleanup), ..self }
    }

    /// The cleanup that is pending: none or one.
    pub open spec fn pending(self) -> Seq<Cleanup> {
        match self.update_callback_cleanup {
            Some(cleanup) => seq![cleanup],
            None => seq![],
        }
    }

    /// The cleanup that is pending, as a step to take: none or one.
    pub open spec fn release(self) -> Seq<Action<Cleanup>> {
        match self.update_callback_cleanup {
            Some(cleanup) => seq![Action::RunCleanup(cleanup)],
            None => seq![],
        }
    }

    /// The steps that replace the update callback: the cleanup of the callback that was
    /// registered before, if one was, then the registration of the new one.
    pub open spec fn registration(self) -> Seq<Action<Cleanup>> {
        self.release().push(Action::SetUpdateCallback(self.ctx))
    }

    /// The steps that end the context: the pending cleanup, if there is one, then the native
    /// context freed, unless its handle is null.
    pub open spec fn teardown(self) -> Seq<Action<Cleanup>> {
        if self.ctx != 0 {
            self.release().push(Action::Free(self.ctx))
        } else {
            self.release()
        }
    }
}

/// A render context of the native library.
pub struct RenderContext<Resolver, GLContext, Cleanup> {
    ctx: usize,
    render_params: ParamArray<Resolver, GLContext>,
    update_callback_cleanup: Option<Cleanup>,
}

impl<Resolver, GLContext, Cleanup> View for RenderContext<Resolver, GLContext, Cleanup> {
    type V = RenderContextView<Resolver, GLContext, Cleanup>;

    closed spec fn view(&self) -> RenderContextView<Resolver, GLContext, Cleanup> {
        RenderContextView {
            ctx: self.ctx,
            render_params: self.render_params@,
            update_callback_cleanup: self.update_callback_cleanup,
        }
    }
}

impl<Resolver, GLContext, Cleanup> RenderContext<Resolver, GLContext, Cleanup> {
    /// Wraps what the native creation call gave for `render_params`: on the status 0 a
    /// context with the handle `mpv_gl`, which keeps the parameters and has no update
    /// callback; on any other status the status as an error, and no context.
    pub fn new(render_params: ParamArray<Resolver, GLContext>, mpv_gl: usize, err: i32) -> (res:
        Result<Self, Error>)
        ensures
            err == 0 ==> res is Ok && res->Ok_0@ == RenderContextView::<
                Resolver,
                GLContext,
                Cleanup,
            >::created(render_params@, mpv_gl),
            err != 0 ==> res == Err::<Self, Error>(Error::Raw(err)),
    {
        mpv_err(RenderContext { ctx: mpv_gl, render_params, update_callback_cleanup: None }, err)
    }

    /// The parameter array that was submitted last. It ends as the native library asks.
    pub fn render_params(&self) -> (params: &Vec<EncodedParam<Resolver, GLContext>>)
        ensures
            params@ == self@.render_params,
            is_terminated(params@),
    {
        self.render_params.params()
    }

    /// Encodes one parameter for the native call that sets a parameter of this context. The
    /// status of that call goes through `mpv_err`.
    pub fn set_parameter<R, C>(&self, param: RenderParam<R, C>) -> (call: NativeCall<R, C>)
        ensures
            call.ctx == self@.ctx,
            call.param == param.spec_encode(),
    {
        NativeCall { ctx: self.ctx, param: EncodedParam::from(param) }
    }

    /// Encodes one parameter for the native call that queries this context. What the call
    /// gave goes through `get_info_result`.
    pub fn get_info<R, C>(&self, param: RenderParam<R, C>) -> (call: NativeCall<R, C>)
        ensures
            call.ctx == self@.ctx,
            call.param == param.spec_encode(),
    {
        NativeCall { ctx: self.ctx, param: EncodedParam::from(param) }
    }

    /// Prepares one render call into the default framebuffer: builds the parameter array for
    /// a target of `width` by `height` pixels, keeps it in place of the array that was
    /// submitted before, and gives the handle of the native context to render on. Any size is
    /// taken: the native library judges it. The array to submit is `render_params`, and the
    /// status of the native call goes through `mpv_err`.
    pub fn render(&mut self, width: i32, height: i32) -> (ctx: usize)
        ensures
            final(self)@ == old(self)@.render(width, height),
            is_terminated(final(self)@.render_params),
            ctx == old(self)@.ctx,
    {
        self.render_params = ParamArray::render(width, height);
        self.ctx
    }

    /// Gives the handle of the native context that is to pull the latest frame state. The
    /// context itself does not change.
    pub fn update(&self) -> (ctx: usize)
        ensures
            ctx == self@.ctx,
    {
        self.ctx
    }

    /// Records `cleanup` for a new update callback and gives the steps that put the callback
    /// in place: first the cleanup of the callback that it replaces, if there is one, then
    /// the registration with the native library.
    #[must_use]
    pub fn set_update_callback(&mut self, cleanup: Cleanup) -> (actions: Vec<Action<Cleanup>>)
        ensures
            final(self)@ == old(self)@.set_update_callback(cleanup),
            actions@ == old(self)@.registration(),
    {
        let mut actions = Vec::new();
        if let Some(update_callback_cleanup) = self.update_callback_cleanup.take() {
            actions.push(Action::RunCleanup(update_callback_cleanup));
        }
        self.update_callback_cleanup = Some(cleanup);
        actions.push(Action::SetUpdateCallback(self.ctx));
        actions
    }

    /// Ends the context and gives the steps that release what it held: first the pending
    /// cleanup, if there is one, then the native context freed, unless its handle is null.
    #[must_use]
    pub fn destroy(self) -> (actions: Vec<Action<Cleanup>>)
        ensures
            actions@ == self@.teardown(),
    {
        let mut actions = Vec::new();
        if let Some(update_callback_cleanup) = self.update_callback_cleanup {
            actions.push(Action::RunCleanup(update_callback_cleanup));
        }
        if self.ctx != 0 {
            actions.push(Action::Free(self.ctx));
        }
        actions
    }
}

/// What a query of the native library means for the caller, from its status `res` and the
/// parameter as it stands after the call, with the data that the native library wrote.
pub open spec fn spec_get_info_result<Resolver, GLContext>(
    written: EncodedParam<Resolver, GLContext>,
    res: i32,
) -> Result<RenderParam<Resolver, GLContext>, Error> {
    if res == 0 {
        Ok(written.spec_decode().unwrap())
    } else {
        Err(Error::Raw(res))
    }
}

/// Reads the outcome of a query: on the status 0 the frame description that the native
/// library wrote, decoded; on any other status the status as an error. Only a frame
/// description can be read back, so on the status 0 `written` must be one that can be
/// decoded.
pub fn get_info_result<Resolver, GLContext>(
    written: EncodedParam<Resolver, GLContext>,
    res: i32,
) -> (info: Result<RenderParam<Resolver, GLContext>, Error>)
    requires
        res == 0 ==> written.spec_is_next_frame_info(),
    ensures
        info == spec_get_info_result(written, res),
        res == 0 ==> info matches Ok(RenderParam::NextFrameInfo(_)),
{
    if res == 0 {
        return Ok(written.decode().unwrap());
    }
    Err(Error::Raw(res))
}

/// The cleanups that a run of steps asks for, in the order of the steps.
pub open spec fn cleanups_run<Cleanup>(actions: Seq<Action<Cleanup>>) -> Seq<Cleanup>
    decreases actions.len(),
{
    if actions.len() == 0 {
        seq![]
    } else {
        let rest = cleanups_run(actions.drop_last());
        match actions.last() {
            Action::RunCleanup(cleanup) => rest.push(cleanup),
            _ => rest,
        }
    }
}

impl<Resolver, GLContext, Cleanup> RenderContextView<Resolver, GLContext, Cleanup> {
    /// The context after the update callback was set once for each of `cleanups`, in their
    /// order.
    pub open spec fn set_update_callbacks(self, cleanups: Seq<Cleanup>) -> Self
        decreases cleanups.len(),
    {
        if cleanups.len() == 0 {
            self
        } else {
            self.set_update_callbacks(cleanups.drop_last()).set_update_callback(cleanups.last())
        }
    }

    /// The steps of all those registrations, one after another.
    pub open spec fn registrations(self, cleanups: Seq<Cleanup>) -> Seq<Action<Cleanup>>
        decreases cleanups.len(),
    {
        if cleanups.len() == 0 {
            seq![]
        } else {
            self.registrations(cleanups.drop_last()) + self.set_update_callbacks(
                cleanups.drop_last(),
            ).registration()
        }
    }
}

/// The cleanups of two runs of steps, one after the other, are those of the first run
/// followed by those of the second.
pub proof fn lemma_cleanups_run_concat<Cleanup>(
    first: Seq<Action<Cleanup>>,
    second: Seq<Action<Cleanup>>,
)
    ensures
        cleanups_run(first + second) == cleanups_run(first) + cleanups_run(second),
    decreases second.len(),
{
    if second.len() > 0 {
        assert((first + second).drop_last() == first + second.drop_last());
        lemma_cleanups_run_concat(first, second.drop_last());
    }
}

/// Setting the update callback a second time releases the first callback, and only that:
/// its steps are the cleanup of the first callback and then the registration of the second.
/// The cleanup of the second callback stays pending.
pub proof fn lemma_second_callback_releases_first<Resolver, GLContext, Cleanup>(
    context: RenderContextView<Resolver, GLContext, Cleanup>,
    first: Cleanup,
    second: Cleanup,
)
    ensures
        context.set_update_callback(first).registration() == seq![
            Action::RunCleanup(first),
            Action::SetUpdateCallback(context.ctx),
        ],
        context.set_update_callback(first).set_update_callback(second).update_callback_cleanup
            == Some(second),
{
}

/// Over the life of a context no cleanup is run twice and none is left out: however often
/// the update callback is set, the cleanups that the steps of the registrations and of the
/// teardown run are the cleanup that was pending at first, if one was, and then each
/// recorded cleanup, once and in the order of recording. Before the teardown all of them
/// but the last have run, and the last is pending.
pub proof fn lemma_each_cleanup_runs_once<Resolver, GLContext, Cleanup>(
    context: RenderContextView<Resolver, GLContext, Cleanup>,
    cleanups: Seq<Cleanup>,
)
    ensures
        cleanups_run(context.registrations(cleanups)) + context.set_update_callbacks(
            cleanups,
        ).pending() == context.pending() + cleanups,
        cleanups_run(
            context.registrations(cleanups) + context.set_update_callbacks(cleanups).teardown(),
        ) == context.pending() + cleanups,
        context.set_update_callbacks(cleanups).ctx == context.ctx,
    decreases cleanups.len(),
{
    let after = context.set_update_callbacks(cleanups);
    lemma_release_runs_pending(after);
    if cleanups.len() > 0 {
        let before = context.set_update_callbacks(cleanups.drop_last());
        lemma_each_cleanup_runs_once(context, cleanups.drop_last());
        lemma_release_runs_pending(before);
        lemma_cleanups_run_concat(
            context.registrations(cleanups.drop_last()),
            before.registration(),
        );
        assert(before.registration().drop_last() == before.release());
    }
    lemma_cleanups_run_concat(context.registrations(cleanups), after.teardown());
    if after.ctx != 0 {
        assert(after.teardown().drop_last() == after.release());
    }
}

/// The steps that release the pending cleanup run that cleanup and nothing else.
proof fn lemma_release_runs_pending<Resolver, GLContext, Cleanup>(
    context: RenderContextView<Resolver, GLContext, Cleanup>,
)
    ensures
        cleanups_run(context.release()) == context.pending(),
{
    if context.update_callback_cleanup is Some {
        assert(cleanups_run(context.release().drop_last()) == Seq::<Cleanup>::empty());
    }
}

/// Replacing the update callback registers once, as the last step and on the handle of the
/// context. Before it at most one cleanup is run, and nothing is freed.
pub proof fn lemma_registration_registers_last<Resolver, GLContext, Cleanup>(
    context: RenderContextView<Resolver, GLContext, Cleanup>,
)
    ensures
        1 <= context.registration().len() <= 2,
        context.registration().last() == Action::<Cleanup>::SetUpdateCallback(context.ctx),
        forall|i: int|
            0 <= i < context.registration().len() - 1 ==> (
            #[trigger] context.registration()[i]) is RunCleanup,
{
}

/// Ending a context frees the native context at most once, as the last step, and never by a
/// null handle: a context whose handle is null is ended without a free. Nothing is
/// registered on the way.
pub proof fn lemma_teardown_frees_once<Resolver, GLContext, Cleanup>(
    context: RenderContextView<Resolver, GLContext, Cleanup>,
)
    ensures
        context.teardown().len() <= 2,
        forall|i: int|
            0 <= i < context.teardown().len() ==> !((
            #[trigger] context.teardown()[i]) is SetUpdateCallback),
        forall|i: int|
            0 <= i < context.teardown().len() && (#[trigger] context.teardown()[i]) is Free ==> i
                == context.teardown().len() - 1 && context.ctx != 0 && context.teardown()[i]
                == Action::<Cleanup>::Free(context.ctx),
        context.ctx != 0 ==> context.teardown().len() > 0 && context.teardown().last()
            == Action::<Cleanup>::Free(context.ctx),
{
}

} // verus!
