//! The two parameter arrays that are handed to the native library whole.

use crate::codec::is_terminated;
use crate::codec::EncodedParam;
use crate::codec::ParamData;
use crate::codec::RawFbo;
use crate::param::OpenGLInitParams;
use crate::param::PARAM_ADVANCED_CONTROL;
use crate::param::PARAM_API_TYPE;
use crate::param::PARAM_FLIP_Y;
use crate::param::PARAM_INVALID;
use crate::param::PARAM_OPENGL_FBO;
use crate::param::PARAM_OPENGL_INIT_PARAMS;
use crate::param::RenderParam;
use crate::param::RenderParamApiType;
use crate::param::FBO;
use vstd::prelude::*;

verus! {

/// The parameter array that creates a context for OpenGL: the backend, the resolver with its
/// context, advanced control switched on, and the end of the array.
pub open spec fn spec_bootstrap_params<Resolver, GLContext>(
    ctx: GLContext,
    get_proc_fn: Resolver,
) -> Seq<EncodedParam<Resolver, GLContext>> {
    seq![
        RenderParam::<Resolver, GLContext>::ApiType(RenderParamApiType::OpenGl).spec_encode(),
        RenderParam::InitParams(
            OpenGLInitParams { get_proc_address: get_proc_fn, ctx: ctx },
        ).spec_encode(),
        RenderParam::<Resolver, GLContext>::AdvancedControl(true).spec_encode(),
        EncodedParam::<Resolver, GLContext>::spec_terminator(),
    ]
}

/// The parameter array of one render call: the default framebuffer in the given size, the
/// picture flipped, advanced control switched on, and the end of the array.
pub open spec fn spec_render_params<Resolver, GLContext>(width: i32, height: i32) -> Seq<
    EncodedParam<Resolver, GLContext>,
> {
    seq![
        RenderParam::<Resolver, GLContext>::FBO(
            FBO { fbo: 0, width: width, height: height },
        ).spec_encode(),
        RenderParam::<Resolver, GLContext>::FlipY(true).spec_encode(),
        RenderParam::<Resolver, GLContext>::AdvancedControl(true).spec_encode(),
        EncodedParam::<Resolver, GLContext>::spec_terminator(),
    ]
}

/// The entry of a parameter array with the given tag and payload.
pub open spec fn entry<Resolver, GLContext>(
    type_: u32,
    data: ParamData<Resolver, GLContext>,
) -> EncodedParam<Resolver, GLContext> {
    EncodedParam { type_, data }
}

/// A parameter array that ends as the native library asks: with the one entry that has tag 0,
/// which has no data.
pub struct ParamArray<Resolver, GLContext> {
    params: Vec<EncodedParam<Resolver, GLContext>>,
}

impl<Resolver, GLContext> View for ParamArray<Resolver, GLContext> {
    type V = Seq<EncodedParam<Resolver, GLContext>>;

    closed spec fn view(&self) -> Seq<EncodedParam<Resolver, GLContext>> {
        self.params@
    }
}

impl<Resolver, GLContext> ParamArray<Resolver, GLContext> {
    #[verifier::type_invariant]
    spec fn terminated(self) -> bool {
        is_terminated(self.params@)
    }

    /// Encodes the parameters that create a context for OpenGL. `get_proc_fn` resolves the
    /// names of OpenGL functions, and `ctx` is handed to it with each name.
    pub fn bootstrap(ctx: GLContext, get_proc_fn: Resolver) -> (array: Self)
        ensures
            array@ == spec_bootstrap_params(ctx, get_proc_fn),
    {
        let mut params = Vec::new();
        params.push(EncodedParam::from(RenderParam::ApiType(RenderParamApiType::OpenGl)));
        params.push(
            EncodedParam::from(
                RenderParam::InitParams(OpenGLInitParams { get_proc_address: get_proc_fn, ctx }),
            ),
        );
        params.push(EncodedParam::from(RenderParam::AdvancedControl(true)));
        params.push(EncodedParam::terminator());
        ParamArray { params }
    }

    /// Encodes the parameters of one render call into the default framebuffer, for a target
    /// of `width` by `height` pixels. Any size is taken: the native library judges it.
    pub fn render(width: i32, height: i32) -> (array: Self)
        ensures
            array@ == spec_render_params::<Resolver, GLContext>(width, height),
    {
        let mut params = Vec::new();
        params.push(EncodedParam::from(RenderParam::FBO(FBO { fbo: 0, width, height })));
        params.push(EncodedParam::from(RenderParam::FlipY(true)));
        params.push(EncodedParam::from(RenderParam::AdvancedControl(true)));
        params.push(EncodedParam::terminator());
        ParamArray { params }
    }

    /// The entries of the array, the last of which ends it.
    pub fn params(&self) -> (params: &Vec<EncodedParam<Resolver, GLContext>>)
        ensures
            params@ == self@,
            is_terminated(params@),
    {
        proof {
            use_type_invariant(self);
        }
        &self.params
    }
}

/// The array that creates a context, entry by entry as it goes to the native library.
pub proof fn lemma_bootstrap_params_on_the_wire<Resolver, GLContext>(
    ctx: GLContext,
    get_proc_fn: Resolver,
)
    ensures
        spec_bootstrap_params(ctx, get_proc_fn) == seq![
            entry(PARAM_API_TYPE, ParamData::ApiType(RenderParamApiType::OpenGl)),
            entry(
                PARAM_OPENGL_INIT_PARAMS,
                ParamData::InitParams((OpenGLInitParams { get_proc_address: get_proc_fn, ctx })),
            ),
            entry(PARAM_ADVANCED_CONTROL, ParamData::Int(1)),
            entry(PARAM_INVALID, ParamData::Null),
        ],
{
}

/// The array of a render call, entry by entry as it goes to the native library.
pub proof fn lemma_render_params_on_the_wire<Resolver, GLContext>(width: i32, height: i32)
    ensures
        spec_render_params::<Resolver, GLContext>(width, height) == seq![
            entry::<Resolver, GLContext>(
                PARAM_OPENGL_FBO,
                ParamData::Fbo((RawFbo { fbo: 0, w: width, h: height, internal_format: 0 })),
            ),
            entry(PARAM_FLIP_Y, ParamData::Int(1)),
            entry(PARAM_ADVANCED_CONTROL, ParamData::Int(1)),
            entry(PARAM_INVALID, ParamData::Null),
        ],
{
}

/// The array of a render call ends as the native library asks, whatever the size of the
/// target, a size of zero or below included.
pub proof fn lemma_render_params_terminated<Resolver, GLContext>(width: i32, height: i32)
    ensures
        is_terminated(spec_render_params::<Resolver, GLContext>(width, height)),
{
}

/// The array that creates a context ends as the native library asks.
pub proof fn lemma_bootstrap_params_terminated<Resolver, GLContext>(
    ctx: GLContext,
    get_proc_fn: Resolver,
)
    ensures
        is_terminated(spec_bootstrap_params(ctx, get_proc_fn)),
{
}

} // verus!
