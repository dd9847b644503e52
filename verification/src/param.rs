//! The render parameters, as typed values, and the tag that the native library knows each by.

use crate::frame::RenderFrameInfo;
use vstd::prelude::*;

verus! {

/// The tag of `Invalid`, which ends a parameter array. The tags are those of the native
/// library's enumeration of parameter types.
pub const PARAM_INVALID: u32 = 0;

/// The tag of `ApiType`.
pub const PARAM_API_TYPE: u32 = 1;

/// The tag of `InitParams`.
pub const PARAM_OPENGL_INIT_PARAMS: u32 = 2;

/// The tag of `FBO`.
pub const PARAM_OPENGL_FBO: u32 = 3;

/// The tag of `FlipY`.
pub const PARAM_FLIP_Y: u32 = 4;

/// The tag of `Depth`.
pub const PARAM_DEPTH: u32 = 5;

/// The tag of `ICCProfile`.
pub const PARAM_ICC_PROFILE: u32 = 6;

/// The tag of `AmbientLight`.
pub const PARAM_AMBIENT_LIGHT: u32 = 7;

/// The tag of `X11Display`.
pub const PARAM_X11_DISPLAY: u32 = 8;

/// The tag of `WaylandDisplay`.
pub const PARAM_WL_DISPLAY: u32 = 9;

/// The tag of `AdvancedControl`.
pub const PARAM_ADVANCED_CONTROL: u32 = 10;

/// The tag of `NextFrameInfo`.
pub const PARAM_NEXT_FRAME_INFO: u32 = 11;

/// The tag of `BlockForTargetTime`.
pub const PARAM_BLOCK_FOR_TARGET_TIME: u32 = 12;

/// The tag of `SkipRendering`.
pub const PARAM_SKIP_RENDERING: u32 = 13;

/// For initializing the OpenGL state of the renderer through `RenderParam::InitParams`.
///
/// The native library resolves OpenGL functions through `get_proc_address`, which is called
/// with `ctx` and the name of the function. Both are only carried here: the type of the
/// resolver is a parameter of its own.
#[derive(Clone, Copy, Debug, PartialEq, Eq)]
pub struct OpenGLInitParams<Resolver, GLContext> {
    /// Looks up the address of an OpenGL function by its name.
    pub get_proc_address: Resolver,
    /// The value handed to `get_proc_address` with each name.
    pub ctx: GLContext,
}

/// For `RenderParam::FBO`: a framebuffer object and its size in pixels. Framebuffer 0 is the
/// default target, the current backbuffer.
#[derive(Clone, Copy, Debug, PartialEq, Eq, Structural)]
pub struct FBO {
    pub fbo: i32,
    pub width: i32,
    pub height: i32,
}

/// The render backend that a context is created for.
#[derive(Clone, Copy, Debug, PartialEq, Eq, Structural)]
pub enum RenderParamApiType {
    OpenGl,
}

/// A parameter of the render API. Display handles are kept as addresses, which this library
/// passes on and never follows.
#[derive(Clone, Debug, PartialEq, Eq)]
pub enum RenderParam<Resolver, GLContext> {
    /// No parameter. Its wire form ends a parameter array.
    Invalid,
    /// The render backend to use.
    ApiType(RenderParamApiType),
    /// What the OpenGL renderer is initialized with.
    InitParams(OpenGLInitParams<Resolver, GLContext>),
    /// The target of a render call.
    FBO(FBO),
    /// Whether a render call flips the picture, as the default framebuffer of OpenGL needs
    /// it.
    FlipY(bool),
    /// The depth of the target in bits per channel.
    Depth(i32),
    /// An ICC profile, as the bytes of its file.
    ICCProfile(Vec<u8>),
    /// The ambient light in lux.
    AmbientLight(i32),
    /// The address of an X11 display.
    X11Display(usize),
    /// The address of a Wayland display.
    WaylandDisplay(usize),
    /// Whether the caller takes advanced control of rendering, and with it the duty to pull
    /// the frame state whenever the update callback fires.
    AdvancedControl(bool),
    /// What is known of the next frame. In a query the value is a placeholder that the
    /// answer overwrites.
    NextFrameInfo(RenderFrameInfo),
    /// Whether a render call waits for the time at which its frame is to be shown.
    BlockForTargetTime(bool),
    /// Whether a render call draws nothing.
    SkipRendering(bool),
}

impl<Resolver, GLContext> RenderParam<Resolver, GLContext> {
    /// The tag of this parameter in the native library's enumeration of parameter types.
    pub open spec fn spec_discriminant(self) -> u32 {
        match self {
            RenderParam::Invalid => PARAM_INVALID,
            RenderParam::ApiType(_) => PARAM_API_TYPE,
            RenderParam::InitParams(_) => PARAM_OPENGL_INIT_PARAMS,
            RenderParam::FBO(_) => PARAM_OPENGL_FBO,
            RenderParam::FlipY(_) => PARAM_FLIP_Y,
            RenderParam::Depth(_) => PARAM_DEPTH,
            RenderParam::ICCProfile(_) => PARAM_ICC_PROFILE,
            RenderParam::AmbientLight(_) => PARAM_AMBIENT_LIGHT,
            RenderParam::X11Display(_) => PARAM_X11_DISPLAY,
            RenderParam::WaylandDisplay(_) => PARAM_WL_DISPLAY,
            RenderParam::AdvancedControl(_) => PARAM_ADVANCED_CONTROL,
            RenderParam::NextFrameInfo(_) => PARAM_NEXT_FRAME_INFO,
            RenderParam::BlockForTargetTime(_) => PARAM_BLOCK_FOR_TARGET_TIME,
            RenderParam::SkipRendering(_) => PARAM_SKIP_RENDERING,
        }
    }

    /// Whether two parameters are of one variant, whatever they hold.
    pub open spec fn same_variant(self, other: Self) -> bool {
        match (self, other) {
            (RenderParam::Invalid, RenderParam::Invalid) => true,
            (RenderParam::ApiType(_), RenderParam::ApiType(_)) => true,
            (RenderParam::InitParams(_), RenderParam::InitParams(_)) => true,
            (RenderParam::FBO(_), RenderParam::FBO(_)) => true,
            (RenderParam::FlipY(_), RenderParam::FlipY(_)) => true,
            (RenderParam::Depth(_), RenderParam::Depth(_)) => true,
            (RenderParam::ICCProfile(_), RenderParam::ICCProfile(_)) => true,
            (RenderParam::AmbientLight(_), RenderParam::AmbientLight(_)) => true,
            (RenderParam::X11Display(_), RenderParam::X11Display(_)) => true,
            (RenderParam::WaylandDisplay(_), RenderParam::WaylandDisplay(_)) => true,
            (RenderParam::AdvancedControl(_), RenderParam::AdvancedControl(_)) => true,
            (RenderParam::NextFrameInfo(_), RenderParam::NextFrameInfo(_)) => true,
            (RenderParam::BlockForTargetTime(_), RenderParam::BlockForTargetTime(_)) => true,
            (RenderParam::SkipRendering(_), RenderParam::SkipRendering(_)) => true,
            _ => false,
        }
    }
}

impl<Resolver, GLContext> From<&RenderParam<Resolver, GLContext>> for u32 {
    /// The tag of a parameter in the native library's enumeration of parameter types.
    fn from(val: &RenderParam<Resolver, GLContext>) -> (tag: u32)
        ensures
            tag == val.spec_discriminant(),
    {
        match val {
            RenderParam::Invalid => PARAM_INVALID,
            RenderParam::ApiType(_) => PARAM_API_TYPE,
            RenderParam::InitParams(_) => PARAM_OPENGL_INIT_PARAMS,
            RenderParam::FBO(_) => PARAM_OPENGL_FBO,
            RenderParam::FlipY(_) => PARAM_FLIP_Y,
            RenderParam::Depth(_) => PARAM_DEPTH,
            RenderParam::ICCProfile(_) => PARAM_ICC_PROFILE,
            RenderParam::AmbientLight(_) => PARAM_AMBIENT_LIGHT,
            RenderParam::X11Display(_) => PARAM_X11_DISPLAY,
            RenderParam::WaylandDisplay(_) => PARAM_WL_DISPLAY,
            RenderParam::AdvancedControl(_) => PARAM_ADVANCED_CONTROL,
            RenderParam::NextFrameInfo(_) => PARAM_NEXT_FRAME_INFO,
            RenderParam::BlockForTargetTime(_) => PARAM_BLOCK_FOR_TARGET_TIME,
            RenderParam::SkipRendering(_) => PARAM_SKIP_RENDERING,
        }
    }
}

impl<Resolver, GLContext> vstd::std_specs::convert::FromSpecImpl<&RenderParam<Resolver, GLContext>> for u32 {
    open spec fn obeys_from_spec() -> bool {
        true
    }

    open spec fn from_spec(val: &RenderParam<Resolver, GLContext>) -> u32 {
        val.spec_discriminant()
    }
}

/// No tag lies above 13, and tag 0 belongs to `Invalid` alone: every other variant has a tag
/// from 1 to 13.
pub proof fn lemma_discriminant_range<Resolver, GLContext>(
    param: RenderParam<Resolver, GLContext>,
)
    ensures
        param.spec_discriminant() <= 13,
        param.spec_discriminant() == 0 <==> param is Invalid,
{
}

/// The tag names the variant: two parameters have one tag exactly when they are of one
/// variant.
pub proof fn lemma_discriminant_names_variant<Resolver, GLContext>(
    a: RenderParam<Resolver, GLContext>,
    b: RenderParam<Resolver, GLContext>,
)
    ensures
        a.spec_discriminant() == b.spec_discriminant() <==> a.same_variant(b),
{
}

/// Every tag from 1 to 13 is the tag of some parameter.
pub proof fn lemma_discriminant_onto<Resolver, GLContext>(tag: u32)
    requires
        1 <= tag <= 13,
    ensures
        exists|param: RenderParam<Resolver, GLContext>| param.spec_discriminant() == tag,
{
    let param: RenderParam<Resolver, GLContext> = if tag == 1 {
        RenderParam::ApiType(RenderParamApiType::OpenGl)
    } else if tag == 2 {
        RenderParam::InitParams(arbitrary())
    } else if tag == 3 {
        RenderParam::FBO(FBO { fbo: 0, width: 0, height: 0 })
    } else if tag == 4 {
        RenderParam::FlipY(true)
    } else if tag == 5 {
        RenderParam::Depth(0)
    } else if tag == 6 {
        RenderParam::ICCProfile(arbitrary())
    } else if tag == 7 {
        RenderParam::AmbientLight(0)
    } else if tag == 8 {
        RenderParam::X11Display(0)
    } else if tag == 9 {
        RenderParam::WaylandDisplay(0)
    } else if tag == 10 {
        RenderParam::AdvancedControl(true)
    } else if tag == 11 {
        RenderParam::NextFrameInfo(arbitrary())
    } else if tag == 12 {
        RenderParam::BlockForTargetTime(true)
    } else {
        RenderParam::SkipRendering(true)
    };
    assert(param.spec_discriminant() == tag);
}

} // verus!
