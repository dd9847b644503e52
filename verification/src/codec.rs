//! The wire form of a render parameter and the two directions of the codec.
//!
//! The native library takes a parameter as a tag and a pointer. What the pointer leads to
//! depends on the tag. Here the wire form keeps the tag as it is and, in place of the pointer,
//! the value that the pointer leads to, so that both directions of the codec are plain
//! functions. The caller makes the pointer: it gives the payload an address that stays valid
//! for the native call.

use crate::frame::RawFrameInfo;
use crate::frame::RenderFrameInfo;
use crate::frame::RenderFrameInfoFlag;
use crate::param::OpenGLInitParams;
use crate::param::PARAM_ADVANCED_CONTROL;
use crate::param::PARAM_AMBIENT_LIGHT;
use crate::param::PARAM_API_TYPE;
use crate::param::PARAM_BLOCK_FOR_TARGET_TIME;
use crate::param::PARAM_DEPTH;
use crate::param::PARAM_FLIP_Y;
use crate::param::PARAM_ICC_PROFILE;
use crate::param::PARAM_INVALID;
use crate::param::PARAM_NEXT_FRAME_INFO;
use crate::param::PARAM_OPENGL_FBO;
use crate::param::PARAM_OPENGL_INIT_PARAMS;
use crate::param::PARAM_SKIP_RENDERING;
use crate::param::PARAM_WL_DISPLAY;
use crate::param::PARAM_X11_DISPLAY;
use crate::param::RenderParam;
use crate::param::RenderParamApiType;
use crate::param::FBO;
use vstd::prelude::*;

verus! {

/// A render target as the native library lays it out. An `internal_format` of 0 leaves the
/// format of the target open.
#[derive(Clone, Copy, Debug, PartialEq, Eq, Structural)]
pub struct RawFbo {
    pub fbo: i32,
    pub w: i32,
    pub h: i32,
    pub internal_format: i32,
}

/// What the data pointer of an encoded parameter leads to.
#[derive(Clone, Debug, PartialEq, Eq)]
pub enum ParamData<Resolver, GLContext> {
    /// Nothing: the pointer is null.
    Null,
    /// The name of a render backend, a constant string that is never allocated or freed.
    ApiType(RenderParamApiType),
    /// The resolver and its context, which the native library calls back with names of
    /// OpenGL functions.
    InitParams(OpenGLInitParams<Resolver, GLContext>),
    /// A render target.
    Fbo(RawFbo),
    /// One C `int`.
    Int(i32),
    /// A buffer of bytes. Its length is not part of the wire form.
    Bytes(Vec<u8>),
    /// A frame description, which a query overwrites.
    FrameInfo(RawFrameInfo),
    /// Not a payload of this library: the caller's own pointer, passed through as it came.
    Address(usize),
}

/// A render parameter in wire form: its tag and its payload.
#[derive(Clone, Debug, PartialEq, Eq)]
pub struct EncodedParam<Resolver, GLContext> {
    pub type_: u32,
    pub data: ParamData<Resolver, GLContext>,
}

/// A truth value as a C `int`: 1 for true, 0 for false.
pub open spec fn spec_c_int(flag: bool) -> i32 {
    if flag {
        1
    } else {
        0
    }
}

/// A truth value as a C `int`: 1 for true, 0 for false.
fn c_int(flag: bool) -> (value: i32)
    ensures
        value == spec_c_int(flag),
{
    if flag {
        1
    } else {
        0
    }
}

impl FBO {
    /// This target in the native layout, with the format left open.
    pub open spec fn spec_to_raw(self) -> RawFbo {
        RawFbo { fbo: self.fbo, w: self.width, h: self.height, internal_format: 0 }
    }

    /// The target that a native render target stands for.
    pub open spec fn spec_from_raw(raw: RawFbo) -> FBO {
        FBO { fbo: raw.fbo, width: raw.w, height: raw.h }
    }
}

impl<Resolver, GLContext> RenderParam<Resolver, GLContext> {
    /// The payload that stands for this parameter's value.
    pub open spec fn spec_payload(self) -> ParamData<Resolver, GLContext> {
        match self {
            RenderParam::Invalid => ParamData::Null,
            RenderParam::ApiType(api_type) => ParamData::ApiType(api_type),
            RenderParam::InitParams(params) => ParamData::InitParams(params),
            RenderParam::FBO(fbo) => ParamData::Fbo(fbo.spec_to_raw()),
            RenderParam::FlipY(flip) => ParamData::Int(spec_c_int(flip)),
            RenderParam::Depth(depth) => ParamData::Int(depth),
            RenderParam::ICCProfile(bytes) => ParamData::Bytes(bytes),
            RenderParam::AmbientLight(lux) => ParamData::Int(lux),
            RenderParam::X11Display(ptr) => ParamData::Address(ptr),
            RenderParam::WaylandDisplay(ptr) => ParamData::Address(ptr),
            RenderParam::AdvancedControl(adv_ctrl) => ParamData::Int(spec_c_int(adv_ctrl)),
            RenderParam::NextFrameInfo(frame_info) => ParamData::FrameInfo(
                frame_info.spec_to_raw(),
            ),
            RenderParam::BlockForTargetTime(block) => ParamData::Int(spec_c_int(block)),
            RenderParam::SkipRendering(skip_rendering) => ParamData::Int(
                spec_c_int(skip_rendering),
            ),
        }
    }

    /// The wire form of this parameter: its tag and the payload that stands for its value.
    pub open spec fn spec_encode(self) -> EncodedParam<Resolver, GLContext> {
        EncodedParam { type_: self.spec_discriminant(), data: self.spec_payload() }
    }
}

impl<Resolver, GLContext> From<RenderParam<Resolver, GLContext>> for EncodedParam<Resolver, GLContext> {
    /// Encodes a parameter: the tag of its variant, and its value as the payload that the
    /// native library expects behind that tag.
    fn from(val: RenderParam<Resolver, GLContext>) -> (encoded: EncodedParam<Resolver, GLContext>)
        ensures
            encoded == val.spec_encode(),
    {
        let type_ = u32::from(&val);
        let data = match val {
            RenderParam::Invalid => ParamData::Null,
            RenderParam::ApiType(api_type) => ParamData::ApiType(api_type),
            RenderParam::InitParams(params) => ParamData::InitParams(params),
            RenderParam::FBO(fbo) => ParamData::Fbo(
                RawFbo { fbo: fbo.fbo, w: fbo.width, h: fbo.height, internal_format: 0 },
            ),
            RenderParam::FlipY(flip) => ParamData::Int(c_int(flip)),
            RenderParam::Depth(depth) => ParamData::Int(depth),
            RenderParam::ICCProfile(bytes) => ParamData::Bytes(bytes),
            RenderParam::AmbientLight(lux) => ParamData::Int(lux),
            RenderParam::X11Display(ptr) => ParamData::Address(ptr),
            RenderParam::WaylandDisplay(ptr) => ParamData::Address(ptr),
            RenderParam::AdvancedControl(adv_ctrl) => ParamData::Int(c_int(adv_ctrl)),
            RenderParam::NextFrameInfo(frame_info) => ParamData::FrameInfo(frame_info.to_raw()),
            RenderParam::BlockForTargetTime(block) => ParamData::Int(c_int(block)),
            RenderParam::SkipRendering(skip_rendering) => ParamData::Int(c_int(skip_rendering)),
        };
        EncodedParam { type_, data }
    }
}

impl<Resolver, GLContext> vstd::std_specs::convert::FromSpecImpl<RenderParam<Resolver, GLContext>> for EncodedParam<Resolver, GLContext> {
    open spec fn obeys_from_spec() -> bool {
        true
    }

    open spec fn from_spec(val: RenderParam<Resolver, GLContext>) -> EncodedParam<
        Resolver,
        GLContext,
    > {
        val.spec_encode()
    }
}

impl<Resolver, GLContext> EncodedParam<Resolver, GLContext> {
    /// The entry that ends a parameter array: tag 0 and no data.
    pub open spec fn spec_terminator() -> EncodedParam<Resolver, GLContext> {
        EncodedParam { type_: PARAM_INVALID, data: ParamData::Null }
    }

    /// The parameter that this wire form stands for, where its payload has the shape that its
    /// tag asks for: an `int` that is not 0 reads as true, the format of a render target is
    /// left out, and a frame description is read by the low word of its flag field, which
    /// must be a flag constant. Any other wire form stands for no parameter.
    pub open spec fn spec_decode(self) -> Option<RenderParam<Resolver, GLContext>> {
        match self.data {
            ParamData::Null => if self.type_ == PARAM_INVALID {
                Some(RenderParam::Invalid)
            } else {
                None
            },
            ParamData::ApiType(api_type) => if self.type_ == PARAM_API_TYPE {
                Some(RenderParam::ApiType(api_type))
            } else {
                None
            },
            ParamData::InitParams(params) => if self.type_ == PARAM_OPENGL_INIT_PARAMS {
                Some(RenderParam::InitParams(params))
            } else {
                None
            },
            ParamData::Fbo(raw) => if self.type_ == PARAM_OPENGL_FBO {
                Some(RenderParam::FBO(FBO::spec_from_raw(raw)))
            } else {
                None
            },
            ParamData::Int(value) => if self.type_ == PARAM_FLIP_Y {
                Some(RenderParam::FlipY(value != 0))
            } else if self.type_ == PARAM_DEPTH {
                Some(RenderParam::Depth(value))
            } else if self.type_ == PARAM_AMBIENT_LIGHT {
                Some(RenderParam::AmbientLight(value))
            } else if self.type_ == PARAM_ADVANCED_CONTROL {
                Some(RenderParam::AdvancedControl(value != 0))
            } else if self.type_ == PARAM_BLOCK_FOR_TARGET_TIME {
                Some(RenderParam::BlockForTargetTime(value != 0))
            } else if self.type_ == PARAM_SKIP_RENDERING {
                Some(RenderParam::SkipRendering(value != 0))
            } else {
                None
            },
            ParamData::Bytes(bytes) => if self.type_ == PARAM_ICC_PROFILE {
                Some(RenderParam::ICCProfile(bytes))
            } else {
                None
            },
            ParamData::FrameInfo(raw) => if self.type_ == PARAM_NEXT_FRAME_INFO
                && RenderFrameInfoFlag::spec_is_known(raw.flags) {
                Some(RenderParam::NextFrameInfo(RenderFrameInfo::spec_from_raw(raw)))
            } else {
                None
            },
            ParamData::Address(ptr) => if self.type_ == PARAM_X11_DISPLAY {
                Some(RenderParam::X11Display(ptr))
            } else if self.type_ == PARAM_WL_DISPLAY {
                Some(RenderParam::WaylandDisplay(ptr))
            } else {
                None
            },
        }
    }

    /// Whether this is the wire form of a frame description that can be read.
    pub open spec fn spec_is_next_frame_info(&self) -> bool {
        self.spec_decode() matches Some(RenderParam::NextFrameInfo(_))
    }

    /// The entry that ends a parameter array: tag 0 and no data.
    pub fn terminator() -> (end: EncodedParam<Resolver, GLContext>)
        ensures
            end == Self::spec_terminator(),
    {
        EncodedParam { type_: PARAM_INVALID, data: ParamData::Null }
    }

    /// Whether this is the wire form of a frame description that can be read: the tag and the
    /// payload are those of a frame description, and the low word of its flag field is a
    /// flag constant.
    #[verifier::when_used_as_spec(spec_is_next_frame_info)]
    pub fn is_next_frame_info(&self) -> (ok: bool)
        ensures
            ok == self.spec_is_next_frame_info(),
    {
        match &self.data {
            ParamData::FrameInfo(raw) => self.type_ == PARAM_NEXT_FRAME_INFO
                && RenderFrameInfoFlag::is_known(raw.flags),
            _ => false,
        }
    }

    /// Decodes a wire form into the parameter that it stands for, if it stands for one.
    pub fn decode(self) -> (param: Option<RenderParam<Resolver, GLContext>>)
        ensures
            param == self.spec_decode(),
    {
        let tag = self.type_;
        match self.data {
            ParamData::Null => if tag == PARAM_INVALID {
                Some(RenderParam::Invalid)
            } else {
                None
            },
            ParamData::ApiType(api_type) => if tag == PARAM_API_TYPE {
                Some(RenderParam::ApiType(api_type))
            } else {
                None
            },
            ParamData::InitParams(params) => if tag == PARAM_OPENGL_INIT_PARAMS {
                Some(RenderParam::InitParams(params))
            } else {
                None
            },
            ParamData::Fbo(raw) => if tag == PARAM_OPENGL_FBO {
                Some(RenderParam::FBO(FBO { fbo: raw.fbo, width: raw.w, height: raw.h }))
            } else {
                None
            },
            ParamData::Int(value) => if tag == PARAM_FLIP_Y {
                Some(RenderParam::FlipY(value != 0))
            } else if tag == PARAM_DEPTH {
                Some(RenderParam::Depth(value))
            } else if tag == PARAM_AMBIENT_LIGHT {
                Some(RenderParam::AmbientLight(value))
            } else if tag == PARAM_ADVANCED_CONTROL {
                Some(RenderParam::AdvancedControl(value != 0))
            } else if tag == PARAM_BLOCK_FOR_TARGET_TIME {
                Some(RenderParam::BlockForTargetTime(value != 0))
            } else if tag == PARAM_SKIP_RENDERING {
                Some(RenderParam::SkipRendering(value != 0))
            } else {
                None
            },
            ParamData::Bytes(bytes) => if tag == PARAM_ICC_PROFILE {
                Some(RenderParam::ICCProfile(bytes))
            } else {
                None
            },
            ParamData::FrameInfo(raw) => if tag == PARAM_NEXT_FRAME_INFO
                && RenderFrameInfoFlag::is_known(raw.flags) {
                Some(RenderParam::NextFrameInfo(RenderFrameInfo::from_raw(raw)))
            } else {
                None
            },
            ParamData::Address(ptr) => if tag == PARAM_X11_DISPLAY {
                Some(RenderParam::X11Display(ptr))
            } else if tag == PARAM_WL_DISPLAY {
                Some(RenderParam::WaylandDisplay(ptr))
            } else {
                None
            },
        }
    }
}

/// Whether a parameter array ends as the native library asks: its last entry, and no entry
/// before it, has tag 0, and the last entry has no data.
pub open spec fn is_terminated<Resolver, GLContext>(
    params: Seq<EncodedParam<Resolver, GLContext>>,
) -> bool {
    &&& params.len() > 0
    &&& params.last() == EncodedParam::<Resolver, GLContext>::spec_terminator()
    &&& forall|i: int| 0 <= i < params.len() - 1 ==> (#[trigger] params[i]).type_ != PARAM_INVALID
}

/// Decoding undoes encoding: the wire form of every parameter stands for a parameter, the
/// one that was encoded.
pub proof fn lemma_decode_inverts_encode<Resolver, GLContext>(
    param: RenderParam<Resolver, GLContext>,
)
    ensures
        param.spec_encode().spec_decode() == Some(param),
{
    match param {
        RenderParam::NextFrameInfo(frame_info) => {
            crate::frame::lemma_from_inverts_bits(frame_info.flags, frame_info.target_time);
        },
        _ => {},
    }
}

/// A wire form that stands for a parameter has the tag of that parameter.
pub proof fn lemma_decode_keeps_tag<Resolver, GLContext>(
    encoded: EncodedParam<Resolver, GLContext>,
)
    ensures
        encoded.spec_decode() matches Some(param) ==> param.spec_discriminant() == encoded.type_,
{
}

/// The wire form of a parameter has tag 0 only for `Invalid`, whose wire form is the entry
/// that ends an array.
pub proof fn lemma_only_invalid_encodes_to_terminator<Resolver, GLContext>(
    param: RenderParam<Resolver, GLContext>,
)
    ensures
        param.spec_encode().type_ == PARAM_INVALID <==> param is Invalid,
        param is Invalid ==> param.spec_encode() == EncodedParam::<
            Resolver,
            GLContext,
        >::spec_terminator(),
{
}

} // verus!
