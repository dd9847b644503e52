//! The render API under one path.

pub use crate::array::ParamArray;
pub use crate::codec::EncodedParam;
pub use crate::codec::ParamData;
pub use crate::codec::RawFbo;
pub use crate::context::get_info_result;
pub use crate::context::Action;
pub use crate::context::NativeCall;
pub use crate::context::RenderContext;
pub use crate::frame::RawFrameInfo;
pub use crate::frame::RenderFrameInfo;
pub use crate::frame::RenderFrameInfoFlag;
pub use crate::param::OpenGLInitParams;
pub use crate::param::RenderParam;
pub use crate::param::RenderParamApiType;
pub use crate::param::FBO;
