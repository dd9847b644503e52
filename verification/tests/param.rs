use libmpv::render::OpenGLInitParams;
use libmpv::render::RenderFrameInfo;
use libmpv::render::RenderFrameInfoFlag;
use libmpv::render::RenderParam;
use libmpv::render::RenderParamApiType;
use libmpv::render::FBO;

type Param = RenderParam<u8, u16>;

fn one_of_each() -> Vec<Param> {
    vec![
        Param::Invalid,
        Param::ApiType(RenderParamApiType::OpenGl),
        Param::InitParams(OpenGLInitParams { get_proc_address: 3, ctx: 4 }),
        Param::FBO(FBO { fbo: 1, width: 2, height: 3 }),
        Param::FlipY(false),
        Param::Depth(16),
        Param::ICCProfile(vec![1, 2, 3]),
        Param::AmbientLight(500),
        Param::X11Display(0x1000),
        Param::WaylandDisplay(0x2000),
        Param::AdvancedControl(false),
        Param::NextFrameInfo(RenderFrameInfo {
            flags: RenderFrameInfoFlag::Present,
            target_time: 0,
        }),
        Param::BlockForTargetTime(true),
        Param::SkipRendering(true),
    ]
}

#[test]
fn discriminants_are_those_of_the_native_header() {
    assert_eq!(u32::from(&Param::Invalid), 0);
    assert_eq!(u32::from(&Param::ApiType(RenderParamApiType::OpenGl)), 1);
    assert_eq!(u32::from(&Param::InitParams(OpenGLInitParams { get_proc_address: 0, ctx: 0 })), 2);
    assert_eq!(u32::from(&Param::FBO(FBO { fbo: 0, width: 0, height: 0 })), 3);
    assert_eq!(u32::from(&Param::FlipY(true)), 4);
    assert_eq!(u32::from(&Param::Depth(8)), 5);
    assert_eq!(u32::from(&Param::ICCProfile(Vec::new())), 6);
    assert_eq!(u32::from(&Param::AmbientLight(0)), 7);
    assert_eq!(u32::from(&Param::X11Display(0)), 8);
    assert_eq!(u32::from(&Param::WaylandDisplay(0)), 9);
    assert_eq!(u32::from(&Param::AdvancedControl(true)), 10);
    let info = RenderFrameInfo { flags: RenderFrameInfoFlag::Redraw, target_time: 9 };
    assert_eq!(u32::from(&Param::NextFrameInfo(info)), 11);
    assert_eq!(u32::from(&Param::BlockForTargetTime(false)), 12);
    assert_eq!(u32::from(&Param::SkipRendering(false)), 13);
}

#[test]
fn discriminants_count_up_in_the_order_of_the_variants() {
    let tags: Vec<u32> = one_of_each().iter().map(u32::from).collect();
    assert_eq!(tags, (0..=13).collect::<Vec<u32>>());
}

#[test]
fn discriminant_zero_belongs_to_invalid_alone() {
    for param in one_of_each() {
        assert_eq!(u32::from(&param) == 0, param == Param::Invalid);
    }
}

#[test]
fn discriminant_does_not_depend_on_the_value_held() {
    assert_eq!(u32::from(&Param::FlipY(true)), u32::from(&Param::FlipY(false)));
    assert_eq!(u32::from(&Param::Depth(i32::MIN)), u32::from(&Param::Depth(i32::MAX)));
    assert_eq!(u32::from(&Param::X11Display(0)), u32::from(&Param::X11Display(usize::MAX)));
    assert_eq!(
        u32::from(&Param::ICCProfile(Vec::new())),
        u32::from(&Param::ICCProfile(vec![0; 64]))
    );
}

#[test]
fn discriminants_of_different_variants_differ() {
    let params = one_of_each();
    for (i, a) in params.iter().enumerate() {
        for (j, b) in params.iter().enumerate() {
            assert_eq!(u32::from(a) == u32::from(b), i == j);
        }
    }
}
