use libmpv::render::EncodedParam;
use libmpv::render::OpenGLInitParams;
use libmpv::render::ParamArray;
use libmpv::render::ParamData;
use libmpv::render::RawFbo;
use libmpv::render::RenderParamApiType;

type Array = ParamArray<char, i8>;
type Encoded = EncodedParam<char, i8>;
type Data = ParamData<char, i8>;

fn entry(type_: u32, data: Data) -> Encoded {
    EncodedParam { type_, data }
}

fn render_array(width: i32, height: i32) -> Vec<Encoded> {
    vec![
        entry(3, Data::Fbo(RawFbo { fbo: 0, w: width, h: height, internal_format: 0 })),
        entry(4, Data::Int(1)),
        entry(10, Data::Int(1)),
        entry(0, Data::Null),
    ]
}

#[test]
fn bootstrap_array_is_backend_resolver_advanced_control_end() {
    let array = Array::bootstrap(-3, 'r');
    let expected = vec![
        entry(1, Data::ApiType(RenderParamApiType::OpenGl)),
        entry(2, Data::InitParams(OpenGLInitParams { get_proc_address: 'r', ctx: -3 })),
        entry(10, Data::Int(1)),
        entry(0, Data::Null),
    ];
    assert_eq!(array.params(), &expected);
}

#[test]
fn render_array_is_target_flip_advanced_control_end() {
    let array = Array::render(1920, 1080);
    assert_eq!(array.params(), &render_array(1920, 1080));
}

#[test]
fn render_array_takes_any_size() {
    for (width, height) in [
        (0, 0),
        (0, 1080),
        (-1, -1),
        (i32::MIN, i32::MAX),
        (i32::MAX, i32::MIN),
        (1, 1),
    ] {
        let array = Array::render(width, height);
        assert_eq!(array.params(), &render_array(width, height));
    }
}

#[test]
fn arrays_end_with_the_only_entry_of_tag_zero() {
    let arrays = [
        Array::bootstrap(0, 'x'),
        Array::render(0, 0),
        Array::render(-20, 7),
        Array::render(3840, 2160),
    ];
    for array in arrays {
        let params = array.params();
        let (last, before) = params.split_last().unwrap();
        assert_eq!(last, &Encoded::terminator());
        assert_eq!(last.type_, 0);
        assert_eq!(last.data, Data::Null);
        assert!(before.iter().all(|entry| entry.type_ != 0));
    }
}
