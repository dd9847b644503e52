use libmpv::mpv_err;
use libmpv::render::get_info_result;
use libmpv::render::Action;
use libmpv::render::EncodedParam;
use libmpv::render::NativeCall;
use libmpv::render::ParamArray;
use libmpv::render::ParamData;
use libmpv::render::RawFrameInfo;
use libmpv::render::RenderContext;
use libmpv::render::RenderFrameInfo;
use libmpv::render::RenderFrameInfoFlag;
use libmpv::render::RenderParam;
use libmpv::Error;
use std::cell::Cell;
use std::cell::RefCell;
use std::rc::Rc;

type Resolver = fn(&u32, &str) -> usize;
type Cleanup = Box<dyn FnOnce()>;
type Context = RenderContext<Resolver, u32, Cleanup>;
type Param = RenderParam<Resolver, u32>;
type Encoded = EncodedParam<Resolver, u32>;
type Data = ParamData<Resolver, u32>;

const HANDLE: usize = 0x7f00_1000;

fn resolve(_ctx: &u32, _name: &str) -> usize {
    0
}

/// One thing that happened in the stub, in the order in which it happened.
#[derive(Debug, Clone, PartialEq, Eq)]
enum Event {
    Created,
    SetParameter(usize, u32, Data),
    Rendered(usize, Vec<u32>),
    Registered(usize),
    Invoked(usize),
    Released(usize),
    Freed(usize),
}

/// Stands in for the native library: it records each call and answers with what the test
/// has set. Callbacks live in `slots`, as they live on the heap for the native library.
struct Native {
    events: Rc<RefCell<Vec<Event>>>,
    slots: Rc<RefCell<Vec<Option<Box<dyn Fn()>>>>>,
    registered: Option<usize>,
    create_status: i32,
    frame: RawFrameInfo,
}

impl Native {
    fn new() -> Native {
        Native {
            events: Rc::new(RefCell::new(Vec::new())),
            slots: Rc::new(RefCell::new(Vec::new())),
            registered: None,
            create_status: 0,
            frame: RawFrameInfo { flags: 1, target_time: 0 },
        }
    }

    fn events(&self) -> Vec<Event> {
        self.events.borrow().clone()
    }

    fn create(&mut self, params: &[Encoded]) -> (usize, i32) {
        assert_eq!(params.last().map(|end| end.type_), Some(0));
        if self.create_status != 0 {
            return (0, self.create_status);
        }
        self.events.borrow_mut().push(Event::Created);
        (HANDLE, 0)
    }

    fn set_parameter(&mut self, call: &NativeCall<Resolver, u32>) -> i32 {
        let event = Event::SetParameter(call.ctx, call.param.type_, call.param.data.clone());
        self.events.borrow_mut().push(event);
        if call.param.type_ == 10 {
            0
        } else {
            -8
        }
    }

    fn get_info(&mut self, call: NativeCall<Resolver, u32>) -> (Encoded, i32) {
        match call.param.data {
            ParamData::FrameInfo(_) => {
                let data = ParamData::FrameInfo(self.frame);
                (EncodedParam { type_: call.param.type_, data }, 0)
            }
            _ => (call.param, -8),
        }
    }

    fn render(&mut self, ctx: usize, params: &[Encoded]) -> i32 {
        let tags = params.iter().map(|param| param.type_).collect();
        self.events.borrow_mut().push(Event::Rendered(ctx, tags));
        0
    }

    /// Puts a callback on the heap and gives its slot and the cleanup that reclaims it.
    fn allocate(&mut self, callback: Box<dyn Fn()>) -> (usize, Cleanup) {
        let slot = self.slots.borrow().len();
        self.slots.borrow_mut().push(Some(callback));
        let slots = Rc::clone(&self.slots);
        let events = Rc::clone(&self.events);
        let cleanup = Box::new(move || {
            let callback = slots.borrow_mut()[slot].take();
            assert!(callback.is_some(), "the callback in slot {slot} was released twice");
            events.borrow_mut().push(Event::Released(slot));
        });
        (slot, cleanup)
    }

    /// Takes the steps that a context gave, in their order. `slot` holds the callback that a
    /// registration among them is for.
    fn perform(&mut self, actions: Vec<Action<Cleanup>>, slot: usize) {
        for action in actions {
            match action {
                Action::RunCleanup(cleanup) => cleanup(),
                Action::SetUpdateCallback(ctx) => {
                    assert_eq!(ctx, HANDLE);
                    self.registered = Some(slot);
                    self.events.borrow_mut().push(Event::Registered(slot));
                }
                Action::Free(ctx) => {
                    self.registered = None;
                    self.events.borrow_mut().push(Event::Freed(ctx));
                }
            }
        }
    }

    /// The native library notifies the callback that is registered.
    fn notify(&mut self) {
        let slot = self.registered.expect("no callback is registered");
        self.events.borrow_mut().push(Event::Invoked(slot));
        let slots = self.slots.borrow();
        let callback = slots[slot].as_ref().expect("the registered callback was released");
        callback();
    }
}

fn create(native: &mut Native) -> Result<Context, Error> {
    let render_params = ParamArray::bootstrap(17, resolve as Resolver);
    let (mpv_gl, err) = native.create(render_params.params());
    Context::new(render_params, mpv_gl, err)
}

fn counting(count: &Rc<Cell<u32>>) -> Box<dyn Fn()> {
    let count = Rc::clone(count);
    Box::new(move || count.set(count.get() + 1))
}

#[test]
fn set_advanced_control_makes_one_native_call() {
    let mut native = Native::new();
    let context = create(&mut native).unwrap();
    let call = context.set_parameter(Param::AdvancedControl(true));
    let status = native.set_parameter(&call);
    assert_eq!(mpv_err((), status), Ok(()));
    assert_eq!(
        native.events(),
        vec![Event::Created, Event::SetParameter(HANDLE, 10, Data::Int(1))]
    );
}

#[test]
fn refused_parameter_comes_back_as_the_status() {
    let mut native = Native::new();
    let context = create(&mut native).unwrap();
    let call = context.set_parameter(Param::Depth(16));
    let status = native.set_parameter(&call);
    assert_eq!(mpv_err((), status), Err(Error::Raw(-8)));
    assert_eq!(
        native.events(),
        vec![Event::Created, Event::SetParameter(HANDLE, 5, Data::Int(16))]
    );
}

#[test]
fn replaced_callback_is_released_once_before_the_next_is_registered() {
    let mut native = Native::new();
    let mut context = create(&mut native).unwrap();
    let first_calls = Rc::new(Cell::new(0));
    let second_calls = Rc::new(Cell::new(0));

    let (first, first_cleanup) = native.allocate(counting(&first_calls));
    let actions = context.set_update_callback(first_cleanup);
    native.perform(actions, first);
    native.notify();
    assert_eq!(first_calls.get(), 1);

    let (second, second_cleanup) = native.allocate(counting(&second_calls));
    let actions = context.set_update_callback(second_cleanup);
    native.perform(actions, second);
    assert_eq!(
        native.events(),
        vec![
            Event::Created,
            Event::Registered(first),
            Event::Invoked(first),
            Event::Released(first),
            Event::Registered(second),
        ]
    );

    native.notify();
    native.notify();
    assert_eq!(first_calls.get(), 1);
    assert_eq!(second_calls.get(), 2);

    let actions = context.destroy();
    native.perform(actions, second);
    let events = native.events();
    assert_eq!(events.iter().filter(|event| **event == Event::Released(first)).count(), 1);
    assert_eq!(events.iter().filter(|event| **event == Event::Released(second)).count(), 1);
    assert_eq!(
        events[events.len() - 2..],
        [Event::Released(second), Event::Freed(HANDLE)]
    );
}

#[test]
fn failed_creation_leaves_nothing_to_free() {
    let mut native = Native::new();
    native.create_status = -15;
    let outcome = create(&mut native);
    assert!(matches!(outcome, Err(Error::Raw(-15))));
    assert_eq!(native.events(), Vec::new());
}

#[test]
fn render_submits_the_array_that_the_context_keeps() {
    let mut native = Native::new();
    let mut context = create(&mut native).unwrap();
    for (width, height) in [(1920, 1080), (0, 0), (-640, -480)] {
        let ctx = context.render(width, height);
        let status = native.render(ctx, context.render_params());
        assert_eq!(mpv_err((), status), Ok(()));
    }
    let rendered = Event::Rendered(HANDLE, vec![3, 4, 10, 0]);
    assert_eq!(
        native.events(),
        vec![Event::Created, rendered.clone(), rendered.clone(), rendered]
    );
}

#[test]
fn next_frame_info_is_read_back_from_the_native_layout() {
    let mut native = Native::new();
    native.frame = RawFrameInfo { flags: 0xffff_ffff_0000_0008, target_time: 48_000 };
    let context = create(&mut native).unwrap();
    let asked = RenderFrameInfo { flags: RenderFrameInfoFlag::Present, target_time: 0 };
    let call = context.get_info(Param::NextFrameInfo(asked));
    let (written, res) = native.get_info(call);
    assert!(written.is_next_frame_info());
    assert_eq!(
        get_info_result(written, res),
        Ok(Param::NextFrameInfo(RenderFrameInfo {
            flags: RenderFrameInfoFlag::BlockVSync,
            target_time: 48_000,
        }))
    );
}

#[test]
fn refused_query_comes_back_as_the_status() {
    let mut native = Native::new();
    let context = create(&mut native).unwrap();
    let call = context.get_info(Param::AmbientLight(1));
    let (written, res) = native.get_info(call);
    assert_eq!(get_info_result(written, res), Err(Error::Raw(-8)));
}
