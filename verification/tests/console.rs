use scripthost::script::call_native;
use scripthost::script::console::console_log;
use scripthost::script::console::console_log_native;
use scripthost::script::console::create_console;
use scripthost::script::console::string_argument;
use scripthost::script::console::to_string;
use scripthost::script::console::Console;
use scripthost::script::console::ConsoleMessageHandler;
use scripthost::script::console::StdoutHandler;
use scripthost::script::console::StoringHandler;
use scripthost::script::global::create;
use scripthost::script::heap::Argument;
use scripthost::script::heap::CallArgs;
use scripthost::script::heap::ClassId;
use scripthost::script::heap::Heap;
use scripthost::script::heap::NativeOp;
use scripthost::script::heap::Value;
use scripthost::script::reflect::get_prototypes;
use scripthost::script::reflect::HostValue;

type TestHeap = Heap<StoringHandler>;

fn kept(heap: &TestHeap, object: usize) -> Vec<String> {
    match heap.get_private(object) {
        Some(HostValue::Console(console)) => console.handler().get().clone(),
        _ => panic!("no console"),
    }
}

fn new_console(heap: &mut TestHeap, global: usize) -> usize {
    create_console(heap, global, Box::new(StoringHandler::new())).unwrap()
}

#[test]
fn a_storing_handler_keeps_messages_in_order() {
    let mut handler = StoringHandler::new();
    assert!(handler.get().is_empty());
    handler.log("one".to_string());
    handler.log("two".to_string());
    assert_eq!(handler.get(), &vec!["one".to_string(), "two".to_string()]);
    assert!(StoringHandler::default().get().is_empty());
}

#[test]
fn a_console_forwards_to_its_sink() {
    let mut console = Console::new(Box::new(StoringHandler::new()));
    console.log("hi".to_string());
    assert_eq!(console.handler().get(), &vec!["hi".to_string()]);
    console.log(String::new());
    assert_eq!(console.handler().get(), &vec!["hi".to_string(), String::new()]);
}

#[test]
fn a_console_on_standard_output_takes_messages() {
    let mut console = Console::new(Box::new(StdoutHandler));
    console.log("hi".to_string());
    let mut handler = StdoutHandler::default();
    handler.log("there".to_string());
    assert_eq!(handler, StdoutHandler);
}

#[test]
fn logging_hi_gives_one_line_equal_to_hi() {
    let mut heap = TestHeap::new();
    let global = create(&mut heap);
    let mut access = CallArgs::new(Value::Object(global), Vec::new());
    assert!(call_native(&mut heap, NativeOp::GetConsole, &mut access));
    let console = match access.rval {
        Value::Object(console) => console,
        _ => panic!("no console"),
    };
    let argv = vec![Argument::new(Value::String("hi".to_string()))];
    let mut call = CallArgs::new(Value::Object(console), argv);
    assert!(call_native(&mut heap, NativeOp::ConsoleLog, &mut call));
    assert_eq!(kept(&heap, console), vec!["hi".to_string()]);
    assert!(matches!(call.rval, Value::Undefined));
    assert!(!heap.is_exception_pending());
}

#[test]
fn each_access_to_console_gives_a_fresh_object_with_the_cached_prototype() {
    let mut heap = TestHeap::new();
    let global = create(&mut heap);
    let mut first = CallArgs::new(Value::Object(global), Vec::new());
    let mut second = CallArgs::new(Value::Object(global), Vec::new());
    assert!(call_native(&mut heap, NativeOp::GetConsole, &mut first));
    assert!(call_native(&mut heap, NativeOp::GetConsole, &mut second));
    let (one, two) = match (first.rval, second.rval) {
        (Value::Object(one), Value::Object(two)) => (one, two),
        _ => panic!("no console"),
    };
    assert_ne!(one, two);
    assert!(heap.get_prototype(one).is_some());
    assert_eq!(heap.get_prototype(one), heap.get_prototype(two));
    assert_eq!(heap.get_prototype(one), get_prototypes(&heap, global)[0]);
    let argv = vec![Argument::new(Value::String("a".to_string()))];
    let mut call = CallArgs::new(Value::Object(one), argv);
    assert!(console_log_native(&mut heap, &mut call));
    assert_eq!(kept(&heap, one), vec!["a".to_string()]);
    assert!(kept(&heap, two).is_empty());
}

#[test]
fn create_console_reflects_the_console_into_a_new_object() {
    let mut heap = TestHeap::new();
    let global = create(&mut heap);
    let before = heap.len();
    let mut handler = StoringHandler::new();
    handler.log("earlier".to_string());
    let console = create_console(&mut heap, global, Box::new(handler)).unwrap();
    assert_eq!(console, before + 1);
    assert_eq!(heap.len(), before + 2);
    assert_eq!(heap.get_class(console), ClassId::Console);
    assert_eq!(heap.get_prototype(console), Some(before));
    assert_eq!(heap.get_class(before), ClassId::ConsolePrototype);
    assert_eq!(kept(&heap, console), vec!["earlier".to_string()]);
    let next = new_console(&mut heap, global);
    assert_eq!(next, before + 2);
    assert_eq!(heap.get_prototype(next), Some(before));
}

#[test]
fn log_coerces_its_argument_to_a_string() {
    let mut heap = TestHeap::new();
    let global = create(&mut heap);
    let console = new_console(&mut heap, global);
    for value in [
        Value::String("text".to_string()),
        Value::Undefined,
        Value::Null,
        Value::Boolean(true),
        Value::Boolean(false),
    ] {
        let call = CallArgs::new(Value::Object(console), vec![Argument::new(value)]);
        assert_eq!(console_log(&mut heap, &call), Ok(()));
    }
    assert_eq!(kept(&heap, console), vec!["text", "undefined", "null", "true", "false"]);
}

#[test]
fn log_uses_the_first_argument_only() {
    let mut heap = TestHeap::new();
    let global = create(&mut heap);
    let console = new_console(&mut heap, global);
    let argv = vec![
        Argument::new(Value::String("first".to_string())),
        Argument::new(Value::Object(global)),
    ];
    let call = CallArgs::new(Value::Object(console), argv);
    assert_eq!(console_log(&mut heap, &call), Ok(()));
    assert_eq!(kept(&heap, console), vec!["first"]);
}

#[test]
fn log_without_an_argument_is_a_type_error() {
    let mut heap = TestHeap::new();
    let global = create(&mut heap);
    let console = new_console(&mut heap, global);
    let call = CallArgs::new(Value::Object(console), Vec::new());
    assert_eq!(console_log(&mut heap, &call), Err(()));
    assert_eq!(heap.take_pending_exception(), Some("Not enough arguments".to_string()));
    assert!(kept(&heap, console).is_empty());
}

#[test]
fn log_of_an_object_forwards_the_text_that_the_engine_gives() {
    let mut heap = TestHeap::new();
    let global = create(&mut heap);
    let console = new_console(&mut heap, global);
    let argv = vec![
        Argument::with_text(Value::Object(global), "[object Global]".to_string()),
        Argument::with_text(Value::Object(1000), "1,2".to_string()),
    ];
    let mut call = CallArgs::new(Value::Object(console), argv);
    assert!(console_log_native(&mut heap, &mut call));
    assert!(!heap.is_exception_pending());
    assert_eq!(kept(&heap, console), vec!["[object Global]".to_string()]);
}

#[test]
fn log_of_an_object_that_gives_no_text_is_a_type_error() {
    let mut heap = TestHeap::new();
    let global = create(&mut heap);
    let console = new_console(&mut heap, global);
    let mut call =
        CallArgs::new(Value::Object(console), vec![Argument::new(Value::Object(global))]);
    assert!(!console_log_native(&mut heap, &mut call));
    assert_eq!(
        heap.take_pending_exception(),
        Some("Value cannot be converted to a string".to_string())
    );
    assert!(kept(&heap, console).is_empty());
}

#[test]
fn log_on_a_receiver_that_is_no_console_is_a_type_error() {
    let mut heap = TestHeap::new();
    let global = create(&mut heap);
    let console = new_console(&mut heap, global);
    for this in [Value::Object(global), Value::Undefined, Value::String("console".to_string())] {
        let mut call = CallArgs::new(this, vec![Argument::new(Value::String("x".to_string()))]);
        assert!(!call_native(&mut heap, NativeOp::ConsoleLog, &mut call));
        assert_eq!(heap.take_pending_exception(), Some("Value is not an object".to_string()));
    }
    assert!(kept(&heap, console).is_empty());
}

#[test]
fn the_receiver_is_checked_before_the_argument() {
    let mut heap = TestHeap::new();
    let global = create(&mut heap);
    let call = CallArgs::new(Value::Null, Vec::new());
    assert_eq!(console_log(&mut heap, &call), Err(()));
    assert_eq!(heap.take_pending_exception(), Some("Value is not an object".to_string()));
    assert!(heap.is_live(global));
}

#[test]
fn to_string_gives_the_text_of_a_value() {
    let mut heap = TestHeap::new();
    let text = Argument::new(Value::String("a\u{e9}".to_string()));
    assert_eq!(to_string(&mut heap, &text), Ok("a\u{e9}".to_string()));
    let of = |value| Argument::new(value);
    assert_eq!(to_string(&mut heap, &of(Value::Undefined)), Ok("undefined".to_string()));
    assert_eq!(to_string(&mut heap, &of(Value::Null)), Ok("null".to_string()));
    assert_eq!(to_string(&mut heap, &of(Value::Boolean(true))), Ok("true".to_string()));
    assert_eq!(to_string(&mut heap, &of(Value::Boolean(false))), Ok("false".to_string()));
    assert!(!heap.is_exception_pending());
}

#[test]
fn to_string_gives_the_text_of_the_engine_for_an_object() {
    let mut heap = TestHeap::new();
    let object = Argument::with_text(Value::Object(7), "[object Object]".to_string());
    assert_eq!(to_string(&mut heap, &object), Ok("[object Object]".to_string()));
    let list = Argument::with_text(Value::Object(8), "1,2".to_string());
    assert_eq!(to_string(&mut heap, &list), Ok("1,2".to_string()));
    assert!(!heap.is_exception_pending());
    assert_eq!(to_string(&mut heap, &Argument::new(Value::Object(7))), Err(()));
    assert_eq!(
        heap.take_pending_exception(),
        Some("Value cannot be converted to a string".to_string())
    );
}

#[test]
fn the_text_of_the_engine_is_read_for_an_object_only() {
    let mut heap = TestHeap::new();
    let text = Argument::with_text(Value::String("own".to_string()), "other".to_string());
    assert_eq!(to_string(&mut heap, &text), Ok("own".to_string()));
    let null = Argument::with_text(Value::Null, "other".to_string());
    assert_eq!(to_string(&mut heap, &null), Ok("null".to_string()));
}

#[test]
fn string_argument_takes_the_argument_at_its_place() {
    let mut heap = TestHeap::new();
    let argv = vec![
        Argument::new(Value::String("zero".to_string())),
        Argument::new(Value::Boolean(true)),
    ];
    let args = CallArgs::new(Value::Undefined, argv);
    assert_eq!(string_argument(&mut heap, &args, 0), Ok("zero".to_string()));
    assert_eq!(string_argument(&mut heap, &args, 1), Ok("true".to_string()));
    assert_eq!(string_argument(&mut heap, &args, 2), Err(()));
    assert_eq!(heap.take_pending_exception(), Some("Not enough arguments".to_string()));
}

/// A sink of the test's own: it counts the characters it was handed.
struct Counting {
    characters: usize,
}

impl ConsoleMessageHandler for Counting {
    fn log(&mut self, s: String) {
        self.characters += s.chars().count();
    }
}

impl Default for Counting {
    fn default() -> Counting {
        Counting { characters: 0 }
    }
}

#[test]
fn a_sink_of_the_callers_own_can_be_plugged_in() {
    let mut heap: Heap<Counting> = Heap::new();
    let global = create(&mut heap);
    let mut access = CallArgs::new(Value::Object(global), Vec::new());
    assert!(call_native(&mut heap, NativeOp::GetConsole, &mut access));
    let console = match access.rval {
        Value::Object(console) => console,
        _ => panic!("no console"),
    };
    for text in ["hi", "h\u{e9}llo"] {
        let argv = vec![Argument::new(Value::String(text.to_string()))];
        let mut call = CallArgs::new(Value::Object(console), argv);
        assert!(call_native(&mut heap, NativeOp::ConsoleLog, &mut call));
    }
    match heap.get_private(console) {
        Some(HostValue::Console(console)) => assert_eq!(console.handler().characters, 7),
        _ => panic!("no console"),
    }
}
