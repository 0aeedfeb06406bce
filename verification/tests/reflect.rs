use scripthost::script::console::Console;
use scripthost::script::console::StoringHandler;
use scripthost::script::global::create;
use scripthost::script::global::Global;
use scripthost::script::heap::ClassId;
use scripthost::script::heap::CompartmentOptions;
use scripthost::script::heap::Heap;
use scripthost::script::heap::JSVersion;
use scripthost::script::heap::Value;
use scripthost::script::reflect::finalize;
use scripthost::script::reflect::get_prototypes;
use scripthost::script::reflect::initialize_global;
use scripthost::script::reflect::HostValue;
use scripthost::script::reflect::PrototypeID;
use scripthost::script::reflect::Reflectable;
use scripthost::script::reflect::PROTOTYPE_COUNT;

type TestHeap = Heap<StoringHandler>;

fn console() -> Console<StoringHandler> {
    Console::new(Box::new(StoringHandler::new()))
}

fn console_prototype(heap: &mut TestHeap, global: usize) -> usize {
    <Console<StoringHandler> as Reflectable<StoringHandler>>::get_prototype_object(heap, global)
}

fn global_prototype(heap: &mut TestHeap, global: usize) -> usize {
    <Global as Reflectable<StoringHandler>>::get_prototype_object(heap, global)
}

fn is_console(heap: &TestHeap, object: usize) -> bool {
    <Console<StoringHandler> as Reflectable<StoringHandler>>::is(heap, object)
}

fn is_global(heap: &TestHeap, object: usize) -> bool {
    <Global as Reflectable<StoringHandler>>::is(heap, object)
}

#[test]
fn prototype_ids_are_dense_from_zero() {
    assert_eq!(PrototypeID::Console.index(), 0);
    assert_eq!(PrototypeID::Global.index(), 1);
    assert_eq!(PrototypeID::Count.index(), 2);
    assert_eq!(PrototypeID::Count.index(), PROTOTYPE_COUNT);
}

#[test]
fn the_descriptors_of_the_interfaces() {
    type C = Console<StoringHandler>;
    assert_eq!(<C as Reflectable<StoringHandler>>::class(), ClassId::Console);
    assert_eq!(<C as Reflectable<StoringHandler>>::prototype_class(), ClassId::ConsolePrototype);
    assert_eq!(<C as Reflectable<StoringHandler>>::prototype_index(), PrototypeID::Console);
    assert!(<C as Reflectable<StoringHandler>>::attributes().is_none());
    let methods = <C as Reflectable<StoringHandler>>::methods().unwrap();
    assert_eq!(methods.len(), 1);
    assert_eq!(methods[0].name, "log");
    assert_eq!(methods[0].nargs, 1);
    assert_eq!(methods[0].flags, 1);

    assert_eq!(<Global as Reflectable<StoringHandler>>::class(), ClassId::Global);
    assert_eq!(
        <Global as Reflectable<StoringHandler>>::prototype_class(),
        ClassId::GlobalPrototype
    );
    assert_eq!(<Global as Reflectable<StoringHandler>>::prototype_index(), PrototypeID::Global);
    let methods = <Global as Reflectable<StoringHandler>>::methods().unwrap();
    assert_eq!(methods.len(), 1);
    assert_eq!(methods[0].name, "launchBrowser");
    let attributes = <Global as Reflectable<StoringHandler>>::attributes().unwrap();
    assert_eq!(attributes.len(), 1);
    assert_eq!(attributes[0].name, "console");
    assert_eq!(attributes[0].flags, 0x41);
    assert!(attributes[0].getter.is_some());
    assert!(attributes[0].setter.is_none());
}

#[test]
fn a_prototype_is_made_once_per_realm() {
    let mut heap = TestHeap::new();
    let global = create(&mut heap);
    let before = heap.len();
    assert!(!heap.is_barriered(global, PrototypeID::Console.index()));
    let first = console_prototype(&mut heap, global);
    assert!(heap.is_barriered(global, PrototypeID::Console.index()));
    assert!(heap.is_barriered(global, PrototypeID::Global.index()));
    assert_eq!(heap.len(), before + 1);
    let second = console_prototype(&mut heap, global);
    assert_eq!(first, second);
    assert_eq!(heap.len(), before + 1);
    assert_eq!(get_prototypes(&heap, global)[PrototypeID::Console.index()], Some(first));
}

#[test]
fn the_prototype_of_each_interface_has_its_own_slot() {
    let mut heap = TestHeap::new();
    let global = create(&mut heap);
    let of_global = global_prototype(&mut heap, global);
    let of_console = console_prototype(&mut heap, global);
    assert_ne!(of_global, of_console);
    assert_eq!(global_prototype(&mut heap, global), of_global);
    assert_eq!(get_prototypes(&heap, global), [Some(of_console), Some(of_global)]);
    assert_eq!(heap.get_class(of_console), ClassId::ConsolePrototype);
    assert_eq!(heap.get_class(of_global), ClassId::GlobalPrototype);
}

#[test]
fn a_prototype_has_the_tables_of_its_interface_and_the_base_prototype_as_parent() {
    let mut heap = TestHeap::new();
    let global = create(&mut heap);
    let proto = console_prototype(&mut heap, global);
    assert_eq!(heap.get_prototype(proto), heap.get_object_prototype(global));
    assert_eq!(heap.methods_of(proto).len(), 1);
    assert_eq!(heap.methods_of(proto)[0].name, "log");
    assert!(heap.properties_of(proto).is_empty());
    let of_global = global_prototype(&mut heap, global);
    assert_eq!(heap.methods_of(of_global)[0].name, "launchBrowser");
    assert_eq!(heap.properties_of(of_global)[0].name, "console");
}

#[test]
fn two_realms_do_not_share_prototypes() {
    let mut heap = TestHeap::new();
    let one = create(&mut heap);
    let two = create(&mut heap);
    assert_ne!(one, two);
    let proto_one = console_prototype(&mut heap, one);
    let proto_two = console_prototype(&mut heap, two);
    assert_ne!(proto_one, proto_two);
    assert_eq!(console_prototype(&mut heap, one), proto_one);
    assert_ne!(heap.get_object_prototype(one), heap.get_object_prototype(two));
}

#[test]
fn an_object_is_an_instance_of_its_own_interface_only() {
    let mut heap = TestHeap::new();
    let global = create(&mut heap);
    let proto = console_prototype(&mut heap, global);
    let object = heap.new_object_with_given_proto(ClassId::Console, proto);
    Box::new(console()).init(&mut heap, object);
    assert!(is_console(&heap, object));
    assert!(!is_global(&heap, object));
    assert!(is_global(&heap, global));
    assert!(!is_console(&heap, global));
    assert!(!is_console(&heap, proto));
    assert!(!is_global(&heap, proto));
    assert!(!is_console(&heap, heap.len()));
}

#[test]
fn reflecting_and_finalizing_returns_to_the_baseline() {
    let mut heap = TestHeap::new();
    let global = create(&mut heap);
    let proto = console_prototype(&mut heap, global);
    let baseline = heap.live_host_values();
    assert_eq!(baseline, 1);
    let object = heap.new_object_with_given_proto(ClassId::Console, proto);
    assert_eq!(heap.live_host_values(), baseline);
    Box::new(console()).init(&mut heap, object);
    assert_eq!(heap.live_host_values(), baseline + 1);
    assert!(heap.is_live(object));
    finalize::<StoringHandler, Console<StoringHandler>>(&mut heap, object);
    assert_eq!(heap.live_host_values(), baseline);
    assert!(!heap.is_live(object));
    assert!(heap.get_private(object).is_none());
    assert!(!is_console(&heap, object));
}

#[test]
fn finalizing_a_global_object_releases_its_cache() {
    let mut heap = TestHeap::new();
    let global = create(&mut heap);
    assert!(heap.get_prototypes(global).is_some());
    finalize::<StoringHandler, Global>(&mut heap, global);
    assert_eq!(heap.live_host_values(), 0);
    assert!(heap.get_prototypes(global).is_none());
    assert!(!heap.is_live(global));
}

#[test]
fn from_reflector_gives_the_value_that_was_handed_over() {
    let mut heap = TestHeap::new();
    let global = create(&mut heap);
    let proto = console_prototype(&mut heap, global);
    let object = heap.new_object_with_given_proto(ClassId::Console, proto);
    let mut value = console();
    value.log("kept".to_string());
    Box::new(value).init(&mut heap, object);
    let back =
        <Console<StoringHandler> as Reflectable<StoringHandler>>::from_reflector(&heap, object);
    assert_eq!(back.handler().get(), &vec!["kept".to_string()]);
    assert!(matches!(heap.get_private(object), Some(HostValue::Console(_))));
    assert!(matches!(heap.get_private(global), Some(HostValue::Global(_))));
}

#[test]
fn from_value_accepts_an_object_of_the_interface() {
    let mut heap = TestHeap::new();
    let global = create(&mut heap);
    let r = <Global as Reflectable<StoringHandler>>::from_value(&mut heap, &Value::Object(global));
    assert_eq!(r, Ok(global));
    assert!(!heap.is_exception_pending());
}

#[test]
fn from_value_refuses_what_is_no_object() {
    let mut heap = TestHeap::new();
    let _global = create(&mut heap);
    for value in [
        Value::Undefined,
        Value::Null,
        Value::Boolean(true),
        Value::String("console".to_string()),
    ] {
        let r = <Global as Reflectable<StoringHandler>>::from_value(&mut heap, &value);
        assert_eq!(r, Err(()));
        assert_eq!(heap.take_pending_exception(), Some("Value is not an object".to_string()));
    }
}

#[test]
fn from_value_refuses_an_object_of_another_class() {
    let mut heap = TestHeap::new();
    let global = create(&mut heap);
    let proto = console_prototype(&mut heap, global);
    let r = <Console<StoringHandler> as Reflectable<StoringHandler>>::from_value(
        &mut heap,
        &Value::Object(global),
    );
    assert_eq!(r, Err(()));
    assert_eq!(heap.take_pending_exception(), Some("Value is not an object".to_string()));
    let r = <Global as Reflectable<StoringHandler>>::from_value(&mut heap, &Value::Object(proto));
    assert_eq!(r, Err(()));
    assert!(heap.is_exception_pending());
    let unknown = heap.len() + 7;
    let r = <Global as Reflectable<StoringHandler>>::from_value(&mut heap, &Value::Object(unknown));
    assert_eq!(r, Err(()));
}

#[test]
fn from_value_refuses_a_finalized_object() {
    let mut heap = TestHeap::new();
    let global = create(&mut heap);
    finalize::<StoringHandler, Global>(&mut heap, global);
    let r = <Global as Reflectable<StoringHandler>>::from_value(&mut heap, &Value::Object(global));
    assert_eq!(r, Err(()));
}

#[test]
fn initialize_global_attaches_an_empty_cache() {
    let mut heap = TestHeap::new();
    let options = CompartmentOptions { version: JSVersion::Default, trace_global: None };
    let global = heap.new_global_object(ClassId::Global, options);
    assert!(heap.get_prototypes(global).is_none());
    initialize_global(&mut heap, global);
    assert_eq!(heap.get_prototypes(global), Some([None, None]));
    assert!(!heap.is_barriered(global, 0));
    heap.post_barrier(global, 0);
    assert!(heap.is_barriered(global, 0));
    assert!(!heap.is_barriered(global, 1));
    assert_eq!(get_prototypes(&heap, global), [None; PROTOTYPE_COUNT]);
}

#[test]
fn the_parent_prototype_is_the_base_object_prototype_of_the_realm() {
    let mut heap = TestHeap::new();
    let global = create(&mut heap);
    let parent = <Global as Reflectable<StoringHandler>>::get_parent_proto(&heap, global);
    assert_eq!(Some(parent), heap.get_object_prototype(global));
    assert_eq!(heap.get_class(parent), ClassId::Object);
    type C = Console<StoringHandler>;
    let made =
        <C as Reflectable<StoringHandler>>::create_interface_prototype_object(&mut heap, global);
    assert_eq!(heap.get_prototype(made), Some(parent));
    assert_eq!(get_prototypes(&heap, global)[0], None);
}
