//! The global capability holder, its natives, and the construction of a
//! realm around it.

use crate::script::console::call_accepted;
use crate::script::console::call_error;
use crate::script::console::create_console;
use crate::script::console::string_argument;
use crate::script::console::string_of;
use crate::script::console::Console;
use crate::script::console::ConsoleMessageHandler;
use crate::script::heap::lemma_put_settled;
use crate::script::heap::CallArgs;
use crate::script::heap::ClassId;
use crate::script::heap::CompartmentOptions;
use crate::script::heap::FunctionSpec;
use crate::script::heap::Heap;
use crate::script::heap::HeapView;
use crate::script::heap::JSVersion;
use crate::script::heap::NativeOp;
use crate::script::heap::ObjectId;
use crate::script::heap::PropertySpec;
use crate::script::heap::TraceHook;
use crate::script::heap::Value;
use crate::script::heap::JSPROP_ENUMERATE;
use crate::script::heap::JSPROP_SHARED;
use crate::script::reflect::initialize_global;
use crate::script::reflect::not_an_object;
use crate::script::reflect::HostValue;
use crate::script::reflect::InterfaceDescriptor;
use crate::script::reflect::PrototypeID;
use crate::script::reflect::Reflectable;
use vstd::prelude::*;

verus! {

/// The host value behind a realm's global object. It holds the requests
/// to launch a browser that script code has made and the embedding has not
/// yet taken.
pub struct Global(Vec<String>);

impl Global {
    /// The addresses asked for and not yet taken, oldest first.
    pub closed spec fn pending(&self) -> Seq<Seq<char>> {
        Seq::new(self.0@.len(), |i: int| self.0@[i]@)
    }

    /// A holder with no request.
    pub fn new() -> (global: Global)
        ensures
            global.pending() == Seq::<Seq<char>>::empty(),
    {
        let global = Global(Vec::new());
        global
    }

    /// Records the request to launch a browser on `url`.
    pub fn launch_browser(&mut self, url: String)
        ensures
            final(self).pending() == old(self).pending().push(url@),
    {
        self.0.push(url);
    }

    /// Hands out the requests recorded so far, oldest first; none is
    /// pending after.
    pub fn take_requests(&mut self) -> (requests: Vec<String>)
        ensures
            requests@.len() == old(self).pending().len(),
            forall|i: int|
                0 <= i < requests@.len() ==> #[trigger] requests@[i]@ == old(self).pending()[i],
            final(self).pending() == Seq::<Seq<char>>::empty(),
    {
        let mut requests: Vec<String> = Vec::new();
        std::mem::swap(&mut self.0, &mut requests);
        requests
    }
}

/// The native methods of the global interface.
pub open spec fn global_methods() -> Seq<FunctionSpec> {
    seq![
        FunctionSpec {
            name: "launchBrowser",
            call: NativeOp::LaunchBrowser,
            nargs: 1,
            flags: JSPROP_ENUMERATE as u16,
        },
    ]
}

/// The native properties of the global interface.
pub open spec fn global_attributes() -> Seq<PropertySpec> {
    seq![
        PropertySpec {
            name: "console",
            flags: JSPROP_SHARED | JSPROP_ENUMERATE,
            getter: Some(NativeOp::GetConsole),
            setter: None,
        },
    ]
}

impl<H> Reflectable<H> for Global {
    open spec fn descriptor() -> InterfaceDescriptor {
        InterfaceDescriptor {
            class: ClassId::Global,
            prototype_class: ClassId::GlobalPrototype,
            methods: Some(global_methods()),
            properties: Some(global_attributes()),
            interface_id: PrototypeID::Global,
        }
    }

    open spec fn host(self) -> HostValue<H> {
        HostValue::Global(self)
    }

    proof fn lemma_descriptor() {
    }

    proof fn lemma_host(v: Self) {
    }

    fn class() -> (class: ClassId) {
        ClassId::Global
    }

    fn prototype_class() -> (class: ClassId) {
        ClassId::GlobalPrototype
    }

    fn attributes() -> (attributes: Option<Vec<PropertySpec>>) {
        let table = vec![
            PropertySpec {
                name: "console",
                flags: JSPROP_SHARED | JSPROP_ENUMERATE,
                getter: Some(NativeOp::GetConsole),
                setter: None,
            },
        ];
        Some(table)
    }

    fn methods() -> (methods: Option<Vec<FunctionSpec>>) {
        let table = vec![
            FunctionSpec {
                name: "launchBrowser",
                call: NativeOp::LaunchBrowser,
                nargs: 1,
                flags: JSPROP_ENUMERATE as u16,
            },
        ];
        Some(table)
    }

    fn prototype_index() -> (id: PrototypeID) {
        PrototypeID::Global
    }

    fn into_host(self) -> (host: HostValue<H>) {
        HostValue::Global(self)
    }

    fn from_host(host: &HostValue<H>) -> (v: Option<&Self>) {
        match host {
            HostValue::Global(global) => Some(global),
            _ => None,
        }
    }
}

/// What an access to `console` that was accepted has done: a new console,
/// which has handed nothing to its sink yet, is reflected into a new object
/// of the receiver's realm, and that object is the result of the call.
pub open spec fn console_made<H>(
    before: HeapView<H>,
    after: HeapView<H>,
    args: CallArgs,
    result: Value,
) -> bool {
    let scope = args.this->Object_0;
    let object = before.console_object(scope);
    &&& result == Value::Object(object)
    &&& after.contains(object)
    &&& after.objects[object as int].private matches Some(HostValue::Console(console))
    &&& console.forwarded() == Seq::<Seq<char>>::empty()
    &&& after == before.with_console(scope, console)
}

/// The getter of `console` on a global object: each access makes a new
/// console, on the sink that `H` has by default.
pub fn get_console<H: ConsoleMessageHandler + Default>(
    heap: &mut Heap<H>,
    args: &mut CallArgs,
) -> (r: Result<(), ()>)
    requires
        old(heap)@.wf(),
        old(heap)@.settled(),
    ensures
        r is Ok <==> (old(args).this matches Value::Object(scope) && old(heap)@.instance_of(
            scope,
            ClassId::Global,
        )),
        r is Ok ==> console_made(old(heap)@, final(heap)@, *old(args), final(args).rval),
        r is Err ==> final(heap)@ == old(heap)@.throw(not_an_object()) && final(args).rval == old(
            args,
        ).rval,
        final(args).this == old(args).this,
        final(args).argv == old(args).argv,
        final(heap)@.wf(),
        final(heap)@.settled(),
{
    let scope = match <Global as Reflectable<H>>::from_value(heap, args.thisv()) {
        Ok(scope) => scope,
        Err(_) => {
            return Err(());
        },
    };
    assert(heap@.object_settled(scope));
    let handler = Box::new(H::default());
    proof {
        Console::lemma_on(handler);
    }
    let object = match create_console(heap, scope, handler) {
        Ok(object) => object,
        Err(_) => {
            return Err(());
        },
    };
    args.set_rval(Value::Object(object));
    Ok(())
}

/// The entry point of the `console` getter for the engine: true where the
/// access was accepted, false where it has thrown.
pub fn get_console_native<H: ConsoleMessageHandler + Default>(
    heap: &mut Heap<H>,
    args: &mut CallArgs,
) -> (ok: bool)
    requires
        old(heap)@.wf(),
        old(heap)@.settled(),
    ensures
        ok == (old(args).this matches Value::Object(scope) && old(heap)@.instance_of(
            scope,
            ClassId::Global,
        )),
        ok ==> console_made(old(heap)@, final(heap)@, *old(args), final(args).rval),
        !ok ==> final(heap)@ == old(heap)@.throw(not_an_object()) && final(args).rval == old(
            args,
        ).rval,
        final(args).this == old(args).this,
        final(args).argv == old(args).argv,
        final(heap)@.wf(),
        final(heap)@.settled(),
{
    get_console(heap, args).is_ok()
}

/// What a call of `launchBrowser` that was accepted has done: the holder
/// behind the receiver has recorded the address, and nothing else has
/// changed.
pub open spec fn launch_requested<H>(
    before: HeapView<H>,
    after: HeapView<H>,
    args: CallArgs,
) -> bool {
    let object = args.this->Object_0;
    &&& before.objects[object as int].private matches Some(HostValue::Global(was))
    &&& after.objects[object as int].private matches Some(HostValue::Global(is))
    &&& is.pending() == was.pending().push(string_of(args.argv@[0])->0)
    &&& after == before.set_private(object, after.objects[object as int].private)
}

/// The method `launchBrowser` of a global object: records the request to
/// launch a browser on its first argument, as a string.
pub fn launch_browser<H>(heap: &mut Heap<H>, args: &CallArgs) -> (r: Result<(), ()>)
    requires
        old(heap)@.wf(),
        old(heap)@.settled(),
    ensures
        r is Ok <==> call_accepted(old(heap)@, *args, ClassId::Global),
        r is Ok ==> launch_requested(old(heap)@, final(heap)@, *args),
        r is Err ==> final(heap)@ == old(heap)@.throw(
            call_error(old(heap)@, *args, ClassId::Global),
        ),
        final(heap)@.wf(),
        final(heap)@.settled(),
{
    let object = match <Global as Reflectable<H>>::from_value(heap, args.thisv()) {
        Ok(object) => object,
        Err(_) => {
            return Err(());
        },
    };
    let url = match string_argument(heap, args, 0) {
        Ok(url) => url,
        Err(_) => {
            return Err(());
        },
    };
    assert(heap@.object_wf(object));
    assert(heap@.object_settled(object));
    let host = heap.take_private(object);
    match host {
        Some(HostValue::Global(global)) => {
            let mut global = global;
            global.launch_browser(url);
            heap.set_private(object, HostValue::Global(global));
        },
        _ => {
            assert(false);
        },
    }
    proof {
        let after = heap@;
        assert(after.objects =~= old(heap)@.set_private(
            object,
            after.objects[object as int].private,
        ).objects);
        lemma_put_settled(old(heap)@, object, after.objects[object as int]);
    }
    Ok(())
}

/// The entry point of `launchBrowser` for the engine: true where the call
/// was accepted, false where it has thrown.
pub fn launch_browser_native<H>(heap: &mut Heap<H>, args: &mut CallArgs) -> (ok: bool)
    requires
        old(heap)@.wf(),
        old(heap)@.settled(),
    ensures
        ok == call_accepted(old(heap)@, *old(args), ClassId::Global),
        ok ==> launch_requested(old(heap)@, final(heap)@, *old(args)),
        !ok ==> final(heap)@ == old(heap)@.throw(
            call_error(old(heap)@, *old(args), ClassId::Global),
        ),
        *final(args) == *old(args),
        final(heap)@.wf(),
        final(heap)@.settled(),
{
    launch_browser(heap, args).is_ok()
}

/// Hands out the requests to launch a browser that the holder behind
/// `global` has recorded, oldest first; none is pending there after.
pub fn take_launch_requests<H>(heap: &mut Heap<H>, global: ObjectId) -> (requests: Vec<String>)
    requires
        old(heap)@.wf(),
        old(heap)@.settled(),
        old(heap)@.instance_of(global, ClassId::Global),
    ensures
        old(heap)@.objects[global as int].private matches Some(HostValue::Global(was)) && {
            &&& requests@.len() == was.pending().len()
            &&& forall|i: int|
                0 <= i < requests@.len() ==> #[trigger] requests@[i]@ == was.pending()[i]
        },
        final(heap)@.objects[global as int].private matches Some(HostValue::Global(is))
            && is.pending() == Seq::<Seq<char>>::empty(),
        final(heap)@ == old(heap)@.set_private(global, final(heap)@.objects[global as int].private),
        final(heap)@.wf(),
        final(heap)@.settled(),
{
    assert(heap@.object_wf(global));
    assert(heap@.object_settled(global));
    let host = heap.take_private(global);
    let mut requests: Vec<String> = Vec::new();
    match host {
        Some(HostValue::Global(holder)) => {
            let mut holder = holder;
            requests = holder.take_requests();
            heap.set_private(global, HostValue::Global(holder));
        },
        _ => {
            assert(false);
        },
    }
    proof {
        let after = heap@;
        assert(after.objects =~= old(heap)@.set_private(
            global,
            after.objects[global as int].private,
        ).objects);
        lemma_put_settled(old(heap)@, global, after.objects[global as int]);
    }
    requests
}

impl<H> HeapView<H> {
    /// The heap with a new realm around `global`: a global object of
    /// `class` made for the fifth edition of the language and traced by
    /// `trace`, which carries `global`, has the engine's built-ins and an
    /// empty prototype cache, and was announced to the engine's observers.
    pub open spec fn with_dom_global(
        self,
        class: ClassId,
        global: Global,
        trace: Option<TraceHook>,
    ) -> Self {
        let object = self.next();
        let options = CompartmentOptions { version: JSVersion::Ecma5, trace_global: trace };
        self.new_global(class, options).set_private(
            object,
            Some(HostValue::Global(global)),
        ).with_standard_classes(object).set_prototypes(object, Some(seq![None, None])).announce(
            object,
        )
    }

    /// The heap with a new realm that is traced by the hook which also
    /// traces the prototype cache, and whose global object has the global
    /// interface's prototype, taken from the realm's own cache.
    pub open spec fn with_realm(self, global: Global) -> Self {
        let object = self.next();
        let d = <Global as Reflectable<H>>::descriptor();
        let made = self.with_dom_global(
            ClassId::Global,
            global,
            Some(TraceHook::PrototypeCache),
        );
        made.with_prototype(object, d).set_proto(object, Some(made.prototype(object, d)))
    }
}

/// Makes the global object of a new realm, of `class` and with `trace` as
/// its trace hook, and hands `global` over to it.
pub fn create_dom_global<H>(
    heap: &mut Heap<H>,
    class: ClassId,
    global: Box<Global>,
    trace: Option<TraceHook>,
) -> (object: ObjectId)
    requires
        old(heap)@.wf(),
        class == ClassId::Global,
    ensures
        object == old(heap)@.next(),
        final(heap)@ == old(heap)@.with_dom_global(class, *global, trace),
        final(heap)@.wf(),
        final(heap)@.realm_ready(object),
        old(heap)@.settled() ==> final(heap)@.settled(),
{
    let options = CompartmentOptions { version: JSVersion::Ecma5, trace_global: trace };
    let obj = heap.new_global_object(class, options);
    global.init(heap, obj);
    heap.init_standard_classes(obj);
    initialize_global(heap, obj);
    heap.fire_on_new_global_object(obj);
    proof {
        if old(heap)@.settled() {
            assert forall|other: ObjectId|
                heap@.contains(other) implies #[trigger] heap@.object_settled(other) by {
                if other < obj {
                    assert(old(heap)@.object_settled(other));
                }
            }
        }
    }
    obj
}

/// Makes a new realm and returns its global object.
pub fn create<H>(heap: &mut Heap<H>) -> (object: ObjectId)
    requires
        old(heap)@.wf(),
    ensures
        object == old(heap)@.next(),
        final(heap)@.objects[object as int].private matches Some(HostValue::Global(global))
            && global.pending() == Seq::<Seq<char>>::empty() && final(heap)@ == old(
            heap,
        )@.with_realm(global),
        final(heap)@.wf(),
        final(heap)@.realm_ready(object),
        old(heap)@.settled() ==> final(heap)@.settled(),
{
    let object = create_dom_global(
        heap,
        <Global as Reflectable<H>>::class(),
        Box::new(Global::new()),
        Some(TraceHook::PrototypeCache),
    );
    let proto = <Global as Reflectable<H>>::get_prototype_object(heap, object);
    let ghost cached = heap@;
    heap.set_prototype(object, proto);
    proof {
        if old(heap)@.settled() {
            lemma_put_settled(cached, object, heap@.objects[object as int]);
        }
    }
    object
}

} // verus!
