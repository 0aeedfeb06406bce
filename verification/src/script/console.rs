//! The console capability: a host value that forwards messages to a sink,
//! and the native method through which script code reaches it.

use crate::script::heap::lemma_put_settled;
use crate::script::heap::Argument;
use crate::script::heap::CallArgs;
use crate::script::heap::ClassId;
use crate::script::heap::FunctionSpec;
use crate::script::heap::Heap;
use crate::script::heap::HeapView;
use crate::script::heap::NativeOp;
use crate::script::heap::ObjectId;
use crate::script::heap::PropertySpec;
use crate::script::heap::Value;
use crate::script::heap::JSPROP_ENUMERATE;
use crate::script::reflect::not_an_object;
use crate::script::reflect::HostValue;
use crate::script::reflect::InterfaceDescriptor;
use crate::script::reflect::PrototypeID;
use crate::script::reflect::Reflectable;
use std::io::Write;
use vstd::prelude::*;

verus! {

/// A sink for console messages.
pub trait ConsoleMessageHandler: Sized {
    /// What one call of `log` with the message `s` does to the sink, as the
    /// sink itself states it. A sink that states nothing leaves this as it
    /// is: every outcome is then possible.
    open spec fn logs(before: Self, s: Seq<char>, after: Self) -> bool {
        true
    }

    fn log(&mut self, s: String)
        ensures
            Self::logs(*old(self), s@, *final(self)),
    ;
}

/// Writes `s` and a line end to the standard output of the process, by
/// `writeln!` on `std::io::stdout()`. Nothing is claimed of the outcome: a
/// write that fails is passed over.
#[verifier::external_body]
fn print_line(s: &str) {
    let _ = writeln!(std::io::stdout(), "{}", s);
}

/// The sink that writes each message as a line to standard output.
#[derive(Clone, Copy, PartialEq, Eq, Structural, Debug)]
pub struct StdoutHandler;

impl Default for StdoutHandler {
    fn default() -> (handler: StdoutHandler)
        ensures
            handler == StdoutHandler,
    {
        StdoutHandler
    }
}

impl ConsoleMessageHandler for StdoutHandler {
    /// The sink itself is left as it is: what it writes is outside it.
    open spec fn logs(before: Self, s: Seq<char>, after: Self) -> bool {
        after == before
    }

    fn log(&mut self, s: String) {
        print_line(s.as_str());
    }
}

/// The sink that keeps each message.
pub struct StoringHandler(Vec<String>);

impl StoringHandler {
    /// The messages kept so far, oldest first.
    pub closed spec fn kept(&self) -> Seq<Seq<char>> {
        Seq::new(self.0@.len(), |i: int| self.0@[i]@)
    }

    /// A sink that holds nothing yet.
    pub fn new() -> (handler: StoringHandler)
        ensures
            handler.kept() == Seq::<Seq<char>>::empty(),
    {
        let handler = StoringHandler(Vec::new());
        handler
    }

    /// The messages kept so far, oldest first.
    pub fn get(&self) -> (kept: &Vec<String>)
        ensures
            kept@.len() == self.kept().len(),
            forall|i: int| 0 <= i < kept@.len() ==> #[trigger] kept@[i]@ == self.kept()[i],
    {
        &self.0
    }
}

impl Default for StoringHandler {
    fn default() -> (handler: StoringHandler)
        ensures
            handler.kept() == Seq::<Seq<char>>::empty(),
    {
        StoringHandler::new()
    }
}

impl ConsoleMessageHandler for StoringHandler {
    /// The message is kept after those that were kept before.
    open spec fn logs(before: Self, s: Seq<char>, after: Self) -> bool {
        after.kept() == before.kept().push(s)
    }

    fn log(&mut self, s: String) {
        self.0.push(s);
        assert(self.kept() =~= old(self).kept().push(s@));
    }
}

/// The console host value. It owns its sink, and keeps account of what it
/// has handed to it.
pub struct Console<H>(Box<H>, Ghost<Seq<Seq<char>>>);

impl<H> Console<H> {
    /// The messages that this console has handed to its sink, oldest first.
    pub closed spec fn forwarded(&self) -> Seq<Seq<char>> {
        self.1@
    }

    /// The sink as it is now.
    pub closed spec fn sink(&self) -> H {
        *self.0
    }

    /// The console on `handler` that has handed nothing to it yet.
    pub closed spec fn on(handler: Box<H>) -> Console<H> {
        Console(handler, Ghost(Seq::empty()))
    }

    /// A console on a sink has that sink, and has handed nothing to it.
    pub proof fn lemma_on(handler: Box<H>)
        ensures
            Console::on(handler).sink() == *handler,
            Console::on(handler).forwarded() == Seq::<Seq<char>>::empty(),
    {
    }

    /// The sink of this console.
    pub fn handler(&self) -> (handler: &H)
        ensures
            *handler == self.sink(),
    {
        &*self.0
    }
}

impl<H: ConsoleMessageHandler> Console<H> {
    /// A console on `handler` that has handed nothing to it yet.
    pub fn new(handler: Box<H>) -> (console: Console<H>)
        ensures
            console == Console::on(handler),
    {
        Console(handler, Ghost(Seq::empty()))
    }

    /// Hands `message` to the sink: once, and as it is.
    pub fn log(&mut self, message: String)
        ensures
            final(self).forwarded() == old(self).forwarded().push(message@),
            H::logs(old(self).sink(), message@, final(self).sink()),
    {
        self.1 = Ghost(self.1@.push(message@));
        self.0.log(message);
    }
}

/// The native methods of the console interface.
pub open spec fn console_methods() -> Seq<FunctionSpec> {
    seq![
        FunctionSpec {
            name: "log",
            call: NativeOp::ConsoleLog,
            nargs: 1,
            flags: JSPROP_ENUMERATE as u16,
        },
    ]
}

impl<H> Reflectable<H> for Console<H> {
    open spec fn descriptor() -> InterfaceDescriptor {
        InterfaceDescriptor {
            class: ClassId::Console,
            prototype_class: ClassId::ConsolePrototype,
            methods: Some(console_methods()),
            properties: None,
            interface_id: PrototypeID::Console,
        }
    }

    open spec fn host(self) -> HostValue<H> {
        HostValue::Console(self)
    }

    proof fn lemma_descriptor() {
    }

    proof fn lemma_host(v: Self) {
    }

    fn class() -> (class: ClassId) {
        ClassId::Console
    }

    fn prototype_class() -> (class: ClassId) {
        ClassId::ConsolePrototype
    }

    fn methods() -> (methods: Option<Vec<FunctionSpec>>) {
        let table = vec![
            FunctionSpec {
                name: "log",
                call: NativeOp::ConsoleLog,
                nargs: 1,
                flags: JSPROP_ENUMERATE as u16,
            },
        ];
        Some(table)
    }

    fn attributes() -> (attributes: Option<Vec<PropertySpec>>) {
        None
    }

    fn prototype_index() -> (id: PrototypeID) {
        PrototypeID::Console
    }

    fn into_host(self) -> (host: HostValue<H>) {
        HostValue::Console(self)
    }

    fn from_host(host: &HostValue<H>) -> (v: Option<&Self>) {
        match host {
            HostValue::Console(console) => Some(console),
            _ => None,
        }
    }
}

impl<H> HeapView<H> {
    /// The object that reflects the next console made in the realm of `scope`.
    pub open spec fn console_object(self, scope: ObjectId) -> ObjectId {
        self.with_prototype(scope, Console::<H>::descriptor()).next()
    }

    /// The heap with `console` reflected into a new object in the realm of
    /// `scope`: the console prototype of the realm exists, and the new
    /// object has it as its prototype and carries `console`.
    pub open spec fn with_console(self, scope: ObjectId, console: Console<H>) -> Self {
        let d = Console::<H>::descriptor();
        let with_proto = self.with_prototype(scope, d);
        with_proto.allocate(ClassId::Console, Some(self.prototype(scope, d))).set_private(
            with_proto.next(),
            Some(HostValue::Console(console)),
        )
    }
}

/// Makes a console that forwards to `handler` and reflects it into a new
/// object of the realm of `scope`.
pub fn create_console<H>(heap: &mut Heap<H>, scope: ObjectId, handler: Box<H>) -> (r: Result<
    ObjectId,
    (),
>) where H: ConsoleMessageHandler
    requires
        old(heap)@.wf(),
        old(heap)@.realm_ready(scope),
    ensures
        r == Ok::<ObjectId, ()>(old(heap)@.console_object(scope)),
        final(heap)@ == old(heap)@.with_console(scope, Console::on(handler)),
        final(heap)@.wf(),
        old(heap)@.settled() ==> final(heap)@.settled(),
{
    let console = Box::new(Console::new(handler));
    let proto = Console::<H>::get_prototype_object(heap, scope);
    assert(heap@.contains(proto)) by {
        assert(old(heap)@.object_wf(scope));
    }
    let object = heap.new_object_with_given_proto(ClassId::Console, proto);
    console.init(heap, object);
    proof {
        if old(heap)@.settled() {
            let before = old(heap)@.with_prototype(scope, Console::<H>::descriptor());
            assert forall|other: ObjectId|
                heap@.contains(other) implies #[trigger] heap@.object_settled(other) by {
                if other != object {
                    assert(before.object_settled(other));
                }
            }
        }
    }
    Ok(object)
}

/// The text that an argument gives where a string is asked for. An object
/// gives the text that the engine has given for it, and none where the
/// engine could give none.
pub open spec fn string_of(argument: Argument) -> Option<Seq<char>> {
    match argument.value {
        Value::String(s) => Some(s@),
        Value::Undefined => Some("undefined"@),
        Value::Null => Some("null"@),
        Value::Boolean(b) => Some(
            if b {
                "true"@
            } else {
                "false"@
            },
        ),
        Value::Object(_) => match argument.text {
            Some(text) => Some(text@),
            None => None,
        },
    }
}

/// The message of the type error for a value that gives no string.
pub open spec fn not_a_string() -> Seq<char> {
    "Value cannot be converted to a string"@
}

/// The message of the type error for an argument that the caller left out.
pub open spec fn missing_argument() -> Seq<char> {
    "Not enough arguments"@
}

/// Marshals an argument to a host string. An object for which the engine
/// could give no text cannot be converted: it is answered with a type
/// error.
pub fn to_string<H>(heap: &mut Heap<H>, value: &Argument) -> (r: Result<String, ()>)
    ensures
        match r {
            Ok(s) => string_of(*value) == Some(s@) && final(heap)@ == old(heap)@,
            Err(_) => string_of(*value) is None && final(heap)@ == old(heap)@.throw(
                not_a_string(),
            ),
        },
        old(heap)@.wf() ==> final(heap)@.wf(),
        old(heap)@.settled() ==> final(heap)@.settled(),
{
    match &value.value {
        Value::String(s) => Ok(s.clone()),
        Value::Undefined => Ok("undefined".to_owned()),
        Value::Null => Ok("null".to_owned()),
        Value::Boolean(b) => if *b {
            Ok("true".to_owned())
        } else {
            Ok("false".to_owned())
        },
        Value::Object(_) => match &value.text {
            Some(text) => Ok(text.clone()),
            None => {
                heap.throw_type_error("Value cannot be converted to a string");
                Err(())
            },
        },
    }
}

/// Marshals the argument at `i` of a native call to a host string. An
/// argument that the caller left out is answered with a type error, as is
/// one that cannot be converted.
pub fn string_argument<H>(heap: &mut Heap<H>, args: &CallArgs, i: usize) -> (r: Result<String, ()>)
    ensures
        match r {
            Ok(s) => {
                &&& i < args.argv@.len()
                &&& string_of(args.argv@[i as int]) == Some(s@)
                &&& final(heap)@ == old(heap)@
            },
            Err(_) => {
                &&& !(i < args.argv@.len() && string_of(args.argv@[i as int]) is Some)
                &&& final(heap)@ == old(heap)@.throw(
                    if i < args.argv@.len() {
                        not_a_string()
                    } else {
                        missing_argument()
                    },
                )
            },
        },
        old(heap)@.wf() ==> final(heap)@.wf(),
        old(heap)@.settled() ==> final(heap)@.settled(),
{
    match args.get(i) {
        Some(value) => to_string(heap, value),
        None => {
            heap.throw_type_error("Not enough arguments");
            Err(())
        },
    }
}

/// Whether a call of a method that takes one string is accepted: the
/// receiver is a live object of `class`, and the first argument is there
/// and gives a string.
pub open spec fn call_accepted<H>(h: HeapView<H>, args: CallArgs, class: ClassId) -> bool {
    &&& args.this matches Value::Object(object) && h.instance_of(object, class)
    &&& args.argv@.len() >= 1
    &&& string_of(args.argv@[0]) is Some
}

/// The message of the type error that answers a call that is not accepted.
pub open spec fn call_error<H>(h: HeapView<H>, args: CallArgs, class: ClassId) -> Seq<char> {
    if !(args.this matches Value::Object(object) && h.instance_of(object, class)) {
        not_an_object()
    } else if args.argv@.len() == 0 {
        missing_argument()
    } else {
        not_a_string()
    }
}

/// What a call of `log` that was accepted has done: the console behind the
/// receiver has handed the message to its sink, the sink has done with it
/// what it states of a call, and nothing else but that console has changed.
pub open spec fn logged<H: ConsoleMessageHandler>(
    before: HeapView<H>,
    after: HeapView<H>,
    args: CallArgs,
) -> bool {
    let object = args.this->Object_0;
    &&& before.objects[object as int].private matches Some(HostValue::Console(was))
    &&& after.objects[object as int].private matches Some(HostValue::Console(is))
    &&& is.forwarded() == was.forwarded().push(string_of(args.argv@[0])->0)
    &&& H::logs(was.sink(), string_of(args.argv@[0])->0, is.sink())
    &&& after == before.set_private(object, after.objects[object as int].private)
}

/// The method `log` of a console: forwards its first argument, as a
/// string, to the sink of the console that the receiver reflects.
pub fn console_log<H: ConsoleMessageHandler>(heap: &mut Heap<H>, args: &CallArgs) -> (r: Result<
    (),
    (),
>)
    requires
        old(heap)@.wf(),
        old(heap)@.settled(),
    ensures
        r is Ok <==> call_accepted(old(heap)@, *args, ClassId::Console),
        r is Ok ==> logged(old(heap)@, final(heap)@, *args),
        r is Err ==> final(heap)@ == old(heap)@.throw(
            call_error(old(heap)@, *args, ClassId::Console),
        ),
        final(heap)@.wf(),
        final(heap)@.settled(),
{
    let object = match Console::<H>::from_value(heap, args.thisv()) {
        Ok(object) => object,
        Err(_) => {
            return Err(());
        },
    };
    let message = match string_argument(heap, args, 0) {
        Ok(message) => message,
        Err(_) => {
            return Err(());
        },
    };
    assert(heap@.object_wf(object));
    assert(heap@.object_settled(object));
    let host = heap.take_private(object);
    match host {
        Some(HostValue::Console(console)) => {
            let mut console = console;
            console.log(message);
            heap.set_private(object, HostValue::Console(console));
        },
        _ => {
            assert(false);
        },
    }
    proof {
        let after = heap@;
        assert(after.objects =~= old(heap)@.set_private(
            object,
            after.objects[object as int].private,
        ).objects);
        lemma_put_settled(old(heap)@, object, after.objects[object as int]);
    }
    Ok(())
}

/// The entry point of `log` for the engine: true where the call was
/// accepted, false where it has thrown.
pub fn console_log_native<H: ConsoleMessageHandler>(heap: &mut Heap<H>, args: &mut CallArgs) -> (ok:
    bool)
    requires
        old(heap)@.wf(),
        old(heap)@.settled(),
    ensures
        ok == call_accepted(old(heap)@, *old(args), ClassId::Console),
        ok ==> logged(old(heap)@, final(heap)@, *old(args)),
        !ok ==> final(heap)@ == old(heap)@.throw(
            call_error(old(heap)@, *old(args), ClassId::Console),
        ),
        *final(args) == *old(args),
        final(heap)@.wf(),
        final(heap)@.settled(),
{
    console_log(heap, args).is_ok()
}

} // verus!
