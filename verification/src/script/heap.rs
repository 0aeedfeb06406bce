//! The host's account of the engine's object heap: for each object its
//! class tag, its prototype link, what its reserved slots hold and which
//! natives are defined on it, and for the heap the pending exception.
//!
//! The reflection layer reads and writes this account alone. The embedding
//! keeps the engine's own objects in step with it.

use crate::script::reflect::prototype_class_at;
use crate::script::reflect::HostValue;
use crate::script::reflect::PROTOTYPE_COUNT;
use vstd::prelude::*;

verus! {

/// A reference to an object of the heap.
pub type ObjectId = usize;

/// The identity of a class of engine objects.
#[derive(Clone, Copy, PartialEq, Eq, Structural, Debug)]
pub enum ClassId {
    /// Plain objects, the base object prototype among them.
    Object,
    Console,
    ConsolePrototype,
    Global,
    GlobalPrototype,
}

impl ClassId {
    /// Whether objects of this class reserve a private slot for a host value.
    pub open spec fn carries_host(self) -> bool {
        self == ClassId::Console || self == ClassId::Global
    }

    /// Whether objects of this class are the global objects of realms.
    pub open spec fn global(self) -> bool {
        self == ClassId::Global
    }

    /// Whether objects of this class reserve a private slot for a host value.
    pub fn has_private_slot(self) -> (b: bool)
        ensures
            b == self.carries_host(),
    {
        match self {
            ClassId::Console => true,
            ClassId::Global => true,
            _ => false,
        }
    }

    /// Whether objects of this class are the global objects of realms.
    pub fn is_global(self) -> (b: bool)
        ensures
            b == self.global(),
    {
        match self {
            ClassId::Global => true,
            _ => false,
        }
    }

    /// The hook by which the collector traces objects of this class.
    pub open spec fn traced_by(self) -> Option<TraceHook> {
        if self.global() {
            Some(TraceHook::GlobalObject)
        } else {
            None
        }
    }

    /// The hook by which the collector traces objects of this class.
    pub fn trace_hook(self) -> (hook: Option<TraceHook>)
        ensures
            hook == self.traced_by(),
    {
        match self {
            ClassId::Global => Some(TraceHook::GlobalObject),
            _ => None,
        }
    }

    /// Whether the collector calls back when it collects an object of this
    /// class: it does for the classes whose objects carry a host value.
    pub fn has_finalizer(self) -> (b: bool)
        ensures
            b == self.carries_host(),
    {
        self.has_private_slot()
    }

    /// The name under which script code sees the class.
    pub open spec fn named(self) -> &'static str {
        match self {
            ClassId::Object => "Object",
            ClassId::Console => "Console",
            ClassId::ConsolePrototype => "ConsolePrototype",
            ClassId::Global => "Global",
            ClassId::GlobalPrototype => "GlobalPrototype",
        }
    }

    /// The name under which script code sees the class.
    pub fn name(self) -> (name: &'static str)
        ensures
            name == self.named(),
    {
        match self {
            ClassId::Object => "Object",
            ClassId::Console => "Console",
            ClassId::ConsolePrototype => "ConsolePrototype",
            ClassId::Global => "Global",
            ClassId::GlobalPrototype => "GlobalPrototype",
        }
    }
}

/// The operations that script code can reach through native tables.
#[derive(Clone, Copy, PartialEq, Eq, Structural, Debug)]
pub enum NativeOp {
    ConsoleLog,
    GetConsole,
    LaunchBrowser,
}

/// The property flag that makes a native visible to enumeration.
pub const JSPROP_ENUMERATE: u8 = 0x01;

/// The property flag of an accessor that has no slot of its own.
pub const JSPROP_SHARED: u8 = 0x40;

/// One entry of a table of native methods.
#[derive(Clone, Copy, Debug)]
pub struct FunctionSpec {
    pub name: &'static str,
    pub call: NativeOp,
    pub nargs: u16,
    pub flags: u16,
}

/// One entry of a table of native properties.
#[derive(Clone, Copy, Debug)]
pub struct PropertySpec {
    pub name: &'static str,
    pub flags: u8,
    pub getter: Option<NativeOp>,
    pub setter: Option<NativeOp>,
}

/// The language version a realm runs.
#[derive(Clone, Copy, PartialEq, Eq, Structural, Debug)]
pub enum JSVersion {
    Default,
    Ecma5,
}

/// The hook by which the collector traces what a global object holds.
#[derive(Clone, Copy, PartialEq, Eq, Structural, Debug)]
pub enum TraceHook {
    /// The engine's own hook for global objects: it traces what the engine
    /// keeps there.
    GlobalObject,
    /// The hook of a realm with a prototype cache: it traces what the
    /// engine keeps on the global object and, beside that, every prototype
    /// that a slot of the cache holds.
    PrototypeCache,
}

/// The options a realm is created with.
#[derive(Clone, Copy, PartialEq, Eq, Structural, Debug)]
pub struct CompartmentOptions {
    pub version: JSVersion,
    pub trace_global: Option<TraceHook>,
}

/// A script value as it crosses the boundary between script and host. A
/// number, like every other value that is no object and has no variant
/// here, crosses as the text that the engine gives for it.
#[derive(Debug)]
pub enum Value {
    Undefined,
    Null,
    Boolean(bool),
    String(String),
    Object(ObjectId),
}

impl Value {
    /// Whether the value is a reference to an object.
    pub fn is_object(&self) -> (b: bool)
        ensures
            b == (self is Object),
    {
        match self {
            Value::Object(_) => true,
            _ => false,
        }
    }

    /// The object that the value refers to.
    pub fn to_object(&self) -> (object: ObjectId)
        requires
            self is Object,
        ensures
            *self == Value::Object(object),
    {
        match self {
            Value::Object(object) => *object,
            _ => 0,
        }
    }
}

/// An argument of a native call: the value, and beside it the text that
/// the engine's own string coercion gives for it.
#[derive(Debug)]
pub struct Argument {
    pub value: Value,
    /// The text that the engine gives for the value where a string is asked
    /// for; `None` where the engine cannot give one. It is read for an
    /// object only: every other value gives its text by itself.
    pub text: Option<String>,
}

impl Argument {
    /// An argument for which the engine has given no text.
    pub fn new(value: Value) -> (argument: Argument)
        ensures
            argument.value == value,
            argument.text is None,
    {
        Argument { value, text: None }
    }

    /// An argument with the text that the engine has given for it.
    pub fn with_text(value: Value, text: String) -> (argument: Argument)
        ensures
            argument.value == value,
            argument.text == Some(text),
    {
        Argument { value, text: Some(text) }
    }
}

/// The arguments of one native call: receiver, arguments, result slot.
#[derive(Debug)]
pub struct CallArgs {
    pub this: Value,
    pub argv: Vec<Argument>,
    pub rval: Value,
}

impl CallArgs {
    /// The arguments of a call on `this` with `argv`; the result is unset.
    pub fn new(this: Value, argv: Vec<Argument>) -> (args: CallArgs)
        ensures
            args.this == this,
            args.argv == argv,
            args.rval == Value::Undefined,
    {
        CallArgs { this, argv, rval: Value::Undefined }
    }

    /// The receiver of the call.
    pub fn thisv(&self) -> (v: &Value)
        ensures
            *v == self.this,
    {
        &self.this
    }

    /// The argument at `i`, if the caller passed that many.
    pub fn get(&self, i: usize) -> (v: Option<&Argument>)
        ensures
            i < self.argv@.len() ==> v == Some(&self.argv@[i as int]),
            i >= self.argv@.len() ==> v is None,
    {
        if i < self.argv.len() {
            Some(&self.argv[i])
        } else {
            None
        }
    }

    /// What the result slot holds.
    pub fn rval(&self) -> (v: &Value)
        ensures
            *v == self.rval,
    {
        &self.rval
    }

    /// Puts `v` in the result slot.
    pub fn set_rval(&mut self, v: Value)
        ensures
            final(self).rval == v,
            final(self).this == old(self).this,
            final(self).argv == old(self).argv,
    {
        self.rval = v;
    }
}

/// What the host can observe of one object.
pub struct ObjectView<H> {
    pub class: ClassId,
    pub proto: Option<ObjectId>,
    /// The host value in the private slot.
    pub private: Option<HostValue<H>>,
    /// The prototype cache in the realm slot of a global object.
    pub prototypes: Option<Seq<Option<ObjectId>>>,
    /// The base object prototype of the realm, on its global object.
    pub object_proto: Option<ObjectId>,
    pub options: Option<CompartmentOptions>,
    pub methods: Seq<FunctionSpec>,
    pub properties: Seq<PropertySpec>,
    /// False once the collector has finalized the object.
    pub live: bool,
    /// True once the engine's observers were told of this global object.
    pub announced: bool,
    /// For each slot of the prototype cache, whether the collector's write
    /// barrier tracks it.
    pub barriered: Seq<bool>,
}

impl<H> ObjectView<H> {
    /// An object as the engine hands it out: nothing in its slots or tables.
    pub open spec fn fresh(class: ClassId, proto: Option<ObjectId>) -> Self {
        ObjectView {
            class,
            proto,
            private: None,
            prototypes: None,
            object_proto: None,
            options: None,
            methods: Seq::empty(),
            properties: Seq::empty(),
            live: true,
            announced: false,
            barriered: seq![false, false],
        }
    }
}

/// What the host can observe of the heap.
pub struct HeapView<H> {
    pub objects: Seq<ObjectView<H>>,
    /// The message of the pending type error, if one was thrown.
    pub exception: Option<Seq<char>>,
}

impl<H> HeapView<H> {
    /// The heap without objects and with no exception pending.
    pub open spec fn empty() -> Self {
        HeapView { objects: Seq::empty(), exception: None }
    }

    /// `object` is a reference into this heap.
    pub open spec fn contains(self, object: ObjectId) -> bool {
        object < self.objects.len()
    }

    /// `object` is in this heap, and the collector has not finalized it.
    pub open spec fn live(self, object: ObjectId) -> bool {
        self.contains(object) && self.objects[object as int].live
    }

    /// The reference that the next allocation returns.
    pub open spec fn next(self) -> ObjectId {
        self.objects.len() as ObjectId
    }

    /// The heap with one more object, fresh, of `class` and with `proto` as prototype.
    pub open spec fn allocate(self, class: ClassId, proto: Option<ObjectId>) -> Self {
        HeapView { objects: self.objects.push(ObjectView::fresh(class, proto)), ..self }
    }

    /// The heap with `v` in place of `object`.
    pub open spec fn put(self, object: ObjectId, v: ObjectView<H>) -> Self {
        HeapView { objects: self.objects.update(object as int, v), ..self }
    }

    /// The heap with `private` in the private slot of `object`.
    pub open spec fn set_private(self, object: ObjectId, private: Option<HostValue<H>>) -> Self {
        self.put(object, ObjectView { private, ..self.objects[object as int] })
    }

    /// The heap with `prototypes` in the realm slot of `object`.
    pub open spec fn set_prototypes(
        self,
        object: ObjectId,
        prototypes: Option<Seq<Option<ObjectId>>>,
    ) -> Self {
        self.put(object, ObjectView { prototypes, ..self.objects[object as int] })
    }

    /// The heap with `proto` as the prototype of `object`.
    pub open spec fn set_proto(self, object: ObjectId, proto: Option<ObjectId>) -> Self {
        self.put(object, ObjectView { proto, ..self.objects[object as int] })
    }

    /// The heap with `options` recorded on the global object `object`.
    pub open spec fn set_options(self, object: ObjectId, options: CompartmentOptions) -> Self {
        self.put(object, ObjectView { options: Some(options), ..self.objects[object as int] })
    }

    /// The heap with `methods` defined on `object`, after the methods it has.
    pub open spec fn add_methods(self, object: ObjectId, methods: Seq<FunctionSpec>) -> Self {
        self.put(
            object,
            ObjectView {
                methods: self.objects[object as int].methods + methods,
                ..self.objects[object as int]
            },
        )
    }

    /// The heap with `properties` defined on `object`, after the properties it has.
    pub open spec fn add_properties(self, object: ObjectId, properties: Seq<PropertySpec>) -> Self {
        self.put(
            object,
            ObjectView {
                properties: self.objects[object as int].properties + properties,
                ..self.objects[object as int]
            },
        )
    }

    /// The heap with the slot `slot` of the prototype cache of `object`
    /// tracked by the collector's write barrier.
    pub open spec fn with_barrier(self, object: ObjectId, slot: int) -> Self {
        self.put(
            object,
            ObjectView {
                barriered: self.objects[object as int].barriered.update(slot, true),
                ..self.objects[object as int]
            },
        )
    }

    /// The heap once the engine's observers were told of the global object `object`.
    pub open spec fn announce(self, object: ObjectId) -> Self {
        self.put(object, ObjectView { announced: true, ..self.objects[object as int] })
    }

    /// The heap after the collector has swept `object`: its slots are empty
    /// and it is no longer live.
    pub open spec fn sweep(self, object: ObjectId) -> Self {
        self.put(
            object,
            ObjectView {
                private: None,
                prototypes: None,
                live: false,
                ..self.objects[object as int]
            },
        )
    }

    /// A new global object of `class`, created with `options`.
    pub open spec fn new_global(self, class: ClassId, options: CompartmentOptions) -> Self {
        self.allocate(class, None).set_options(self.next(), options)
    }

    /// The realm of `global` with the engine's built-ins installed: a base
    /// object prototype exists, a new plain object unless there was one.
    pub open spec fn with_standard_classes(self, global: ObjectId) -> Self {
        if self.objects[global as int].object_proto is Some {
            self
        } else {
            let h = self.allocate(ClassId::Object, None);
            h.put(
                global,
                ObjectView { object_proto: Some(self.next()), ..h.objects[global as int] },
            )
        }
    }

    /// The heap with a type error of `message` pending.
    pub open spec fn throw(self, message: Seq<char>) -> Self {
        HeapView { exception: Some(message), ..self }
    }

    /// The heap with no exception pending.
    pub open spec fn clear_exception(self) -> Self {
        HeapView { exception: None, ..self }
    }

    /// What well-formedness asks of one object.
    pub open spec fn object_wf(self, object: ObjectId) -> bool {
        let o = self.objects[object as int];
        &&& o.proto matches Some(p) ==> self.contains(p)
        &&& o.object_proto matches Some(p) ==> self.contains(p) && o.class.global()
        &&& o.options is Some ==> o.class.global()
        &&& o.private matches Some(v) ==> v.class_id() == o.class && o.live
        &&& o.barriered.len() == PROTOTYPE_COUNT
        &&& o.prototypes matches Some(cache) ==> {
            &&& o.class.global()
            &&& o.live
            &&& cache.len() == PROTOTYPE_COUNT
            &&& forall|i: int|
                0 <= i < cache.len() ==> (#[trigger] cache[i] matches Some(p) ==> self.contains(p)
                    && self.objects[p as int].class == prototype_class_at(i))
        }
    }

    /// Every object has a reference, the links of the heap lead to objects
    /// of the heap, a cached prototype is of the class of its slot, a host value is in
    /// an object of its own class, and only live objects hold anything in
    /// their slots.
    pub open spec fn wf(self) -> bool {
        &&& self.objects.len() <= usize::MAX
        &&& forall|object: ObjectId| self.contains(object) ==> #[trigger] self.object_wf(object)
    }

    /// What being settled asks of one object.
    pub open spec fn object_settled(self, object: ObjectId) -> bool {
        let o = self.objects[object as int];
        o.live ==> {
            &&& o.class.carries_host() ==> o.private is Some
            &&& o.class.global() ==> o.prototypes is Some && o.object_proto is Some
        }
    }

    /// No live object is half built: each one of a reflected class carries
    /// its host value, and each global object has its prototype cache and
    /// its realm's base object prototype.
    pub open spec fn settled(self) -> bool {
        forall|object: ObjectId| self.contains(object) ==> #[trigger] self.object_settled(object)
    }

    /// The number of host values that the objects of the heap carry.
    pub open spec fn hosts(self) -> nat {
        count_hosts(self.objects)
    }

    /// The realm of `global` can hand out prototypes.
    pub open spec fn realm_ready(self, global: ObjectId) -> bool {
        &&& self.live(global)
        &&& self.objects[global as int].class.global()
        &&& self.objects[global as int].prototypes is Some
        &&& self.objects[global as int].object_proto is Some
    }
}

/// The number of objects among `objects` that carry a host value.
pub open spec fn count_hosts<H>(objects: Seq<ObjectView<H>>) -> nat
    decreases objects.len(),
{
    if objects.len() == 0 {
        0
    } else {
        count_hosts(objects.drop_last()) + if objects.last().private is Some {
            1nat
        } else {
            0nat
        }
    }
}

/// One more object makes one more host value if it carries one.
pub proof fn lemma_count_hosts_push<H>(objects: Seq<ObjectView<H>>, v: ObjectView<H>)
    ensures
        count_hosts(objects.push(v)) == count_hosts(objects) + if v.private is Some {
            1nat
        } else {
            0nat
        },
{
    assert(objects.push(v).drop_last() =~= objects);
}

/// Replacing an object changes the number of host values by what the old
/// one carried and the new one carries.
pub proof fn lemma_count_hosts_update<H>(objects: Seq<ObjectView<H>>, i: int, v: ObjectView<H>)
    requires
        0 <= i < objects.len(),
    ensures
        count_hosts(objects.update(i, v)) + (if objects[i].private is Some {
            1nat
        } else {
            0nat
        }) == count_hosts(objects) + (if v.private is Some {
            1nat
        } else {
            0nat
        }),
    decreases objects.len(),
{
    if i == objects.len() - 1 {
        assert(objects.update(i, v).drop_last() =~= objects.drop_last());
    } else {
        assert(objects.update(i, v).drop_last() =~= objects.drop_last().update(i, v));
        lemma_count_hosts_update(objects.drop_last(), i, v);
    }
}

struct Object<H> {
    class: ClassId,
    proto: Option<ObjectId>,
    private: Option<HostValue<H>>,
    prototypes: Option<[Option<ObjectId>; PROTOTYPE_COUNT]>,
    object_proto: Option<ObjectId>,
    options: Option<CompartmentOptions>,
    methods: Vec<FunctionSpec>,
    properties: Vec<PropertySpec>,
    live: bool,
    announced: bool,
    barriered: [bool; PROTOTYPE_COUNT],
}

impl<H> View for Object<H> {
    type V = ObjectView<H>;

    closed spec fn view(&self) -> ObjectView<H> {
        ObjectView {
            class: self.class,
            proto: self.proto,
            private: self.private,
            prototypes: match self.prototypes {
                Some(cache) => Some(cache@),
                None => None,
            },
            object_proto: self.object_proto,
            options: self.options,
            methods: self.methods@,
            properties: self.properties@,
            live: self.live,
            announced: self.announced,
            barriered: self.barriered@,
        }
    }
}

/// The object heap of one engine runtime, as the host keeps account of it.
/// `H` is the kind of sink that the consoles of the heap forward to.
pub struct Heap<H> {
    objects: Vec<Object<H>>,
    exception: Option<String>,
}

impl<H> View for Heap<H> {
    type V = HeapView<H>;

    closed spec fn view(&self) -> HeapView<H> {
        HeapView {
            objects: Seq::new(self.objects@.len(), |i: int| self.objects@[i]@),
            exception: match self.exception {
                Some(message) => Some(message@),
                None => None,
            },
        }
    }
}

impl<H> Heap<H> {
    /// An empty heap with no exception pending.
    pub fn new() -> (heap: Heap<H>)
        ensures
            heap@ == HeapView::<H>::empty(),
            heap@.wf(),
            heap@.settled(),
    {
        let heap = Heap { objects: Vec::new(), exception: None };
        assert(heap@.objects =~= HeapView::<H>::empty().objects);
        heap
    }

    /// The number of objects ever allocated; the next reference handed out.
    pub fn len(&self) -> (n: usize)
        ensures
            n == self@.objects.len(),
    {
        self.objects.len()
    }

    /// The number of host values that the objects of the heap carry: one
    /// more with each value handed over, one less with each one released.
    pub fn live_host_values(&self) -> (n: usize)
        ensures
            n == self@.hosts(),
    {
        let mut n: usize = 0;
        let mut i: usize = 0;
        while i < self.objects.len()
            invariant
                i <= self.objects@.len(),
                n <= i,
                n == count_hosts(self@.objects.take(i as int)),
                self@.objects.len() == self.objects@.len(),
            decreases self.objects@.len() - i,
        {
            proof {
                assert(self@.objects.take(i + 1) =~= self@.objects.take(i as int).push(
                    self@.objects[i as int],
                ));
                lemma_count_hosts_push(self@.objects.take(i as int), self@.objects[i as int]);
            }
            if self.objects[i].private.is_some() {
                n = n + 1;
            }
            i = i + 1;
        }
        assert(self@.objects.take(i as int) =~= self@.objects);
        n
    }

    fn push(&mut self, class: ClassId, proto: Option<ObjectId>) -> (object: ObjectId)
        ensures
            object == old(self)@.next(),
            final(self)@ == old(self)@.allocate(class, proto),
            old(self)@.objects.len() < usize::MAX,
    {
        let object = self.objects.len();
        self.objects.push(
            Object {
                class,
                proto,
                private: None,
                prototypes: None,
                object_proto: None,
                options: None,
                methods: Vec::new(),
                properties: Vec::new(),
                live: true,
                announced: false,
                barriered: [false, false],
            },
        );
        assert(self.objects@.len() == self.objects.len());
        assert(self@.objects =~= old(self)@.allocate(class, proto).objects);
        object
    }

    /// Allocates an object of `class` whose prototype is `proto`.
    pub fn new_object_with_given_proto(&mut self, class: ClassId, proto: ObjectId) -> (object:
        ObjectId)
        requires
            old(self)@.wf(),
            old(self)@.contains(proto),
        ensures
            object == old(self)@.next(),
            final(self)@ == old(self)@.allocate(class, Some(proto)),
            final(self)@.wf(),
    {
        let object = self.push(class, Some(proto));
        proof {
            lemma_allocate_wf(old(self)@, class, Some(proto));
        }
        object
    }

    /// Allocates an object of `class` with a type of its own, as prototype
    /// objects have; its prototype is `proto`.
    pub fn new_object_with_unique_type(&mut self, class: ClassId, proto: ObjectId) -> (object:
        ObjectId)
        requires
            old(self)@.wf(),
            old(self)@.contains(proto),
        ensures
            object == old(self)@.next(),
            final(self)@ == old(self)@.allocate(class, Some(proto)),
            final(self)@.wf(),
    {
        let object = self.push(class, Some(proto));
        proof {
            lemma_allocate_wf(old(self)@, class, Some(proto));
        }
        object
    }

    /// Allocates a global object of `class` for a new realm made with
    /// `options`. It has no prototype yet, and nothing in its slots.
    pub fn new_global_object(&mut self, class: ClassId, options: CompartmentOptions) -> (object:
        ObjectId)
        requires
            old(self)@.wf(),
            class.global(),
        ensures
            object == old(self)@.next(),
            final(self)@ == old(self)@.new_global(class, options),
            final(self)@.wf(),
    {
        let object = self.push(class, None);
        assert(self.objects@.len() == self@.objects.len());
        self.objects[object].options = Some(options);
        proof {
            lemma_allocate_wf(old(self)@, class, None);
            let h = old(self)@.allocate(class, None);
            assert(self@.objects =~= h.set_options(object, options).objects);
            lemma_put_wf(
                h,
                object,
                ObjectView { options: Some(options), ..h.objects[object as int] },
            );
        }
        object
    }

    /// The class of `object`.
    pub fn get_class(&self, object: ObjectId) -> (class: ClassId)
        requires
            self@.contains(object),
        ensures
            class == self@.objects[object as int].class,
    {
        self.objects[object].class
    }

    /// Whether `object` is a reference into this heap.
    pub fn contains(&self, object: ObjectId) -> (b: bool)
        ensures
            b == self@.contains(object),
    {
        object < self.objects.len()
    }

    /// Whether `object` is in this heap and the collector has not finalized it.
    pub fn is_live(&self, object: ObjectId) -> (b: bool)
        ensures
            b == self@.live(object),
    {
        object < self.objects.len() && self.objects[object].live
    }

    /// The prototype of `object`.
    pub fn get_prototype(&self, object: ObjectId) -> (proto: Option<ObjectId>)
        requires
            self@.contains(object),
        ensures
            proto == self@.objects[object as int].proto,
    {
        self.objects[object].proto
    }

    /// The base object prototype of the realm of `global`; `None` until the
    /// engine's built-ins are installed there.
    pub fn get_object_prototype(&self, global: ObjectId) -> (proto: Option<ObjectId>)
        requires
            self@.contains(global),
        ensures
            proto == self@.objects[global as int].object_proto,
    {
        self.objects[global].object_proto
    }

    /// The options that the realm of `global` was made with.
    pub fn get_options(&self, global: ObjectId) -> (options: Option<CompartmentOptions>)
        requires
            self@.contains(global),
        ensures
            options == self@.objects[global as int].options,
    {
        self.objects[global].options
    }

    /// Whether the engine's observers were told of the global object `global`.
    pub fn is_announced(&self, global: ObjectId) -> (b: bool)
        requires
            self@.contains(global),
        ensures
            b == self@.objects[global as int].announced,
    {
        self.objects[global].announced
    }

    /// The native methods defined on `object` itself.
    pub fn methods_of(&self, object: ObjectId) -> (methods: &Vec<FunctionSpec>)
        requires
            self@.contains(object),
        ensures
            methods@ == self@.objects[object as int].methods,
    {
        &self.objects[object].methods
    }

    /// The native properties defined on `object` itself.
    pub fn properties_of(&self, object: ObjectId) -> (properties: &Vec<PropertySpec>)
        requires
            self@.contains(object),
        ensures
            properties@ == self@.objects[object as int].properties,
    {
        &self.objects[object].properties
    }

    /// Installs the engine's built-ins in the realm of `global`.
    pub fn init_standard_classes(&mut self, global: ObjectId) -> (ok: bool)
        requires
            old(self)@.wf(),
            old(self)@.live(global),
            old(self)@.objects[global as int].class.global(),
        ensures
            ok,
            final(self)@ == old(self)@.with_standard_classes(global),
            final(self)@.wf(),
    {
        if self.objects[global].object_proto.is_none() {
            let proto = self.push(ClassId::Object, None);
            assert(self.objects@.len() == self@.objects.len());
            self.objects[global].object_proto = Some(proto);
            proof {
                lemma_allocate_wf(old(self)@, ClassId::Object, None);
                let h = old(self)@.allocate(ClassId::Object, None);
                let v = ObjectView { object_proto: Some(proto), ..h.objects[global as int] };
                assert(self@.objects =~= h.put(global, v).objects);
                assert(h.object_wf(global));
                lemma_put_wf(h, global, v);
            }
        }
        true
    }

    /// Tells the engine's observers that the realm of `global` is ready:
    /// its built-ins are installed and its prototype cache is attached.
    pub fn fire_on_new_global_object(&mut self, global: ObjectId)
        requires
            old(self)@.wf(),
            old(self)@.realm_ready(global),
        ensures
            final(self)@ == old(self)@.announce(global),
            final(self)@.wf(),
    {
        self.objects[global].announced = true;
        proof {
            let h = old(self)@;
            let v = ObjectView { announced: true, ..h.objects[global as int] };
            assert(self@.objects =~= h.put(global, v).objects);
            assert(h.object_wf(global));
            lemma_put_wf(h, global, v);
        }
    }

    /// Makes `proto` the prototype of `object`.
    pub fn set_prototype(&mut self, object: ObjectId, proto: ObjectId) -> (ok: bool)
        requires
            old(self)@.wf(),
            old(self)@.contains(object),
            old(self)@.contains(proto),
        ensures
            ok,
            final(self)@ == old(self)@.set_proto(object, Some(proto)),
            final(self)@.wf(),
    {
        self.objects[object].proto = Some(proto);
        proof {
            let h = old(self)@;
            let v = ObjectView { proto: Some(proto), ..h.objects[object as int] };
            assert(self@.objects =~= h.put(object, v).objects);
            assert(h.object_wf(object));
            lemma_put_wf(h, object, v);
        }
        true
    }

    /// Defines on `object` the native methods of `methods`, after those it has.
    pub fn define_methods(&mut self, object: ObjectId, methods: Vec<FunctionSpec>)
        requires
            old(self)@.wf(),
            old(self)@.contains(object),
        ensures
            final(self)@ == old(self)@.add_methods(object, methods@),
            final(self)@.wf(),
    {
        let ghost added = methods@;
        let mut rest = methods;
        self.objects[object].methods.append(&mut rest);
        proof {
            let h = old(self)@;
            assert(self@.objects =~= h.add_methods(object, added).objects);
            assert(h.object_wf(object));
            lemma_put_wf(h, object, h.add_methods(object, added).objects[object as int]);
        }
    }

    /// Defines on `object` the native properties of `properties`, after those
    /// it has.
    pub fn define_properties(&mut self, object: ObjectId, properties: Vec<PropertySpec>)
        requires
            old(self)@.wf(),
            old(self)@.contains(object),
        ensures
            final(self)@ == old(self)@.add_properties(object, properties@),
            final(self)@.wf(),
    {
        let ghost added = properties@;
        let mut rest = properties;
        self.objects[object].properties.append(&mut rest);
        proof {
            let h = old(self)@;
            assert(self@.objects =~= h.add_properties(object, added).objects);
            assert(h.object_wf(object));
            lemma_put_wf(
                h,
                object,
                h.add_properties(object, added).objects[object as int],
            );
        }
    }

    /// Throws a type error with `message`: it is pending from now on.
    pub fn throw_type_error(&mut self, message: &str)
        ensures
            final(self)@ == old(self)@.throw(message@),
            old(self)@.wf() ==> final(self)@.wf(),
            old(self)@.settled() ==> final(self)@.settled(),
    {
        self.exception = Some(message.to_owned());
        proof {
            lemma_same_objects(old(self)@, self@);
        }
    }

    /// Whether a type error was thrown and not yet taken.
    pub fn is_exception_pending(&self) -> (b: bool)
        ensures
            b == (self@.exception is Some),
    {
        self.exception.is_some()
    }

    /// Takes the pending exception, if there is one; none is pending after.
    pub fn take_pending_exception(&mut self) -> (message: Option<String>)
        ensures
            final(self)@ == old(self)@.clear_exception(),
            match message {
                Some(m) => old(self)@.exception == Some(m@),
                None => old(self)@.exception is None,
            },
            old(self)@.wf() ==> final(self)@.wf(),
            old(self)@.settled() ==> final(self)@.settled(),
    {
        let message = self.exception.take();
        proof {
            lemma_same_objects(old(self)@, self@);
        }
        message
    }

    /// Stores `host` in the private slot of `object`.
    pub fn set_private(&mut self, object: ObjectId, host: HostValue<H>)
        requires
            old(self)@.wf(),
            old(self)@.live(object),
            old(self)@.objects[object as int].class == host.class_id(),
        ensures
            final(self)@ == old(self)@.set_private(object, Some(host)),
            final(self)@.wf(),
    {
        self.objects[object].private = Some(host);
        proof {
            let h = old(self)@;
            let v = ObjectView { private: Some(host), ..h.objects[object as int] };
            assert(self@.objects =~= h.put(object, v).objects);
            assert(h.object_wf(object));
            lemma_put_wf(h, object, v);
        }
    }

    /// The host value in the private slot of `object`.
    pub fn get_private(&self, object: ObjectId) -> (host: Option<&HostValue<H>>)
        requires
            self@.contains(object),
        ensures
            match host {
                Some(v) => self@.objects[object as int].private == Some(*v),
                None => self@.objects[object as int].private is None,
            },
    {
        self.objects[object].private.as_ref()
    }

    /// Empties the private slot of `object` and hands out what it held.
    pub fn take_private(&mut self, object: ObjectId) -> (host: Option<HostValue<H>>)
        requires
            old(self)@.wf(),
            old(self)@.contains(object),
        ensures
            host == old(self)@.objects[object as int].private,
            final(self)@ == old(self)@.set_private(object, None),
            final(self)@.wf(),
    {
        let host = self.objects[object].private.take();
        proof {
            let h = old(self)@;
            let v = ObjectView { private: None, ..h.objects[object as int] };
            assert(self@.objects =~= h.put(object, v).objects);
            assert(h.object_wf(object));
            lemma_put_wf(h, object, v);
        }
        host
    }

    /// Registers the slot `index` of the prototype cache of `global` with
    /// the collector's write barrier: the slot outlives the objects that
    /// are stored in it while they are young.
    pub fn post_barrier(&mut self, global: ObjectId, index: usize)
        requires
            old(self)@.wf(),
            old(self)@.contains(global),
            index < PROTOTYPE_COUNT,
        ensures
            final(self)@ == old(self)@.with_barrier(global, index as int),
            final(self)@.wf(),
    {
        assert(old(self)@.object_wf(global));
        self.objects[global].barriered[index] = true;
        proof {
            let h = old(self)@;
            assert(self@.objects =~= h.with_barrier(global, index as int).objects);
            lemma_put_wf(h, global, h.with_barrier(global, index as int).objects[global as int]);
        }
    }

    /// Whether the collector's write barrier tracks the slot `index` of the
    /// prototype cache of `global`.
    pub fn is_barriered(&self, global: ObjectId, index: usize) -> (b: bool)
        requires
            self@.contains(global),
            index < PROTOTYPE_COUNT,
        ensures
            b == self@.objects[global as int].barriered[index as int],
    {
        self.objects[global].barriered[index]
    }

    /// Stores `cache` in the realm slot of `global`.
    pub fn set_prototypes(&mut self, global: ObjectId, cache: [Option<ObjectId>; PROTOTYPE_COUNT])
        requires
            old(self)@.wf(),
            old(self)@.live(global),
            old(self)@.objects[global as int].class.global(),
            forall|i: int|
                0 <= i < cache@.len() ==> (#[trigger] cache@[i] matches Some(p) ==> old(
                    self,
                )@.contains(p) && old(self)@.objects[p as int].class == prototype_class_at(i)),
        ensures
            final(self)@ == old(self)@.set_prototypes(global, Some(cache@)),
            final(self)@.wf(),
    {
        self.objects[global].prototypes = Some(cache);
        proof {
            let h = old(self)@;
            let v = ObjectView { prototypes: Some(cache@), ..h.objects[global as int] };
            assert(self@.objects =~= h.put(global, v).objects);
            assert(h.object_wf(global));
            lemma_put_wf(h, global, v);
        }
    }

    /// The prototype cache in the realm slot of `global`.
    pub fn get_prototypes(&self, global: ObjectId) -> (cache: Option<
        [Option<ObjectId>; PROTOTYPE_COUNT],
    >)
        requires
            self@.contains(global),
        ensures
            match cache {
                Some(c) => self@.objects[global as int].prototypes == Some(c@),
                None => self@.objects[global as int].prototypes is None,
            },
    {
        self.objects[global].prototypes
    }

    /// The collector's sweep of `object`: whatever its slots held is
    /// released, and the object is no longer live.
    pub fn sweep(&mut self, object: ObjectId)
        requires
            old(self)@.wf(),
            old(self)@.live(object),
        ensures
            final(self)@ == old(self)@.sweep(object),
            final(self)@.wf(),
    {
        self.objects[object].private = None;
        self.objects[object].prototypes = None;
        self.objects[object].live = false;
        proof {
            let h = old(self)@;
            assert(self@.objects =~= h.sweep(object).objects);
            assert(h.object_wf(object));
            lemma_put_wf(h, object, h.sweep(object).objects[object as int]);
        }
    }
}

/// Heaps with the same objects are alike well formed, and alike settled.
pub proof fn lemma_same_objects<H>(h: HeapView<H>, g: HeapView<H>)
    requires
        h.objects == g.objects,
    ensures
        h.wf() == g.wf(),
        h.settled() == g.settled(),
{
    assert forall|object: ObjectId| h.contains(object) implies h.object_wf(object)
        == g.object_wf(object) by {}
    assert forall|object: ObjectId| h.contains(object) implies h.object_settled(object)
        == g.object_settled(object) by {}
}

/// Replacing one object by one that is not half built leaves none half built.
pub proof fn lemma_put_settled<H>(h: HeapView<H>, object: ObjectId, v: ObjectView<H>)
    requires
        h.settled(),
        h.contains(object),
        h.put(object, v).object_settled(object),
    ensures
        h.put(object, v).settled(),
{
    let g = h.put(object, v);
    assert forall|other: ObjectId| g.contains(other) implies #[trigger] g.object_settled(
        other,
    ) by {
        if other != object {
            assert(h.object_settled(other));
        }
    }
}

/// A new object that needs nothing in its slots is not half built.
pub proof fn lemma_allocate_settled<H>(h: HeapView<H>, class: ClassId, proto: Option<ObjectId>)
    requires
        h.settled(),
        !class.carries_host(),
        !class.global(),
    ensures
        h.allocate(class, proto).settled(),
{
    let g = h.allocate(class, proto);
    assert forall|object: ObjectId| g.contains(object) implies #[trigger] g.object_settled(
        object,
    ) by {
        if object < h.objects.len() {
            assert(h.object_settled(object));
        }
    }
}

/// Replacing one object by a well-formed one of its class keeps the heap
/// well formed.
pub proof fn lemma_put_wf<H>(h: HeapView<H>, object: ObjectId, v: ObjectView<H>)
    requires
        h.wf(),
        h.contains(object),
        v.class == h.objects[object as int].class,
        h.put(object, v).object_wf(object),
    ensures
        h.put(object, v).wf(),
{
    let g = h.put(object, v);
    assert forall|other: ObjectId| g.contains(other) implies #[trigger] g.object_wf(other) by {
        if other != object {
            assert(h.object_wf(other));
        }
    }
}

/// Allocation keeps the heap well formed.
pub proof fn lemma_allocate_wf<H>(h: HeapView<H>, class: ClassId, proto: Option<ObjectId>)
    requires
        h.wf(),
        proto matches Some(p) ==> h.contains(p),
        h.objects.len() < usize::MAX,
    ensures
        h.allocate(class, proto).wf(),
{
    let g = h.allocate(class, proto);
    assert forall|object: ObjectId| g.contains(object) implies #[trigger] g.object_wf(object) by {
        if object < h.objects.len() {
            assert(h.object_wf(object));
        }
    }
}

} // verus!
