//! Reflection of host values into engine objects: the identity test, the
//! transfer of a host value into an object and back out at finalization,
//! and the per-realm cache of interface prototypes.

use crate::script::console::Console;
use crate::script::global::Global;
use crate::script::heap::ClassId;
use crate::script::heap::FunctionSpec;
use crate::script::heap::Heap;
use crate::script::heap::lemma_allocate_settled;
use crate::script::heap::lemma_put_settled;
use crate::script::heap::HeapView;
use crate::script::heap::ObjectId;
use crate::script::heap::PropertySpec;
use crate::script::heap::Value;
use vstd::prelude::*;

verus! {

/// The number of reflected interfaces; it sizes every prototype cache.
pub const PROTOTYPE_COUNT: usize = 2;

/// The place of an interface in a prototype cache. `Count` is no interface:
/// it is the number of them.
#[derive(PartialEq, Eq, Structural, Copy, Clone, Debug)]
pub enum PrototypeID {
    Console,
    Global,
    Count,
}

impl PrototypeID {
    /// The place in a prototype cache, counted from zero.
    pub open spec fn slot(self) -> int {
        match self {
            PrototypeID::Console => 0,
            PrototypeID::Global => 1,
            PrototypeID::Count => 2,
        }
    }

    /// The place in a prototype cache, counted from zero.
    pub fn index(self) -> (i: usize)
        ensures
            i == self.slot(),
    {
        match self {
            PrototypeID::Console => 0,
            PrototypeID::Global => 1,
            PrototypeID::Count => 2,
        }
    }
}

/// The class of the prototype object that the slot `slot` of a prototype
/// cache is for.
pub open spec fn prototype_class_at(slot: int) -> ClassId {
    if slot == PrototypeID::Console.slot() {
        ClassId::ConsolePrototype
    } else {
        ClassId::GlobalPrototype
    }
}

/// A host value as an engine object carries it in its private slot.
pub enum HostValue<H> {
    Console(Console<H>),
    Global(Global),
}

impl<H> HostValue<H> {
    /// The class of the engine objects that carry this kind of host value.
    pub open spec fn class_id(self) -> ClassId {
        match self {
            HostValue::Console(_) => ClassId::Console,
            HostValue::Global(_) => ClassId::Global,
        }
    }
}

/// What is fixed of a reflected interface: the class of its instances, the
/// class of its prototype object, its native tables and its cache slot.
pub struct InterfaceDescriptor {
    pub class: ClassId,
    pub prototype_class: ClassId,
    pub methods: Option<Seq<FunctionSpec>>,
    pub properties: Option<Seq<PropertySpec>>,
    pub interface_id: PrototypeID,
}

/// No two methods of `table` have the same name.
pub open spec fn method_names_differ(table: Seq<FunctionSpec>) -> bool {
    forall|i: int, j: int|
        0 <= i < j < table.len() ==> (#[trigger] table[i]).name@ != (#[trigger] table[j]).name@
}

/// No two properties of `table` have the same name.
pub open spec fn property_names_differ(table: Seq<PropertySpec>) -> bool {
    forall|i: int, j: int|
        0 <= i < j < table.len() ==> (#[trigger] table[i]).name@ != (#[trigger] table[j]).name@
}

impl InterfaceDescriptor {
    /// The instances carry a host value, the prototype object carries none
    /// and is no global object, the interface has a cache slot, which is
    /// for prototype objects of its prototype class, and within each of its
    /// tables no name occurs twice.
    pub open spec fn valid(self) -> bool {
        &&& self.class.carries_host()
        &&& !self.prototype_class.carries_host()
        &&& !self.prototype_class.global()
        &&& self.interface_id != PrototypeID::Count
        &&& self.prototype_class == prototype_class_at(self.interface_id.slot())
        &&& self.methods matches Some(table) ==> method_names_differ(table)
        &&& self.properties matches Some(table) ==> property_names_differ(table)
    }
}

impl<H> HeapView<H> {
    /// `object` is a live object of `class`.
    pub open spec fn instance_of(self, object: ObjectId, class: ClassId) -> bool {
        self.live(object) && self.objects[object as int].class == class
    }

    /// What the prototype cache of `global` holds for the interface `id`.
    pub open spec fn cached(self, global: ObjectId, id: PrototypeID) -> Option<ObjectId> {
        self.objects[global as int].prototypes->0[id.slot()]
    }

    /// The heap with a new prototype object for `d` in the realm of
    /// `global`: its parent is the realm's base object prototype, and it has
    /// the interface's methods and properties.
    pub open spec fn with_interface_prototype(
        self,
        global: ObjectId,
        d: InterfaceDescriptor,
    ) -> Self {
        let proto = self.next();
        let made = self.allocate(d.prototype_class, self.objects[global as int].object_proto);
        let with_methods = match d.methods {
            Some(methods) => made.add_methods(proto, methods),
            None => made,
        };
        match d.properties {
            Some(properties) => with_methods.add_properties(proto, properties),
            None => with_methods,
        }
    }

    /// The prototype object of `d` in the realm of `global`: the cached one,
    /// or else the one that is made next.
    pub open spec fn prototype(self, global: ObjectId, d: InterfaceDescriptor) -> ObjectId {
        match self.cached(global, d.interface_id) {
            Some(proto) => proto,
            None => self.next(),
        }
    }

    /// The heap once the prototype object of `d` was asked for in the realm
    /// of `global`: unchanged where the cache had it, else with the new
    /// prototype object, the cache filled in, and the filled slot tracked by
    /// the collector's write barrier.
    pub open spec fn with_prototype(self, global: ObjectId, d: InterfaceDescriptor) -> Self {
        match self.cached(global, d.interface_id) {
            Some(_) => self,
            None => {
                let made = self.with_interface_prototype(global, d);
                made.set_prototypes(
                    global,
                    Some(
                        self.objects[global as int].prototypes->0.update(
                            d.interface_id.slot(),
                            Some(self.next()),
                        ),
                    ),
                ).with_barrier(global, d.interface_id.slot())
            },
        }
    }
}

/// The message of the type error for a receiver that is no object of the
/// interface asked for.
pub open spec fn not_an_object() -> Seq<char> {
    "Value is not an object"@
}

/// A host type whose values script code can hold as objects.
pub trait Reflectable<H>: Sized {
    /// What is fixed of the interface.
    spec fn descriptor() -> InterfaceDescriptor;

    /// This value as the private slot of an object holds it.
    spec fn host(self) -> HostValue<H>;

    /// The descriptor of the interface is valid.
    proof fn lemma_descriptor()
        ensures
            Self::descriptor().valid(),
    ;

    /// A host value is of the class of its interface.
    proof fn lemma_host(v: Self)
        ensures
            v.host().class_id() == Self::descriptor().class,
    ;

    fn class() -> (class: ClassId)
        ensures
            class == Self::descriptor().class,
    ;

    fn prototype_class() -> (class: ClassId)
        ensures
            class == Self::descriptor().prototype_class,
    ;

    fn methods() -> (methods: Option<Vec<FunctionSpec>>)
        ensures
            match methods {
                Some(table) => Self::descriptor().methods == Some(table@),
                None => Self::descriptor().methods is None,
            },
    ;

    fn attributes() -> (attributes: Option<Vec<PropertySpec>>)
        ensures
            match attributes {
                Some(table) => Self::descriptor().properties == Some(table@),
                None => Self::descriptor().properties is None,
            },
    ;

    fn prototype_index() -> (id: PrototypeID)
        ensures
            id == Self::descriptor().interface_id,
    ;

    fn into_host(self) -> (host: HostValue<H>)
        ensures
            host == self.host(),
    ;

    /// The value that `host` wraps, where it is of this type.
    fn from_host(host: &HostValue<H>) -> (v: Option<&Self>)
        ensures
            match v {
                Some(x) => *host == x.host(),
                None => host.class_id() != Self::descriptor().class,
            },
    ;

    /// Hands `self` over to `object`: from now on the collector alone
    /// decides when the value is released.
    fn init(self: Box<Self>, heap: &mut Heap<H>, object: ObjectId)
        requires
            old(heap)@.wf(),
            old(heap)@.instance_of(object, Self::descriptor().class),
            old(heap)@.objects[object as int].private is None,
        ensures
            final(heap)@ == old(heap)@.set_private(object, Some((*self).host())),
            final(heap)@.wf(),
            old(heap)@.settled() ==> final(heap)@.settled(),
    {
        proof {
            Self::lemma_host(*self);
        }
        heap.set_private(object, (*self).into_host());
        proof {
            if old(heap)@.settled() {
                assert(old(heap)@.object_settled(object));
                lemma_put_settled(old(heap)@, object, heap@.objects[object as int]);
            }
        }
    }

    /// Whether `object` is a live object of this interface's class.
    fn is(heap: &Heap<H>, object: ObjectId) -> (b: bool)
        ensures
            b == heap@.instance_of(object, Self::descriptor().class),
    {
        heap.is_live(object) && heap.get_class(object) == Self::class()
    }

    /// The host value that `object` carries.
    fn from_reflector(heap: &Heap<H>, object: ObjectId) -> (v: &Self)
        requires
            heap@.wf(),
            heap@.instance_of(object, Self::descriptor().class),
            heap@.objects[object as int].private is Some,
        ensures
            heap@.objects[object as int].private == Some(v.host()),
    {
        assert(heap@.object_wf(object));
        match heap.get_private(object) {
            Some(host) => match Self::from_host(host) {
                Some(v) => v,
                None => vstd::pervasive::unreached(),
            },
            None => vstd::pervasive::unreached(),
        }
    }

    /// Recovers the receiver of a native call. A value that is no object,
    /// or an object of another class, is answered with a type error.
    fn from_value(heap: &mut Heap<H>, v: &Value) -> (r: Result<ObjectId, ()>)
        ensures
            match r {
                Ok(object) => {
                    &&& *v == Value::Object(object)
                    &&& old(heap)@.instance_of(object, Self::descriptor().class)
                    &&& final(heap)@ == old(heap)@
                },
                Err(_) => {
                    &&& !(*v matches Value::Object(object) && old(heap)@.instance_of(
                        object,
                        Self::descriptor().class,
                    ))
                    &&& final(heap)@ == old(heap)@.throw(not_an_object())
                },
            },
            old(heap)@.wf() ==> final(heap)@.wf(),
            old(heap)@.settled() ==> final(heap)@.settled(),
    {
        if !v.is_object() {
            heap.throw_type_error("Value is not an object");
            return Err(());
        }
        let object = v.to_object();
        if !Self::is(heap, object) {
            heap.throw_type_error("Value is not an object");
            return Err(());
        }
        Ok(object)
    }

    /// The parent of every interface prototype in the realm of `global`:
    /// the realm's base object prototype.
    fn get_parent_proto(heap: &Heap<H>, global: ObjectId) -> (proto: ObjectId)
        requires
            heap@.contains(global),
            heap@.objects[global as int].object_proto is Some,
        ensures
            heap@.objects[global as int].object_proto == Some(proto),
    {
        match heap.get_object_prototype(global) {
            Some(proto) => proto,
            None => vstd::pervasive::unreached(),
        }
    }

    /// Makes the prototype object of this interface in the realm of `global`.
    fn create_interface_prototype_object(heap: &mut Heap<H>, global: ObjectId) -> (proto: ObjectId)
        requires
            old(heap)@.wf(),
            old(heap)@.contains(global),
            old(heap)@.objects[global as int].object_proto is Some,
        ensures
            proto == old(heap)@.next(),
            final(heap)@ == old(heap)@.with_interface_prototype(global, Self::descriptor()),
            final(heap)@.wf(),
            old(heap)@.settled() ==> final(heap)@.settled(),
    {
        proof {
            Self::lemma_descriptor();
            if old(heap)@.settled() {
                lemma_interface_prototype_settled(old(heap)@, global, Self::descriptor());
            }
        }
        assert(heap@.object_wf(global));
        let parent_proto = Self::get_parent_proto(heap, global);
        let proto = heap.new_object_with_unique_type(Self::prototype_class(), parent_proto);
        if let Some(methods) = Self::methods() {
            heap.define_methods(proto, methods);
        }
        if let Some(attributes) = Self::attributes() {
            heap.define_properties(proto, attributes);
        }
        proto
    }

    /// The prototype object of this interface in the realm of `global`. It
    /// is made when it is first asked for, and the same one is handed out
    /// ever after.
    fn get_prototype_object(heap: &mut Heap<H>, global: ObjectId) -> (proto: ObjectId)
        requires
            old(heap)@.wf(),
            old(heap)@.realm_ready(global),
        ensures
            proto == old(heap)@.prototype(global, Self::descriptor()),
            final(heap)@ == old(heap)@.with_prototype(global, Self::descriptor()),
            final(heap)@.wf(),
            old(heap)@.settled() ==> final(heap)@.settled(),
    {
        proof {
            Self::lemma_descriptor();
            if old(heap)@.settled() {
                lemma_prototype_settled(old(heap)@, global, Self::descriptor());
            }
        }
        assert(heap@.object_wf(global));
        let mut prototypes = get_prototypes(heap, global);
        let index = Self::prototype_index().index();
        if let Some(cached) = prototypes[index] {
            return cached;
        }
        let proto = Self::create_interface_prototype_object(heap, global);
        prototypes[index] = Some(proto);
        heap.set_prototypes(global, prototypes);
        heap.post_barrier(global, index);
        proto
    }
}

/// Making an interface prototype adds one object and changes no other.
pub proof fn lemma_interface_prototype_frame<H>(
    h: HeapView<H>,
    global: ObjectId,
    d: InterfaceDescriptor,
)
    requires
        h.wf(),
    ensures
        h.with_interface_prototype(global, d).objects.len() == h.objects.len() + 1,
        h.with_interface_prototype(global, d).exception == h.exception,
        forall|object: ObjectId|
            h.contains(object) ==> #[trigger] h.with_interface_prototype(
                global,
                d,
            ).objects[object as int] == h.objects[object as int],
        h.with_interface_prototype(global, d).objects[h.objects.len() as int].class
            == d.prototype_class,
        h.with_interface_prototype(global, d).objects[h.objects.len() as int].proto
            == h.objects[global as int].object_proto,
        h.with_interface_prototype(global, d).objects[h.objects.len() as int].live,
{
}

/// A new interface prototype leaves no object half built.
pub proof fn lemma_interface_prototype_settled<H>(
    h: HeapView<H>,
    global: ObjectId,
    d: InterfaceDescriptor,
)
    requires
        h.wf(),
        h.settled(),
        d.valid(),
    ensures
        h.with_interface_prototype(global, d).settled(),
{
    let proto = h.next();
    let made = h.allocate(d.prototype_class, h.objects[global as int].object_proto);
    lemma_allocate_settled(h, d.prototype_class, h.objects[global as int].object_proto);
    let with_methods = match d.methods {
        Some(methods) => made.add_methods(proto, methods),
        None => made,
    };
    if d.methods is Some {
        lemma_put_settled(made, proto, with_methods.objects[proto as int]);
    }
    if d.properties is Some {
        lemma_put_settled(
            with_methods,
            proto,
            with_methods.add_properties(proto, d.properties->0).objects[proto as int],
        );
    }
}

/// Asking for a prototype leaves no object half built.
pub proof fn lemma_prototype_settled<H>(h: HeapView<H>, global: ObjectId, d: InterfaceDescriptor)
    requires
        h.wf(),
        h.settled(),
        h.realm_ready(global),
        d.valid(),
    ensures
        h.with_prototype(global, d).settled(),
{
    if h.cached(global, d.interface_id) is None {
        let made = h.with_interface_prototype(global, d);
        lemma_interface_prototype_settled(h, global, d);
        lemma_interface_prototype_frame(h, global, d);
        assert(made.object_settled(global));
        let filled = h.with_prototype(global, d);
        assert(filled.objects =~= made.put(global, filled.objects[global as int]).objects);
        lemma_put_settled(made, global, filled.objects[global as int]);
    }
}

/// The collector's callback for an object of the interface `T`: the host
/// value that `object` carries is released, and with it whatever else its
/// slots hold.
pub fn finalize<H, T: Reflectable<H>>(heap: &mut Heap<H>, object: ObjectId)
    requires
        old(heap)@.wf(),
        old(heap)@.instance_of(object, T::descriptor().class),
    ensures
        final(heap)@ == old(heap)@.sweep(object),
        final(heap)@.wf(),
        old(heap)@.settled() ==> final(heap)@.settled(),
{
    let this = heap.take_private(object);
    heap.sweep(object);
    assert(heap@.objects =~= old(heap)@.sweep(object).objects);
    proof {
        if old(heap)@.settled() {
            lemma_put_settled(old(heap)@, object, old(heap)@.sweep(object).objects[object as int]);
        }
    }
}

/// The prototype cache of the realm of `global`.
pub fn get_prototypes<H>(heap: &Heap<H>, global: ObjectId) -> (cache: [Option<ObjectId>;
    PROTOTYPE_COUNT])
    requires
        heap@.contains(global),
        heap@.objects[global as int].prototypes is Some,
    ensures
        heap@.objects[global as int].prototypes == Some(cache@),
{
    match heap.get_prototypes(global) {
        Some(cache) => cache,
        None => vstd::pervasive::unreached(),
    }
}

/// Makes the prototype cache of the realm of `global`, every slot empty,
/// and attaches it to the global object, which has none yet.
pub fn initialize_global<H>(heap: &mut Heap<H>, global: ObjectId)
    requires
        old(heap)@.wf(),
        old(heap)@.instance_of(global, ClassId::Global),
        old(heap)@.objects[global as int].prototypes is None,
    ensures
        final(heap)@ == old(heap)@.set_prototypes(global, Some(seq![None, None])),
        final(heap)@.wf(),
{
    let proto_array: [Option<ObjectId>; PROTOTYPE_COUNT] = [None, None];
    heap.set_prototypes(global, proto_array);
}

} // verus!
