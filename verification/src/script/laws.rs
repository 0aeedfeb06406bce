//! What holds of the reflection layer across calls: the laws that its
//! callers rely on.

use crate::script::console::logged;
use crate::script::console::string_of;
use crate::script::console::Console;
use crate::script::console::StoringHandler;
use crate::script::global::global_attributes;
use crate::script::global::global_methods;
use crate::script::global::Global;
use crate::script::heap::lemma_count_hosts_push;
use crate::script::heap::lemma_count_hosts_update;
use crate::script::heap::lemma_put_wf;
use crate::script::heap::CallArgs;
use crate::script::heap::ClassId;
use crate::script::heap::CompartmentOptions;
use crate::script::heap::HeapView;
use crate::script::heap::JSVersion;
use crate::script::heap::ObjectId;
use crate::script::heap::ObjectView;
use crate::script::heap::TraceHook;
use crate::script::reflect::lemma_interface_prototype_frame;
use crate::script::reflect::HostValue;
use crate::script::reflect::InterfaceDescriptor;
use crate::script::reflect::PrototypeID;
use crate::script::reflect::Reflectable;
use crate::script::reflect::PROTOTYPE_COUNT;
use vstd::prelude::*;

verus! {

/// Asking twice for the prototype of an interface in a realm gives the
/// same object both times, and the second asking changes nothing: the
/// prototype is made at most once. Where it is made, the cache slot that
/// takes it is tracked by the collector's write barrier.
pub proof fn lemma_prototype_is_made_once<H>(
    h: HeapView<H>,
    global: ObjectId,
    d: InterfaceDescriptor,
)
    requires
        h.wf(),
        h.cached(global, d.interface_id) is None ==> h.objects.len() < usize::MAX,
        h.realm_ready(global),
        d.valid(),
    ensures
        h.with_prototype(global, d).wf(),
        h.with_prototype(global, d).realm_ready(global),
        h.with_prototype(global, d).prototype(global, d) == h.prototype(global, d),
        h.with_prototype(global, d).with_prototype(global, d) == h.with_prototype(global, d),
        h.with_prototype(global, d).cached(global, d.interface_id) == Some(
            h.prototype(global, d),
        ),
        h.with_prototype(global, d).objects.len() <= h.objects.len() + 1,
        h.cached(global, d.interface_id) is None ==> h.with_prototype(
            global,
            d,
        ).objects[global as int].barriered[d.interface_id.slot()],
{
    assert(h.object_wf(global));
    if h.cached(global, d.interface_id) is None {
        lemma_interface_prototype_frame(h, global, d);
        lemma_prototype_wf(h, global, d);
    }
}

/// Asking for a prototype keeps the heap well formed, and changes no
/// object that was there but the global object's cache.
pub proof fn lemma_prototype_wf<H>(h: HeapView<H>, global: ObjectId, d: InterfaceDescriptor)
    requires
        h.wf(),
        h.cached(global, d.interface_id) is None ==> h.objects.len() < usize::MAX,
        h.realm_ready(global),
        d.valid(),
    ensures
        h.with_prototype(global, d).wf(),
        h.with_prototype(global, d).contains(h.prototype(global, d)),
        h.with_prototype(global, d).objects[h.prototype(global, d) as int].class
            == d.prototype_class,
        forall|object: ObjectId|
            h.contains(object) && object != global ==> #[trigger] h.with_prototype(
                global,
                d,
            ).objects[object as int] == h.objects[object as int],
{
    assert(h.object_wf(global));
    let g = h.with_prototype(global, d);
    if h.cached(global, d.interface_id) is None {
        lemma_interface_prototype_frame(h, global, d);
        assert forall|object: ObjectId| g.contains(object) implies #[trigger] g.object_wf(
            object,
        ) by {
            if object < h.objects.len() {
                assert(h.object_wf(object));
            }
        }
    }
}

/// Asking for the prototype of one interface leaves what the cache holds
/// for every other interface as it was.
pub proof fn lemma_prototype_of_another_interface<H>(
    h: HeapView<H>,
    global: ObjectId,
    d: InterfaceDescriptor,
    other: InterfaceDescriptor,
)
    requires
        h.wf(),
        h.realm_ready(global),
        d.valid(),
        other.valid(),
        other.interface_id != d.interface_id,
    ensures
        h.with_prototype(global, d).cached(global, other.interface_id) == h.cached(
            global,
            other.interface_id,
        ),
{
    assert(h.object_wf(global));
    if h.cached(global, d.interface_id) is None {
        lemma_interface_prototype_frame(h, global, d);
    }
}

/// Asking for a prototype in one realm changes nothing in another: realms
/// share no cache slot.
pub proof fn lemma_realms_share_no_cache<H>(
    h: HeapView<H>,
    global: ObjectId,
    other: ObjectId,
    d: InterfaceDescriptor,
)
    requires
        h.wf(),
        h.cached(global, d.interface_id) is None ==> h.objects.len() < usize::MAX,
        h.realm_ready(global),
        d.valid(),
        h.contains(other),
        other != global,
    ensures
        h.with_prototype(global, d).objects[other as int] == h.objects[other as int],
{
    lemma_prototype_wf(h, global, d);
}

/// The places of the interfaces in a prototype cache are dense: the two
/// interfaces have the places zero and one, and the number of interfaces,
/// which sizes the cache, is two.
pub proof fn lemma_interface_ids_are_dense<H>()
    ensures
        Console::<H>::descriptor().valid(),
        <Global as Reflectable<H>>::descriptor().valid(),
        Console::<H>::descriptor().interface_id.slot() == 0,
        <Global as Reflectable<H>>::descriptor().interface_id.slot() == 1,
        PrototypeID::Count.slot() == 2,
        PROTOTYPE_COUNT == 2,
{
}

/// An object is an instance of one class only: the identity test of one
/// interface holds of it, and that of every interface with another class
/// fails.
pub proof fn lemma_instance_of_one_class<H>(
    h: HeapView<H>,
    object: ObjectId,
    d: InterfaceDescriptor,
    other: InterfaceDescriptor,
)
    requires
        h.instance_of(object, d.class),
        other.class != d.class,
    ensures
        !h.instance_of(object, other.class),
{
}

/// A live object that carries a host value of the interface `T` passes the
/// identity test of `T`.
pub proof fn lemma_reflected_is_instance<H, T: Reflectable<H>>(
    h: HeapView<H>,
    object: ObjectId,
    v: T,
)
    requires
        h.wf(),
        h.contains(object),
        h.objects[object as int].private == Some(v.host()),
    ensures
        h.instance_of(object, T::descriptor().class),
{
    T::lemma_host(v);
    assert(h.object_wf(object));
}

/// The console interface and the global interface differ in their class,
/// in the class of their prototype and in their place in the cache: an
/// object that passes the identity test of one fails that of the other.
pub proof fn lemma_interfaces_are_distinct<H>(h: HeapView<H>, object: ObjectId)
    ensures
        Console::<H>::descriptor().class != <Global as Reflectable<H>>::descriptor().class,
        Console::<H>::descriptor().prototype_class != <Global as Reflectable<
            H,
        >>::descriptor().prototype_class,
        Console::<H>::descriptor().interface_id != <Global as Reflectable<
            H,
        >>::descriptor().interface_id,
        !(h.instance_of(object, Console::<H>::descriptor().class) && h.instance_of(
            object,
            <Global as Reflectable<H>>::descriptor().class,
        )),
{
}

/// Handing a host value over to a new object and finalizing that object
/// brings the number of host values back to what it was: the value is
/// released once. After that the object is no longer live, so that it
/// cannot be finalized again.
pub proof fn lemma_reflect_then_finalize<H>(
    h: HeapView<H>,
    class: ClassId,
    proto: Option<ObjectId>,
    host: HostValue<H>,
)
    requires
        h.objects.len() < usize::MAX,
    ensures
        h.allocate(class, proto).hosts() == h.hosts(),
        h.allocate(class, proto).set_private(h.next(), Some(host)).hosts() == h.hosts() + 1,
        h.allocate(class, proto).set_private(h.next(), Some(host)).sweep(h.next()).hosts()
            == h.hosts(),
        !h.allocate(class, proto).set_private(h.next(), Some(host)).sweep(h.next()).live(
            h.next(),
        ),
{
    let object = h.next();
    let made = h.allocate(class, proto);
    lemma_count_hosts_push(h.objects, ObjectView::fresh(class, proto));
    let reflected = made.set_private(object, Some(host));
    lemma_count_hosts_update(made.objects, object as int, reflected.objects[object as int]);
    let swept = reflected.sweep(object);
    lemma_count_hosts_update(reflected.objects, object as int, swept.objects[object as int]);
}

/// Finalizing a live object that carries a host value makes the number of
/// host values one less, and finalizing one that carries none leaves it.
pub proof fn lemma_finalize_releases_one<H>(h: HeapView<H>, object: ObjectId)
    requires
        h.live(object),
    ensures
        h.sweep(object).hosts() + (if h.objects[object as int].private is Some {
            1nat
        } else {
            0nat
        }) == h.hosts(),
        !h.sweep(object).live(object),
{
    lemma_count_hosts_update(h.objects, object as int, h.sweep(object).objects[object as int]);
}

/// Two consoles made one after the other in a realm are two objects, and
/// both have the one console prototype that the realm's cache holds.
pub proof fn lemma_consoles_share_their_prototype<H>(
    h: HeapView<H>,
    scope: ObjectId,
    first: Console<H>,
    second: Console<H>,
)
    requires
        h.wf(),
        h.objects.len() + 3 <= usize::MAX,
        h.realm_ready(scope),
    ensures
        ({
            let d = Console::<H>::descriptor();
            let one = h.console_object(scope);
            let with_one = h.with_console(scope, first);
            let two = with_one.console_object(scope);
            let with_two = with_one.with_console(scope, second);
            &&& one != two
            &&& with_two.live(one)
            &&& with_two.live(two)
            &&& with_two.objects[one as int].proto == Some(h.prototype(scope, d))
            &&& with_two.objects[two as int].proto == Some(h.prototype(scope, d))
            &&& with_two.cached(scope, d.interface_id) == Some(h.prototype(scope, d))
            &&& with_two.objects[one as int].private == Some(HostValue::Console(first))
            &&& with_two.objects[two as int].private == Some(HostValue::Console(second))
        }),
{
    let d = Console::<H>::descriptor();
    lemma_prototype_is_made_once(h, scope, d);
    lemma_prototype_wf(h, scope, d);
    let with_proto = h.with_prototype(scope, d);
    let one = h.console_object(scope);
    let with_one = h.with_console(scope, first);
}

/// A call of `log` that a console on a storing sink has accepted: the sink
/// keeps the text of the first argument, once and as it is, after what it
/// kept before.
pub proof fn lemma_storing_sink_keeps_the_message(
    before: HeapView<StoringHandler>,
    after: HeapView<StoringHandler>,
    args: CallArgs,
)
    requires
        logged(before, after, args),
    ensures
        ({
            let object = args.this->Object_0;
            let was = before.objects[object as int].private->0->Console_0;
            let is = after.objects[object as int].private->0->Console_0;
            is.sink().kept() == was.sink().kept().push(string_of(args.argv@[0])->0)
        }),
{
}

/// A new realm is three new objects: its global object, its base object
/// prototype, and the prototype of the global interface. The global
/// object carries its holder, was made for the fifth edition of the
/// language and with the trace hook that also traces the prototype cache,
/// and was announced; its prototype is the one that its own
/// cache holds for the global interface, which has the interface's tables
/// and the base object prototype as its parent. No console prototype was
/// made yet.
pub proof fn lemma_new_realm<H>(h: HeapView<H>, holder: Global)
    requires
        h.wf(),
        h.objects.len() + 3 <= usize::MAX,
    ensures
        ({
            let global = h.next();
            let realm = h.with_realm(holder);
            let proto = (global + 2) as ObjectId;
            &&& realm.wf()
            &&& h.settled() ==> realm.settled()
            &&& realm.objects.len() == h.objects.len() + 3
            &&& realm.exception == h.exception
            &&& forall|object: ObjectId|
                h.contains(object) ==> #[trigger] realm.objects[object as int]
                    == h.objects[object as int]
            &&& realm.realm_ready(global)
            &&& realm.instance_of(global, ClassId::Global)
            &&& realm.objects[global as int].private == Some(HostValue::<H>::Global(holder))
            &&& realm.objects[global as int].announced
            &&& realm.objects[global as int].options == Some(
                CompartmentOptions {
                    version: JSVersion::Ecma5,
                    trace_global: Some(TraceHook::PrototypeCache),
                },
            )
            &&& realm.objects[global as int].object_proto == Some((global + 1) as ObjectId)
            &&& realm.objects[global + 1].class == ClassId::Object
            &&& realm.objects[global as int].proto == Some(proto)
            &&& realm.cached(global, PrototypeID::Global) == Some(proto)
            &&& realm.cached(global, PrototypeID::Console) is None
            &&& realm.objects[proto as int].class == ClassId::GlobalPrototype
            &&& realm.objects[proto as int].proto == Some((global + 1) as ObjectId)
            &&& realm.objects[proto as int].methods == global_methods()
            &&& realm.objects[proto as int].properties == global_attributes()
        }),
{
    let global = h.next();
    let d = <Global as Reflectable<H>>::descriptor();
    let options = CompartmentOptions {
        version: JSVersion::Ecma5,
        trace_global: Some(TraceHook::PrototypeCache),
    };
    let a = h.new_global(ClassId::Global, options);
    let b = a.set_private(global, Some(HostValue::<H>::Global(holder)));
    let c = b.with_standard_classes(global);
    let e = c.set_prototypes(global, Some(seq![None, None]));
    let made = e.announce(global);
    assert forall|object: ObjectId| made.contains(object) implies #[trigger] made.object_wf(
        object,
    ) by {
        if object < h.objects.len() {
            assert(h.object_wf(object));
        }
    }
    lemma_interface_prototype_frame(made, global, d);
    lemma_prototype_wf(made, global, d);
    let cached = made.with_prototype(global, d);
    let realm = h.with_realm(holder);
    let proto = made.next();
    lemma_put_wf(cached, global, realm.objects[global as int]);
    if h.settled() {
        assert forall|object: ObjectId|
            realm.contains(object) implies #[trigger] realm.object_settled(object) by {
            if object < h.objects.len() {
                assert(h.object_settled(object));
            }
        }
    }
}

} // verus!
