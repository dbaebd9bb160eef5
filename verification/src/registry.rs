//! The registry of native methods: the implementation registered for each
//! native method, found again by the method's class and name.
use vstd::prelude::*;
use crate::text::str_eq;

verus! {

/// A native method: the binary name of its class and its name with its
/// descriptor.
#[derive(Debug, Clone, PartialEq, Eq, Hash)]
pub struct NativeIdentifier {
    pub class: String,
    pub name: String,
}

impl NativeIdentifier {
    /// The identifier of the method `name` of class `class`.
    pub fn new(class: String, name: String) -> (r: NativeIdentifier)
        ensures
            r.class@ == class@,
            r.name@ == name@,
    {
        NativeIdentifier { class, name }
    }

    /// The identifier as a pair of character sequences.
    pub open spec fn key(&self) -> (Seq<char>, Seq<char>) {
        (self.class@, self.name@)
    }
}

/// A native method that is not registered was asked for.
#[derive(Debug, Clone, Copy, PartialEq, Eq)]
pub enum RegistryError {
    Unregistered,
}

/// The implementations of native methods, by identifier. Each identifier
/// has at most one implementation; registering one again replaces it.
pub struct NativeRegistry<M> {
    registry: Vec<(NativeIdentifier, M)>,
}

impl<M> NativeRegistry<M> {
    /// The keys of the registered identifiers are pairwise distinct.
    pub closed spec fn wf(&self) -> bool {
        forall|i: int, j: int|
            0 <= i < j < self.registry@.len() ==> (#[trigger] self.registry@[i]).0.key()
                != (#[trigger] self.registry@[j]).0.key()
    }

    /// The registered implementation of each identifier.
    pub closed spec fn map(&self) -> Map<(Seq<char>, Seq<char>), M> {
        Map::new(
            |k: (Seq<char>, Seq<char>)|
                exists|i: int| 0 <= i < self.registry@.len() && #[trigger] self.registry@[i].0.key() == k,
            |k: (Seq<char>, Seq<char>)|
                self.registry@[choose|i: int|
                    0 <= i < self.registry@.len() && #[trigger] self.registry@[i].0.key() == k].1,
        )
    }
}

impl<M> View for NativeRegistry<M> {
    type V = Map<(Seq<char>, Seq<char>), M>;

    open spec fn view(&self) -> Map<(Seq<char>, Seq<char>), M> {
        self.map()
    }
}

impl<M: Copy> NativeRegistry<M> {
    /// A registry that holds the methods that register the other natives of
    /// their classes, given by class, name and implementation.
    pub fn new(initial: &[(&str, &str, M)]) -> (r: Self)
        ensures
            r.wf(),
            r@ == registered_all(Map::empty(), initial@),
    {
        let mut registery = NativeRegistry { registry: Vec::new() };
        proof {
            assert(registery@ =~= Map::<(Seq<char>, Seq<char>), M>::empty());
        }
        registery.register_native_registering_methods(initial);
        registery
    }

    /// Registers the methods given by class, name and implementation, one
    /// after the other.
    pub fn register_native_registering_methods(&mut self, initial: &[(&str, &str, M)])
        requires
            old(self).wf(),
        ensures
            final(self).wf(),
            final(self)@ == registered_all(old(self)@, initial@),
    {
        let mut i: usize = 0;
        assert(initial@.skip(0) =~= initial@);
        while i < initial.len()
            invariant
                self.wf(),
                i <= initial@.len(),
                registered_all(old(self)@, initial@) == registered_all(self@, initial@.skip(i as int)),
            decreases initial@.len() - i,
        {
            let (class, sig, method) = initial[i];
            let ghost before = self@;
            self.register(NativeIdentifier::new(class.to_string(), sig.to_string()), method);
            proof {
                assert(initial@.skip(i as int).skip(1) =~= initial@.skip(i + 1));
                assert(initial@.skip(i as int)[0] == initial@[i as int]);
            }
            i += 1;
        }
    }

    /// The implementation registered for `native_id`.
    pub fn get(&self, native_id: &NativeIdentifier) -> (r: Result<M, RegistryError>)
        requires
            self.wf(),
        ensures
            self@.contains_key(native_id.key()) ==> r == Ok::<M, RegistryError>(
                self@[native_id.key()],
            ),
            !self@.contains_key(native_id.key()) ==> r == Err::<M, RegistryError>(
                RegistryError::Unregistered,
            ),
    {
        match self.position_of(native_id) {
            Some(i) => {
                proof {
                    self.lemma_at(i as int);
                }
                Ok(self.registry[i].1)
            },
            None => Err(RegistryError::Unregistered),
        }
    }

    /// Registers `native_method` as the implementation of `native_identifier`,
    /// replacing the one registered before, if any.
    pub fn register(&mut self, native_identifier: NativeIdentifier, native_method: M)
        requires
            old(self).wf(),
        ensures
            final(self).wf(),
            final(self)@ == old(self)@.insert(native_identifier.key(), native_method),
    {
        let ghost k = native_identifier.key();
        match self.position_of(&native_identifier) {
            Some(i) => {
                let ghost before = self.registry@;
                self.registry.set(i, (native_identifier, native_method));
                proof {
                    assert forall|a: int, b: int|
                        0 <= a < b < self.registry@.len() implies (
                        #[trigger] self.registry@[a]).0.key() != (
                        #[trigger] self.registry@[b]).0.key() by {
                        assert(before[a].0.key() != before[b].0.key());
                        if a == i {
                            assert(before[i as int].0.key() == k);
                        }
                        if b == i {
                            assert(before[i as int].0.key() == k);
                        }
                    }
                    assert forall|key: (Seq<char>, Seq<char>)|
                        #[trigger] self@.contains_key(key) == old(self)@.insert(k, native_method).contains_key(key)
                        by {
                        if old(self)@.contains_key(key) {
                            let j = choose|j: int| 0 <= j < before.len() && #[trigger] before[j].0.key() == key;
                            if j == i {
                                assert(self.registry@[i as int].0.key() == key);
                            } else {
                                assert(self.registry@[j].0.key() == key);
                            }
                        }
                        if self@.contains_key(key) {
                            let j = choose|j: int| 0 <= j < self.registry@.len() && #[trigger] self.registry@[j].0.key() == key;
                            if j != i {
                                assert(before[j].0.key() == key);
                            }
                        }
                    }
                    assert forall|key: (Seq<char>, Seq<char>)|
                        #[trigger] self@.contains_key(key) implies self@[key] == old(self)@.insert(k, native_method)[key]
                        by {
                        let j = choose|j: int| 0 <= j < self.registry@.len() && #[trigger] self.registry@[j].0.key() == key;
                        self.lemma_at(j);
                        if j != i {
                            assert(before[j].0.key() == key);
                            old(self).lemma_at(j);
                        }
                    }
                    assert(self@ =~= old(self)@.insert(k, native_method));
                }
            },
            None => {
                let ghost before = self.registry@;
                self.registry.push((native_identifier, native_method));
                proof {
                    let n = before.len() as int;
                    assert(self.registry@[n].0.key() == k);
                    assert forall|key: (Seq<char>, Seq<char>)|
                        #[trigger] self@.contains_key(key) == old(self)@.insert(k, native_method).contains_key(key)
                        by {
                        if old(self)@.contains_key(key) {
                            let j = choose|j: int| 0 <= j < before.len() && #[trigger] before[j].0.key() == key;
                            assert(self.registry@[j].0.key() == key);
                        }
                    }
                    assert forall|key: (Seq<char>, Seq<char>)|
                        #[trigger] self@.contains_key(key) implies self@[key] == old(self)@.insert(k, native_method)[key]
                        by {
                        let j = choose|j: int| 0 <= j < self.registry@.len() && #[trigger] self.registry@[j].0.key() == key;
                        self.lemma_at(j);
                        if j != n {
                            assert(before[j].0.key() == key);
                            old(self).lemma_at(j);
                        }
                    }
                    assert(self@ =~= old(self)@.insert(k, native_method));
                }
            },
        }
    }

    /// The index of the entry of `native_id`, if there is one.
    fn position_of(&self, native_id: &NativeIdentifier) -> (r: Option<usize>)
        ensures
            r matches Some(i) ==> i < self.registry@.len() && self.registry@[i as int].0.key()
                == native_id.key(),
            r is None ==> !self@.contains_key(native_id.key()),
    {
        let mut i: usize = 0;
        while i < self.registry.len()
            invariant
                i <= self.registry@.len(),
                forall|j: int| 0 <= j < i ==> (#[trigger] self.registry@[j]).0.key() != native_id.key(),
            decreases self.registry@.len() - i,
        {
            let entry = &self.registry[i];
            if str_eq(entry.0.class.as_str(), native_id.class.as_str()) && str_eq(
                entry.0.name.as_str(),
                native_id.name.as_str(),
            ) {
                return Some(i);
            }
            i += 1;
        }
        None
    }

    /// The entry at index `i` gives the implementation the map holds for its
    /// key.
    proof fn lemma_at(&self, i: int)
        requires
            self.wf(),
            0 <= i < self.registry@.len(),
        ensures
            self@.contains_key(self.registry@[i].0.key()),
            self@[self.registry@[i].0.key()] == self.registry@[i].1,
    {
        let k = self.registry@[i].0.key();
        assert(self.registry@[i].0.key() == k);
        let j = choose|j: int| 0 <= j < self.registry@.len() && #[trigger] self.registry@[j].0.key() == k;
        if j != i {
            if j < i {
                assert(self.registry@[j].0.key() != self.registry@[i].0.key());
            } else {
                assert(self.registry@[i].0.key() != self.registry@[j].0.key());
            }
        }
    }
}

/// The registry `m` once each (class, name, implementation) of `entries` is
/// registered, one after the other.
pub open spec fn registered_all<M>(m: Map<(Seq<char>, Seq<char>), M>, entries: Seq<(&str, &str, M)>) -> Map<(Seq<char>, Seq<char>), M>
    decreases entries.len(),
{
    if entries.len() == 0 {
        m
    } else {
        registered_all(m.insert((entries[0].0@, entries[0].1@), entries[0].2), entries.skip(1))
    }
}

/// Registers each (name, implementation) of `natives` as a method of class
/// `class`.
pub fn register_natives<M: Copy>(registry: &mut NativeRegistry<M>, class: &str, natives: &[(&str, M)])
    requires
        old(registry).wf(),
    ensures
        final(registry).wf(),
        final(registry)@ == registered_in_class(old(registry)@, class@, natives@),
{
    let mut i: usize = 0;
    assert(natives@.skip(0) =~= natives@);
    while i < natives.len()
        invariant
            registry.wf(),
            i <= natives@.len(),
            registered_in_class(old(registry)@, class@, natives@) == registered_in_class(registry@, class@, natives@.skip(i as int)),
        decreases natives@.len() - i,
    {
        let (name, method) = natives[i];
        registry.register(NativeIdentifier::new(class.to_string(), name.to_string()), method);
        proof {
            assert(natives@.skip(i as int).skip(1) =~= natives@.skip(i + 1));
            assert(natives@.skip(i as int)[0] == natives@[i as int]);
        }
        i += 1;
    }
}

/// The registry `m` once each (name, implementation) of `natives` is
/// registered as a method of class `class`, one after the other.
pub open spec fn registered_in_class<M>(m: Map<(Seq<char>, Seq<char>), M>, class: Seq<char>, natives: Seq<(&str, M)>) -> Map<(Seq<char>, Seq<char>), M>
    decreases natives.len(),
{
    if natives.len() == 0 {
        m
    } else {
        registered_in_class(m.insert((class, natives[0].0@), natives[0].1), class, natives.skip(1))
    }
}

/// A registration stands until the same method is registered again: reading
/// a method back after registering it gives the implementation registered,
/// and registering one method leaves every other method as it was.
pub proof fn lemma_register_then_get<M>(
    m: Map<(Seq<char>, Seq<char>), M>,
    k: (Seq<char>, Seq<char>),
    method: M,
    other: (Seq<char>, Seq<char>),
)
    requires
        other != k,
    ensures
        m.insert(k, method).contains_key(k),
        m.insert(k, method)[k] == method,
        m.insert(k, method).contains_key(other) == m.contains_key(other),
        m.contains_key(other) ==> m.insert(k, method)[other] == m[other],
{
}


/// The registry `m` once each (identifier key, implementation) of `ops` is
/// registered with [`NativeRegistry::register`], one after the other: each
/// call inserts its entry into the map the calls before it left.
pub open spec fn registered_in_order<M>(m: Map<(Seq<char>, Seq<char>), M>, ops: Seq<((Seq<char>, Seq<char>), M)>) -> Map<(Seq<char>, Seq<char>), M>
    decreases ops.len(),
{
    if ops.len() == 0 {
        m
    } else {
        registered_in_order(m, ops.drop_last()).insert(ops.last().0, ops.last().1)
    }
}

/// The implementation of the last registration of `k` in `ops`, if `k` is
/// registered there at all.
pub open spec fn last_registration<M>(ops: Seq<((Seq<char>, Seq<char>), M)>, k: (Seq<char>, Seq<char>)) -> Option<M>
    decreases ops.len(),
{
    if ops.len() == 0 {
        None
    } else if ops.last().0 == k {
        Some(ops.last().1)
    } else {
        last_registration(ops.drop_last(), k)
    }
}

/// The registrations that [`NativeRegistry::new`] makes for its table.
pub open spec fn initial_registrations<M>(entries: Seq<(&str, &str, M)>) -> Seq<((Seq<char>, Seq<char>), M)> {
    entries.map_values(|e: (&str, &str, M)| ((e.0@, e.1@), e.2))
}

/// Registering one entry and then a sequence is registering the sequence
/// that starts with that entry.
proof fn lemma_in_order_prepend<M>(m: Map<(Seq<char>, Seq<char>), M>, x: ((Seq<char>, Seq<char>), M), ops: Seq<((Seq<char>, Seq<char>), M)>)
    ensures
        registered_in_order(m.insert(x.0, x.1), ops) == registered_in_order(m, seq![x] + ops),
    decreases ops.len(),
{
    if ops.len() == 0 {
        let one = seq![x] + ops;
        assert(one.drop_last() =~= Seq::<((Seq<char>, Seq<char>), M)>::empty());
        assert(registered_in_order(m, one.drop_last()) == m);
        assert(one.last() == x);
    } else {
        lemma_in_order_prepend(m, x, ops.drop_last());
        assert((seq![x] + ops).drop_last() =~= seq![x] + ops.drop_last());
        assert((seq![x] + ops).last() == ops.last());
    }
}

/// Registering two sequences one after the other is registering them joined.
proof fn lemma_in_order_concat<M>(m: Map<(Seq<char>, Seq<char>), M>, a: Seq<((Seq<char>, Seq<char>), M)>, b: Seq<((Seq<char>, Seq<char>), M)>)
    ensures
        registered_in_order(registered_in_order(m, a), b) == registered_in_order(m, a + b),
    decreases b.len(),
{
    if b.len() == 0 {
        assert(a + b =~= a);
    } else {
        lemma_in_order_concat(m, a, b.drop_last());
        assert((a + b).drop_last() =~= a + b.drop_last());
    }
}

/// The table of [`NativeRegistry::new`] is registered in order.
proof fn lemma_initial_in_order<M>(m: Map<(Seq<char>, Seq<char>), M>, entries: Seq<(&str, &str, M)>)
    ensures
        registered_all(m, entries) == registered_in_order(m, initial_registrations(entries)),
    decreases entries.len(),
{
    if entries.len() == 0 {
        assert(initial_registrations(entries) =~= Seq::<((Seq<char>, Seq<char>), M)>::empty());
    } else {
        let x = ((entries[0].0@, entries[0].1@), entries[0].2);
        lemma_initial_in_order(m.insert(x.0, x.1), entries.skip(1));
        lemma_in_order_prepend(m, x, initial_registrations(entries.skip(1)));
        assert(seq![x] + initial_registrations(entries.skip(1)) =~= initial_registrations(entries));
    }
}

/// After any registrations, a method is registered exactly when some
/// registration named it, and its implementation is that of the last one.
proof fn lemma_last_registration<M>(ops: Seq<((Seq<char>, Seq<char>), M)>, k: (Seq<char>, Seq<char>))
    ensures
        registered_in_order(Map::empty(), ops).contains_key(k) <==> last_registration(ops, k) is Some,
        last_registration(ops, k) matches Some(v) ==> registered_in_order(Map::empty(), ops)[k] == v,
    decreases ops.len(),
{
    if ops.len() > 0 {
        lemma_last_registration(ops.drop_last(), k);
    }
}

/// What a registry answers after [`NativeRegistry::new`] with table `initial`
/// and then [`NativeRegistry::register`] with each entry of `ops` in turn (the
/// registry's map is then `registered_in_order(registered_all(Map::empty(),
/// initial), ops)`, by the contracts of those two functions): a method is
/// registered, and [`NativeRegistry::get`] gives `Ok`, exactly when the table
/// or one of the calls registered it, and the implementation it gives is that
/// of the last such registration.
pub proof fn lemma_get_gives_last_registration<M>(
    initial: Seq<(&str, &str, M)>,
    ops: Seq<((Seq<char>, Seq<char>), M)>,
    k: (Seq<char>, Seq<char>),
)
    ensures
        ({
            let m = registered_in_order(registered_all(Map::empty(), initial), ops);
            let history = initial_registrations(initial) + ops;
            &&& m.contains_key(k) <==> last_registration(history, k) is Some
            &&& last_registration(history, k) matches Some(v) ==> m[k] == v
        }),
{
    lemma_initial_in_order(Map::empty(), initial);
    lemma_in_order_concat(Map::empty(), initial_registrations(initial), ops);
    lemma_last_registration(initial_registrations(initial) + ops, k);
}

/// The number of native methods a fresh registry of the virtual machine
/// holds.
pub const NUM_INITIAL_NATIVES: usize = 27;

/// The (class, method with descriptor) keys of the native methods that a
/// fresh registry of the virtual machine holds, in the order they are
/// registered: the methods that register the rest of their class's natives,
/// and the natives that are needed before any class registers its own.
pub open spec fn initial_native_key_views() -> Seq<(Seq<char>, Seq<char>)> {
    Seq::new(27, |i: int| initial_native_key(i))
}

/// The key of the initial native at index `i` (the last one for any index
/// from 26 on).
pub open spec fn initial_native_key(i: int) -> (Seq<char>, Seq<char>) {
    if i == 0 {
        ("java/lang/Object"@, "getClass()Ljava/lang/Class;"@)
    } else if i == 1 {
        ("java/lang/Object"@, "hashCode()I"@)
    } else if i == 2 {
        ("java/lang/Class"@, "registerNatives()V"@)
    } else if i == 3 {
        ("java/lang/StringUTF16"@, "isBigEndian()Z"@)
    } else if i == 4 {
        ("java/lang/Float"@, "floatToRawIntBits(F)I"@)
    } else if i == 5 {
        ("java/lang/Double"@, "doubleToRawLongBits(D)J"@)
    } else if i == 6 {
        ("java/lang/Double"@, "longBitsToDouble(J)D"@)
    } else if i == 7 {
        ("java/lang/Throwable"@, "fillInStackTrace(I)Ljava/lang/Throwable;"@)
    } else if i == 8 {
        ("java/lang/Runtime"@, "availableProcessors()I"@)
    } else if i == 9 {
        ("java/lang/Runtime"@, "freeMemory()J"@)
    } else if i == 10 {
        ("java/lang/Runtime"@, "totalMemory()J"@)
    } else if i == 11 {
        ("java/lang/Runtime"@, "maxMemory()J"@)
    } else if i == 12 {
        ("java/lang/Runtime"@, "gc()V"@)
    } else if i == 13 {
        ("java/lang/System"@, "registerNatives()V"@)
    } else if i == 14 {
        ("java/io/FileInputStream"@, "open0(Ljava/lang/String;)V"@)
    } else if i == 15 {
        ("java/io/FileInputStream"@, "read0()I"@)
    } else if i == 16 {
        ("java/io/FileInputStream"@, "readBytes([BII)I"@)
    } else if i == 17 {
        ("java/io/FileInputStream"@, "length0()J"@)
    } else if i == 18 {
        ("java/io/FileInputStream"@, "position0()J"@)
    } else if i == 19 {
        ("java/io/FileInputStream"@, "skip0()J"@)
    } else if i == 20 {
        ("java/io/FileInputStream"@, "available0()I"@)
    } else if i == 21 {
        ("java/io/FileInputStream"@, "isRegularFile0(Ljava/io/FileDescriptor;)Z"@)
    } else if i == 22 {
        ("java/io/FileInputStream"@, "initIDs()V"@)
    } else if i == 23 {
        ("jdk/internal/util/SystemProps$Raw"@, "platformProperties()[Ljava/lang/String;"@)
    } else if i == 24 {
        ("jdk/internal/util/SystemProps$Raw"@, "vmProperties()[Ljava/lang/String;"@)
    } else if i == 25 {
        ("jdk/internal/misc/Unsafe"@, "registerNatives()V"@)
    } else {
        ("jdk/internal/misc/VM"@, "initialize()V"@)
    }
}

/// The keys of a sequence of (class, method) pairs.
pub open spec fn key_views(keys: Seq<(&str, &str)>) -> Seq<(Seq<char>, Seq<char>)> {
    keys.map_values(|k: (&str, &str)| (k.0@, k.1@))
}

/// The (class, method with descriptor) keys of the native methods that a
/// fresh registry of the virtual machine holds, in the order they are
/// registered.
pub fn initial_native_keys() -> (keys: Vec<(&'static str, &'static str)>)
    ensures
        key_views(keys@) == initial_native_key_views(),
{
    let mut keys: Vec<(&'static str, &'static str)> = Vec::new();
    keys.push(("java/lang/Object", "getClass()Ljava/lang/Class;"));
    keys.push(("java/lang/Object", "hashCode()I"));
    keys.push(("java/lang/Class", "registerNatives()V"));
    keys.push(("java/lang/StringUTF16", "isBigEndian()Z"));
    keys.push(("java/lang/Float", "floatToRawIntBits(F)I"));
    keys.push(("java/lang/Double", "doubleToRawLongBits(D)J"));
    keys.push(("java/lang/Double", "longBitsToDouble(J)D"));
    keys.push(("java/lang/Throwable", "fillInStackTrace(I)Ljava/lang/Throwable;"));
    keys.push(("java/lang/Runtime", "availableProcessors()I"));
    keys.push(("java/lang/Runtime", "freeMemory()J"));
    keys.push(("java/lang/Runtime", "totalMemory()J"));
    keys.push(("java/lang/Runtime", "maxMemory()J"));
    keys.push(("java/lang/Runtime", "gc()V"));
    keys.push(("java/lang/System", "registerNatives()V"));
    keys.push(("java/io/FileInputStream", "open0(Ljava/lang/String;)V"));
    keys.push(("java/io/FileInputStream", "read0()I"));
    keys.push(("java/io/FileInputStream", "readBytes([BII)I"));
    keys.push(("java/io/FileInputStream", "length0()J"));
    keys.push(("java/io/FileInputStream", "position0()J"));
    keys.push(("java/io/FileInputStream", "skip0()J"));
    keys.push(("java/io/FileInputStream", "available0()I"));
    keys.push(("java/io/FileInputStream", "isRegularFile0(Ljava/io/FileDescriptor;)Z"));
    keys.push(("java/io/FileInputStream", "initIDs()V"));
    keys.push(("jdk/internal/util/SystemProps$Raw", "platformProperties()[Ljava/lang/String;"));
    keys.push(("jdk/internal/util/SystemProps$Raw", "vmProperties()[Ljava/lang/String;"));
    keys.push(("jdk/internal/misc/Unsafe", "registerNatives()V"));
    keys.push(("jdk/internal/misc/VM", "initialize()V"));
    assert(key_views(keys@) =~= initial_native_key_views());
    keys
}

/// The table a fresh registry of the virtual machine is made from: each key
/// of [`initial_native_keys`] with the implementation at the same index of
/// `methods`.
pub fn initial_natives<M: Copy>(methods: &[M]) -> (table: Vec<(&'static str, &'static str, M)>)
    requires
        methods@.len() == NUM_INITIAL_NATIVES,
    ensures
        table@.len() == NUM_INITIAL_NATIVES,
        forall|i: int|
            0 <= i < NUM_INITIAL_NATIVES ==> (#[trigger] table@[i]).0@ == initial_native_key_views()[i].0
                && table@[i].1@ == initial_native_key_views()[i].1 && table@[i].2 == methods@[i],
{
    let keys = initial_native_keys();
    let mut table: Vec<(&'static str, &'static str, M)> = Vec::new();
    let mut i: usize = 0;
    assert(keys@.len() == key_views(keys@).len());
    while i < keys.len()
        invariant
            key_views(keys@) == initial_native_key_views(),
            keys@.len() == NUM_INITIAL_NATIVES,
            methods@.len() == NUM_INITIAL_NATIVES,
            i <= keys@.len(),
            table@.len() == i,
            forall|j: int|
                0 <= j < i ==> (#[trigger] table@[j]).0@ == initial_native_key_views()[j].0
                    && table@[j].1@ == initial_native_key_views()[j].1 && table@[j].2 == methods@[j],
        decreases keys@.len() - i,
    {
        let (class, name) = keys[i];
        proof {
            assert(key_views(keys@)[i as int] == (keys@[i as int].0@, keys@[i as int].1@));
        }
        table.push((class, name, methods[i]));
        i += 1;
    }
    table
}

/// A number that tells the initial keys apart: the lengths of the class
/// and the method, and the method's first character.
spec fn key_fingerprint(k: (Seq<char>, Seq<char>)) -> int {
    k.0.len() * 100000 + k.1.len() * 1000 + (k.1[0] as u32) as int
}

/// The fingerprint of the initial key at index `i`.
spec fn initial_fingerprint(i: int) -> int {
    if i == 0 {
        1627103
    } else if i == 1 {
        1611104
    } else if i == 2 {
        1518114
    } else if i == 3 {
        2114105
    } else if i == 4 {
        1521102
    } else if i == 5 {
        1623100
    } else if i == 6 {
        1620108
    } else if i == 7 {
        1940102
    } else if i == 8 {
        1722097
    } else if i == 9 {
        1713102
    } else if i == 10 {
        1714116
    } else if i == 11 {
        1712109
    } else if i == 12 {
        1705103
    } else if i == 13 {
        1618114
    } else if i == 14 {
        2326111
    } else if i == 15 {
        2308114
    } else if i == 16 {
        2316114
    } else if i == 17 {
        2310108
    } else if i == 18 {
        2312112
    } else if i == 19 {
        2308115
    } else if i == 20 {
        2313097
    } else if i == 21 {
        2341105
    } else if i == 22 {
        2310105
    } else if i == 23 {
        3339112
    } else if i == 24 {
        3333118
    } else if i == 25 {
        2418114
    } else {
        2013105
    }
}

/// Each initial key has the fingerprint listed for its index.
proof fn lemma_initial_fingerprints()
    ensures
        forall|i: int| 0 <= i < 27 ==> key_fingerprint(#[trigger] initial_native_key(i)) == initial_fingerprint(i),
{
    reveal_strlit("available0()I");
    reveal_strlit("availableProcessors()I");
    reveal_strlit("doubleToRawLongBits(D)J");
    reveal_strlit("fillInStackTrace(I)Ljava/lang/Throwable;");
    reveal_strlit("floatToRawIntBits(F)I");
    reveal_strlit("freeMemory()J");
    reveal_strlit("gc()V");
    reveal_strlit("getClass()Ljava/lang/Class;");
    reveal_strlit("hashCode()I");
    reveal_strlit("initIDs()V");
    reveal_strlit("initialize()V");
    reveal_strlit("isBigEndian()Z");
    reveal_strlit("isRegularFile0(Ljava/io/FileDescriptor;)Z");
    reveal_strlit("java/io/FileInputStream");
    reveal_strlit("java/lang/Class");
    reveal_strlit("java/lang/Double");
    reveal_strlit("java/lang/Float");
    reveal_strlit("java/lang/Object");
    reveal_strlit("java/lang/Runtime");
    reveal_strlit("java/lang/StringUTF16");
    reveal_strlit("java/lang/System");
    reveal_strlit("java/lang/Throwable");
    reveal_strlit("jdk/internal/misc/Unsafe");
    reveal_strlit("jdk/internal/misc/VM");
    reveal_strlit("jdk/internal/util/SystemProps$Raw");
    reveal_strlit("length0()J");
    reveal_strlit("longBitsToDouble(J)D");
    reveal_strlit("maxMemory()J");
    reveal_strlit("open0(Ljava/lang/String;)V");
    reveal_strlit("platformProperties()[Ljava/lang/String;");
    reveal_strlit("position0()J");
    reveal_strlit("read0()I");
    reveal_strlit("readBytes([BII)I");
    reveal_strlit("registerNatives()V");
    reveal_strlit("skip0()J");
    reveal_strlit("totalMemory()J");
    reveal_strlit("vmProperties()[Ljava/lang/String;");
}

/// The keys of the initial natives are pairwise distinct.
proof fn lemma_initial_keys_distinct()
    ensures
        forall|i: int, j: int|
            0 <= i < j < NUM_INITIAL_NATIVES ==> (#[trigger] initial_native_key_views()[i])
                != (#[trigger] initial_native_key_views()[j]),
{
    lemma_initial_fingerprints();
    assert forall|i: int, j: int|
        0 <= i < j < NUM_INITIAL_NATIVES implies (#[trigger] initial_native_key_views()[i])
            != (#[trigger] initial_native_key_views()[j]) by {
        assert(key_fingerprint(initial_native_key(i)) == initial_fingerprint(i));
        assert(key_fingerprint(initial_native_key(j)) == initial_fingerprint(j));
        assert(initial_fingerprint(i) != initial_fingerprint(j));
    }
}

/// With pairwise distinct keys, each key's last registration is its only one,
/// and a key no registration names has none.
proof fn lemma_last_registration_distinct<M>(ops: Seq<((Seq<char>, Seq<char>), M)>, k: (Seq<char>, Seq<char>))
    requires
        forall|i: int, j: int| 0 <= i < j < ops.len() ==> (#[trigger] ops[i]).0 != (#[trigger] ops[j]).0,
    ensures
        forall|i: int| 0 <= i < ops.len() && (#[trigger] ops[i]).0 == k ==> last_registration(ops, k) == Some(ops[i].1),
        (forall|i: int| 0 <= i < ops.len() ==> (#[trigger] ops[i]).0 != k) ==> last_registration(ops, k) is None,
    decreases ops.len(),
{
    if ops.len() > 0 {
        let init = ops.drop_last();
        assert forall|i: int, j: int| 0 <= i < j < init.len() implies (#[trigger] init[i]).0 != (#[trigger] init[j]).0 by {
            assert(init[i] == ops[i]);
            assert(init[j] == ops[j]);
        }
        lemma_last_registration_distinct(init, k);
        assert forall|i: int| 0 <= i < ops.len() && (#[trigger] ops[i]).0 == k implies last_registration(ops, k) == Some(ops[i].1) by {
            if i < ops.len() - 1 {
                assert(init[i] == ops[i]);
                assert(ops[i].0 != ops[ops.len() - 1].0);
            }
        }
        if forall|i: int| 0 <= i < ops.len() ==> (#[trigger] ops[i]).0 != k {
            assert forall|i: int| 0 <= i < init.len() implies (#[trigger] init[i]).0 != k by {
                assert(init[i] == ops[i]);
            }
            assert(ops[ops.len() - 1].0 != k);
        }
    }
}

/// A registry made by [`NativeRegistry::new`] from a table with the keys of
/// [`initial_native_keys`] (such as the one [`initial_natives`] builds) holds
/// exactly those keys, each with the implementation the table gives it.
pub proof fn lemma_fresh_registry<M>(table: Seq<(&str, &str, M)>)
    requires
        table.len() == NUM_INITIAL_NATIVES,
        forall|i: int|
            0 <= i < NUM_INITIAL_NATIVES ==> (#[trigger] table[i]).0@ == initial_native_key_views()[i].0
                && table[i].1@ == initial_native_key_views()[i].1,
    ensures
        forall|k: (Seq<char>, Seq<char>)|
            #[trigger] registered_all(Map::empty(), table).contains_key(k)
                <==> initial_native_key_views().contains(k),
        forall|i: int|
            0 <= i < NUM_INITIAL_NATIVES ==> registered_all(Map::empty(), table)[initial_native_key_views()[i]]
                == (#[trigger] table[i]).2,
{
    let ops = initial_registrations(table);
    lemma_initial_keys_distinct();
    assert forall|i: int| 0 <= i < ops.len() implies (#[trigger] ops[i]).0 == initial_native_key_views()[i] by {
        assert(table[i].0@ == initial_native_key_views()[i].0);
    }
    assert forall|i: int, j: int| 0 <= i < j < ops.len() implies (#[trigger] ops[i]).0 != (#[trigger] ops[j]).0 by {
        assert(ops[i].0 == initial_native_key_views()[i]);
        assert(ops[j].0 == initial_native_key_views()[j]);
    }
    lemma_initial_in_order(Map::empty(), table);
    assert forall|k: (Seq<char>, Seq<char>)|
        #[trigger] registered_all(Map::empty(), table).contains_key(k)
            <==> initial_native_key_views().contains(k) by {
        lemma_last_registration(ops, k);
        lemma_last_registration_distinct(ops, k);
        if initial_native_key_views().contains(k) {
            let i = choose|i: int| 0 <= i < initial_native_key_views().len() && initial_native_key_views()[i] == k;
            assert(ops[i].0 == k);
        } else {
            assert forall|i: int| 0 <= i < ops.len() implies (#[trigger] ops[i]).0 != k by {
                assert(ops[i].0 == initial_native_key_views()[i]);
            }
        }
    }
    assert forall|i: int|
        0 <= i < NUM_INITIAL_NATIVES implies registered_all(Map::empty(), table)[initial_native_key_views()[i]]
            == (#[trigger] table[i]).2 by {
        let k = initial_native_key_views()[i];
        lemma_last_registration(ops, k);
        lemma_last_registration_distinct(ops, k);
        assert(ops[i].0 == k);
    }
}
} // verus!
