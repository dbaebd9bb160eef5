use sumatra_parser::registry::{
    initial_native_keys, initial_natives, register_natives, NativeIdentifier, NativeRegistry, RegistryError,
    NUM_INITIAL_NATIVES,
};

fn id(class: &str, name: &str) -> NativeIdentifier {
    NativeIdentifier::new(class.to_string(), name.to_string())
}

#[test]
fn new_registers_the_initial_methods() {
    let initial = [
        ("java/lang/Object", "registerNatives()V", 1u32),
        ("java/lang/System", "registerNatives()V", 2u32),
    ];
    let r = NativeRegistry::new(&initial);
    assert_eq!(r.get(&id("java/lang/Object", "registerNatives()V")), Ok(1));
    assert_eq!(r.get(&id("java/lang/System", "registerNatives()V")), Ok(2));
    assert_eq!(r.get(&id("java/lang/Class", "registerNatives()V")), Err(RegistryError::Unregistered));
}

#[test]
fn register_replaces_and_keeps_others() {
    let mut r: NativeRegistry<u32> = NativeRegistry::new(&[]);
    r.register(id("A", "f()V"), 1);
    r.register(id("A", "g()V"), 2);
    r.register(id("A", "f()V"), 3);
    assert_eq!(r.get(&id("A", "f()V")), Ok(3));
    assert_eq!(r.get(&id("A", "g()V")), Ok(2));
    assert_eq!(r.get(&id("B", "f()V")), Err(RegistryError::Unregistered));
}

#[test]
fn later_initial_entry_wins() {
    let initial = [("C", "m()I", 1u8), ("C", "m()I", 9u8)];
    let r = NativeRegistry::new(&initial);
    assert_eq!(r.get(&id("C", "m()I")), Ok(9));
}

#[test]
fn register_natives_of_a_class() {
    let mut r: NativeRegistry<u32> = NativeRegistry::new(&[]);
    register_natives(&mut r, "java/lang/Runtime", &[("gc()V", 5), ("freeMemory()J", 6)]);
    assert_eq!(r.get(&id("java/lang/Runtime", "gc()V")), Ok(5));
    assert_eq!(r.get(&id("java/lang/Runtime", "freeMemory()J")), Ok(6));
    assert_eq!(r.get(&id("java/lang/Object", "gc()V")), Err(RegistryError::Unregistered));
}

#[test]
fn get_gives_the_last_registration() {
    let initial = [("java/lang/Object", "registerNatives()V", 1u32)];
    let mut r = NativeRegistry::new(&initial);
    r.register(id("java/lang/Object", "registerNatives()V"), 2);
    r.register(id("java/lang/Object", "hashCode()I"), 3);
    r.register(id("java/lang/Object", "registerNatives()V"), 4);
    assert_eq!(r.get(&id("java/lang/Object", "registerNatives()V")), Ok(4));
    assert_eq!(r.get(&id("java/lang/Object", "hashCode()I")), Ok(3));
    assert_eq!(r.get(&id("java/lang/Object", "clone()Ljava/lang/Object;")), Err(RegistryError::Unregistered));
}

#[test]
fn fresh_registry_holds_the_initial_natives() {
    let keys = initial_native_keys();
    assert_eq!(keys.len(), NUM_INITIAL_NATIVES);
    assert_eq!(keys[0], ("java/lang/Object", "getClass()Ljava/lang/Class;"));
    assert_eq!(keys[1], ("java/lang/Object", "hashCode()I"));
    assert_eq!(keys[26], ("jdk/internal/misc/VM", "initialize()V"));
    let methods: Vec<usize> = (0..NUM_INITIAL_NATIVES).collect();
    let table = initial_natives(&methods);
    let r = NativeRegistry::new(&table);
    for (i, (class, name)) in keys.iter().enumerate() {
        assert_eq!(r.get(&id(class, name)), Ok(i));
    }
    assert_eq!(r.get(&id("java/lang/Object", "hashCode()I")), Ok(1));
    assert_eq!(r.get(&id("java/lang/Object", "toString()Ljava/lang/String;")), Err(RegistryError::Unregistered));
}
