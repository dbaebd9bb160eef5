use sumatra_parser::system_props::{
    is_primitive, platform_properties, vm_properties, JAVA_HOME_NDX, LINE_SEPARATOR_NDX,
    NUM_PLATFORM_PROPS, NUM_VM_PROPS, OS_NAME_NDX, PLATFORM_PROPS_SIG, SOCKS_PROXY_HOST_NDX,
    USER_NAME_NDX, VM_PROPS_SIG,
};

#[test]
fn platform_properties_by_index() {
    let props = platform_properties();
    assert_eq!(props.len(), NUM_PLATFORM_PROPS);
    assert_eq!(props.len(), 40);
    assert_eq!(props[0], "US");
    assert_eq!(props[OS_NAME_NDX], "Linux");
    assert_eq!(props[LINE_SEPARATOR_NDX], "\n");
    assert_eq!(props[USER_NAME_NDX], "dylan");
}

#[test]
fn vm_properties_are_key_value_pairs() {
    let props = vm_properties();
    assert_eq!(props.len(), NUM_VM_PROPS * 2);
    assert_eq!(props[0], "display.country");
    assert_eq!(props[1], "US");
    assert_eq!(props[OS_NAME_NDX * 2], "os.name");
    assert_eq!(props[OS_NAME_NDX * 2 + 1], "Linux");
    assert_eq!(props[JAVA_HOME_NDX * 2], "java.home");
    assert_eq!(props[JAVA_HOME_NDX * 2 + 1], "");
}

#[test]
fn vm_properties_socks_entries_hold_the_name_as_value() {
    let props = vm_properties();
    assert_eq!(props[SOCKS_PROXY_HOST_NDX * 2], "");
    assert_eq!(props[SOCKS_PROXY_HOST_NDX * 2 + 1], "socks.proxy.host");
}

#[test]
fn property_method_descriptors() {
    assert_eq!(PLATFORM_PROPS_SIG, "platformProperties()[Ljava/lang/String;");
    assert_eq!(VM_PROPS_SIG, "vmProperties()[Ljava/lang/String;");
}

#[test]
fn primitive_names() {
    for name in ["boolean", "byte", "char", "double", "float", "int", "long", "short"] {
        assert_eq!(is_primitive(name), 1, "{}", name);
    }
    assert_eq!(is_primitive("void"), 0);
    assert_eq!(is_primitive("java/lang/Integer"), 0);
    assert_eq!(is_primitive(""), 0);
    assert_eq!(is_primitive("Int"), 0);
}
