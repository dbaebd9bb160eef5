//! The system properties the virtual machine reports to
//! `jdk.internal.util.SystemProps.Raw`: the platform properties, by their
//! fixed index, and the virtual machine properties, as key and value pairs.
use vstd::prelude::*;

verus! {
pub const DISPLAY_COUNTRY_NDX: usize = 0;
pub const DISPLAY_LANGUAGE_NDX: usize = DISPLAY_COUNTRY_NDX + 1;
pub const DISPLAY_SCRIPT_NDX: usize = DISPLAY_LANGUAGE_NDX + 1;
pub const DISPLAY_VARIANT_NDX: usize = DISPLAY_SCRIPT_NDX + 1;
pub const FILE_ENCODING_NDX: usize = DISPLAY_VARIANT_NDX + 1;
pub const FILE_SEPARATOR_NDX: usize = FILE_ENCODING_NDX + 1;
pub const FORMAT_COUNTRY_NDX: usize = FILE_SEPARATOR_NDX + 1;
pub const FORMAT_LANGUAGE_NDX: usize = FORMAT_COUNTRY_NDX + 1;
pub const FORMAT_SCRIPT_NDX: usize = FORMAT_LANGUAGE_NDX + 1;
pub const FORMAT_VARIANT_NDX: usize = FORMAT_SCRIPT_NDX + 1;
pub const FTP_NON_PROXY_HOSTS_NDX: usize = FORMAT_VARIANT_NDX + 1;
pub const FTP_PROXY_HOST_NDX: usize = FTP_NON_PROXY_HOSTS_NDX + 1;
pub const FTP_PROXY_PORT_NDX: usize = FTP_PROXY_HOST_NDX + 1;
pub const HTTP_NON_PROXY_HOSTS_NDX: usize = FTP_PROXY_PORT_NDX + 1;
pub const HTTP_PROXY_HOST_NDX: usize = HTTP_NON_PROXY_HOSTS_NDX + 1;
pub const HTTP_PROXY_PORT_NDX: usize = HTTP_PROXY_HOST_NDX + 1;
pub const HTTPS_PROXY_HOST_NDX: usize = HTTP_PROXY_PORT_NDX + 1;
pub const HTTPS_PROXY_PORT_NDX: usize = HTTPS_PROXY_HOST_NDX + 1;
pub const JAVA_IO_TMPDIR_NDX: usize = HTTPS_PROXY_PORT_NDX + 1;
pub const LINE_SEPARATOR_NDX: usize = JAVA_IO_TMPDIR_NDX + 1;
pub const OS_ARCH_NDX: usize = LINE_SEPARATOR_NDX + 1;
pub const OS_NAME_NDX: usize = OS_ARCH_NDX + 1;
pub const OS_VERSION_NDX: usize = OS_NAME_NDX + 1;
pub const PATH_SEPARATOR_NDX: usize = OS_VERSION_NDX + 1;
pub const SOCKS_NON_PROXY_HOSTS_NDX: usize = PATH_SEPARATOR_NDX + 1;
pub const SOCKS_PROXY_HOST_NDX: usize = SOCKS_NON_PROXY_HOSTS_NDX + 1;
pub const SOCKS_PROXY_PORT_NDX: usize = SOCKS_PROXY_HOST_NDX + 1;
pub const STDERR_ENCODING_NDX: usize = SOCKS_PROXY_PORT_NDX + 1;
pub const STDOUT_ENCODING_NDX: usize = STDERR_ENCODING_NDX + 1;
pub const SUN_ARCH_ABI_NDX: usize = STDOUT_ENCODING_NDX + 1;
pub const SUN_ARCH_DATA_MODEL_NDX: usize = SUN_ARCH_ABI_NDX + 1;
pub const SUN_CPU_ENDIAN_NDX: usize = SUN_ARCH_DATA_MODEL_NDX + 1;
pub const SUN_CPU_ISALIST_NDX: usize = SUN_CPU_ENDIAN_NDX + 1;
pub const SUN_IO_UNICODE_ENCODING_NDX: usize = SUN_CPU_ISALIST_NDX + 1;
pub const SUN_JNU_ENCODING_NDX: usize = SUN_IO_UNICODE_ENCODING_NDX + 1;
pub const SUN_OS_PATCH_LEVEL_NDX: usize = SUN_JNU_ENCODING_NDX + 1;
pub const USER_DIR_NDX: usize = SUN_OS_PATCH_LEVEL_NDX + 1;
pub const USER_HOME_NDX: usize = USER_DIR_NDX + 1;
pub const USER_NAME_NDX: usize = USER_HOME_NDX + 1;
pub const JAVA_HOME_NDX: usize = USER_NAME_NDX + 1;

/// The number of platform properties.
pub const NUM_PLATFORM_PROPS: usize = 40;

/// The number of virtual machine properties: the platform ones and
/// `java.home`.
pub const NUM_VM_PROPS: usize = NUM_PLATFORM_PROPS + 1;

/// The descriptor of `SystemProps.Raw.platformProperties`.
pub const PLATFORM_PROPS_SIG: &'static str = "platformProperties()[Ljava/lang/String;";

/// The descriptor of `SystemProps.Raw.vmProperties`.
pub const VM_PROPS_SIG: &'static str = "vmProperties()[Ljava/lang/String;";

/// The platform property at index `i`.
pub open spec fn platform_property(i: int) -> Seq<char> {
    if i == DISPLAY_COUNTRY_NDX {
        "US"@
    } else if i == DISPLAY_LANGUAGE_NDX {
        "English"@
    } else if i == DISPLAY_SCRIPT_NDX {
        "Latn"@
    } else if i == DISPLAY_VARIANT_NDX {
        ""@
    } else if i == FILE_ENCODING_NDX {
        "UTF-8"@
    } else if i == FILE_SEPARATOR_NDX {
        "/"@
    } else if i == FORMAT_COUNTRY_NDX {
        "US"@
    } else if i == FORMAT_LANGUAGE_NDX {
        "en_US"@
    } else if i == FORMAT_SCRIPT_NDX {
        "Latin"@
    } else if i == FORMAT_VARIANT_NDX {
        ""@
    } else if i == FTP_NON_PROXY_HOSTS_NDX {
        ""@
    } else if i == FTP_PROXY_HOST_NDX {
        ""@
    } else if i == FTP_PROXY_PORT_NDX {
        ""@
    } else if i == HTTP_NON_PROXY_HOSTS_NDX {
        ""@
    } else if i == HTTP_PROXY_HOST_NDX {
        ""@
    } else if i == HTTP_PROXY_PORT_NDX {
        ""@
    } else if i == HTTPS_PROXY_HOST_NDX {
        ""@
    } else if i == HTTPS_PROXY_PORT_NDX {
        ""@
    } else if i == JAVA_IO_TMPDIR_NDX {
        "/tmp"@
    } else if i == LINE_SEPARATOR_NDX {
        "\n"@
    } else if i == OS_ARCH_NDX {
        "x86_64"@
    } else if i == OS_NAME_NDX {
        "Linux"@
    } else if i == OS_VERSION_NDX {
        "5.15"@
    } else if i == PATH_SEPARATOR_NDX {
        ":"@
    } else if i == SOCKS_NON_PROXY_HOSTS_NDX {
        ""@
    } else if i == SOCKS_PROXY_HOST_NDX {
        ""@
    } else if i == SOCKS_PROXY_PORT_NDX {
        ""@
    } else if i == STDERR_ENCODING_NDX {
        "UTF-8"@
    } else if i == STDOUT_ENCODING_NDX {
        "UTF-8"@
    } else if i == SUN_ARCH_ABI_NDX {
        ""@
    } else if i == SUN_ARCH_DATA_MODEL_NDX {
        "64"@
    } else if i == SUN_CPU_ENDIAN_NDX {
        "little"@
    } else if i == SUN_CPU_ISALIST_NDX {
        "x86_64"@
    } else if i == SUN_IO_UNICODE_ENCODING_NDX {
        ""@
    } else if i == SUN_JNU_ENCODING_NDX {
        "UTF-8"@
    } else if i == SUN_OS_PATCH_LEVEL_NDX {
        ""@
    } else if i == USER_DIR_NDX {
        "/home/dylan"@
    } else if i == USER_HOME_NDX {
        "/home/dylan"@
    } else if i == USER_NAME_NDX {
        "dylan"@
    } else {
        Seq::empty()
    }
}

/// The entry at index `i` of the virtual machine properties: keys at even
/// indices, each followed by its value.
pub open spec fn vm_property(i: int) -> Seq<char> {
    if i == DISPLAY_COUNTRY_NDX * 2 {
        "display.country"@
    } else if i == DISPLAY_COUNTRY_NDX * 2 + 1 {
        "US"@
    } else if i == DISPLAY_LANGUAGE_NDX * 2 {
        "display.language"@
    } else if i == DISPLAY_LANGUAGE_NDX * 2 + 1 {
        "English"@
    } else if i == DISPLAY_SCRIPT_NDX * 2 {
        "display.script"@
    } else if i == DISPLAY_SCRIPT_NDX * 2 + 1 {
        "Latn"@
    } else if i == DISPLAY_VARIANT_NDX * 2 {
        "display.variant"@
    } else if i == DISPLAY_VARIANT_NDX * 2 + 1 {
        ""@
    } else if i == FILE_ENCODING_NDX * 2 {
        "file.encoding"@
    } else if i == FILE_ENCODING_NDX * 2 + 1 {
        "UTF-8"@
    } else if i == FILE_SEPARATOR_NDX * 2 {
        "file.separator"@
    } else if i == FILE_SEPARATOR_NDX * 2 + 1 {
        "/"@
    } else if i == FORMAT_COUNTRY_NDX * 2 {
        "format.country"@
    } else if i == FORMAT_COUNTRY_NDX * 2 + 1 {
        "US"@
    } else if i == FORMAT_LANGUAGE_NDX * 2 {
        "format.language"@
    } else if i == FORMAT_LANGUAGE_NDX * 2 + 1 {
        "en_US"@
    } else if i == FORMAT_SCRIPT_NDX * 2 {
        "format.script"@
    } else if i == FORMAT_SCRIPT_NDX * 2 + 1 {
        "Latin"@
    } else if i == FORMAT_VARIANT_NDX * 2 {
        "format.variant"@
    } else if i == FORMAT_VARIANT_NDX * 2 + 1 {
        ""@
    } else if i == FTP_NON_PROXY_HOSTS_NDX * 2 {
        "ftp.nonproxy.hosts"@
    } else if i == FTP_NON_PROXY_HOSTS_NDX * 2 + 1 {
        ""@
    } else if i == FTP_PROXY_HOST_NDX * 2 {
        "ftp.proxy.host"@
    } else if i == FTP_PROXY_HOST_NDX * 2 + 1 {
        ""@
    } else if i == FTP_PROXY_PORT_NDX * 2 {
        "ftp.proxy.port"@
    } else if i == FTP_PROXY_PORT_NDX * 2 + 1 {
        ""@
    } else if i == HTTP_NON_PROXY_HOSTS_NDX * 2 {
        "http.nonproxy.hosts"@
    } else if i == HTTP_NON_PROXY_HOSTS_NDX * 2 + 1 {
        ""@
    } else if i == HTTP_PROXY_HOST_NDX * 2 {
        "http.proxy.host"@
    } else if i == HTTP_PROXY_HOST_NDX * 2 + 1 {
        ""@
    } else if i == HTTP_PROXY_PORT_NDX * 2 {
        "http.proxy.port"@
    } else if i == HTTP_PROXY_PORT_NDX * 2 + 1 {
        ""@
    } else if i == HTTPS_PROXY_HOST_NDX * 2 {
        "https.proxy.host"@
    } else if i == HTTPS_PROXY_HOST_NDX * 2 + 1 {
        ""@
    } else if i == HTTPS_PROXY_PORT_NDX * 2 {
        "http.proxy.port"@
    } else if i == HTTPS_PROXY_PORT_NDX * 2 + 1 {
        ""@
    } else if i == JAVA_IO_TMPDIR_NDX * 2 {
        "java.io.tmpdir"@
    } else if i == JAVA_IO_TMPDIR_NDX * 2 + 1 {
        "/tmp"@
    } else if i == LINE_SEPARATOR_NDX * 2 {
        "line.separator"@
    } else if i == LINE_SEPARATOR_NDX * 2 + 1 {
        "\n"@
    } else if i == OS_ARCH_NDX * 2 {
        "os.arch"@
    } else if i == OS_ARCH_NDX * 2 + 1 {
        "x86_64"@
    } else if i == OS_NAME_NDX * 2 {
        "os.name"@
    } else if i == OS_NAME_NDX * 2 + 1 {
        "Linux"@
    } else if i == OS_VERSION_NDX * 2 {
        "os.version"@
    } else if i == OS_VERSION_NDX * 2 + 1 {
        "5.15"@
    } else if i == PATH_SEPARATOR_NDX * 2 {
        "path.separator"@
    } else if i == PATH_SEPARATOR_NDX * 2 + 1 {
        ":"@
    } else if i == SOCKS_NON_PROXY_HOSTS_NDX * 2 {
        "socks.nonproxy.hosts"@
    } else if i == SOCKS_NON_PROXY_HOSTS_NDX * 2 + 1 {
        ""@
    } else if i == SOCKS_PROXY_HOST_NDX * 2 {
        ""@
    } else if i == SOCKS_PROXY_HOST_NDX * 2 + 1 {
        "socks.proxy.host"@
    } else if i == SOCKS_PROXY_PORT_NDX * 2 {
        ""@
    } else if i == SOCKS_PROXY_PORT_NDX * 2 + 1 {
        "socks.proxy.port"@
    } else if i == STDERR_ENCODING_NDX * 2 {
        "stderr.encoding"@
    } else if i == STDERR_ENCODING_NDX * 2 + 1 {
        "UTF-8"@
    } else if i == STDOUT_ENCODING_NDX * 2 {
        "std.encoding"@
    } else if i == STDOUT_ENCODING_NDX * 2 + 1 {
        "UTF-8"@
    } else if i == SUN_ARCH_ABI_NDX * 2 {
        "sun.arch.abi"@
    } else if i == SUN_ARCH_ABI_NDX * 2 + 1 {
        ""@
    } else if i == SUN_ARCH_DATA_MODEL_NDX * 2 {
        "sun.arch.data.model"@
    } else if i == SUN_ARCH_DATA_MODEL_NDX * 2 + 1 {
        "64"@
    } else if i == SUN_CPU_ENDIAN_NDX * 2 {
        "sun.cpu.endian"@
    } else if i == SUN_CPU_ENDIAN_NDX * 2 + 1 {
        "little"@
    } else if i == SUN_CPU_ISALIST_NDX * 2 {
        "sun.cpu.isalist"@
    } else if i == SUN_CPU_ISALIST_NDX * 2 + 1 {
        "x86_64"@
    } else if i == SUN_IO_UNICODE_ENCODING_NDX * 2 {
        "sun.io.unicode.encoding"@
    } else if i == SUN_IO_UNICODE_ENCODING_NDX * 2 + 1 {
        ""@
    } else if i == SUN_JNU_ENCODING_NDX * 2 {
        "sun.jnu.encoding"@
    } else if i == SUN_JNU_ENCODING_NDX * 2 + 1 {
        "UTF-8"@
    } else if i == SUN_OS_PATCH_LEVEL_NDX * 2 {
        "sun.os.patch.level"@
    } else if i == SUN_OS_PATCH_LEVEL_NDX * 2 + 1 {
        ""@
    } else if i == USER_DIR_NDX * 2 {
        "user.dir"@
    } else if i == USER_DIR_NDX * 2 + 1 {
        "/home/dylan"@
    } else if i == USER_HOME_NDX * 2 {
        "user.home"@
    } else if i == USER_HOME_NDX * 2 + 1 {
        "/home/dylan"@
    } else if i == USER_NAME_NDX * 2 {
        "user.name"@
    } else if i == USER_NAME_NDX * 2 + 1 {
        "dylan"@
    } else if i == JAVA_HOME_NDX * 2 {
        "java.home"@
    } else if i == JAVA_HOME_NDX * 2 + 1 {
        ""@
    } else {
        Seq::empty()
    }
}

/// The platform properties, each at its index.
#[verifier::rlimit(60)]
pub fn platform_properties() -> (props: Vec<String>)
    ensures
        props@.len() == NUM_PLATFORM_PROPS,
        forall|i: int| 0 <= i < props@.len() ==> #[trigger] props@[i]@ == platform_property(i),
{
    let mut props: Vec<String> = Vec::new();
    let mut k: usize = 0;
    while k < NUM_PLATFORM_PROPS
        invariant
            k <= NUM_PLATFORM_PROPS,
            props@.len() == k,
            forall|i: int| 0 <= i < k ==> #[trigger] props@[i]@ == Seq::<char>::empty(),
        decreases NUM_PLATFORM_PROPS - k,
    {
        props.push(String::new());
        k += 1;
    }
    props.set(DISPLAY_COUNTRY_NDX, "US".to_string());
    props.set(DISPLAY_LANGUAGE_NDX, "English".to_string());
    props.set(DISPLAY_SCRIPT_NDX, "Latn".to_string());
    props.set(DISPLAY_VARIANT_NDX, "".to_string());
    props.set(FILE_ENCODING_NDX, "UTF-8".to_string());
    props.set(FILE_SEPARATOR_NDX, "/".to_string());
    props.set(FORMAT_COUNTRY_NDX, "US".to_string());
    props.set(FORMAT_LANGUAGE_NDX, "en_US".to_string());
    props.set(FORMAT_SCRIPT_NDX, "Latin".to_string());
    props.set(FORMAT_VARIANT_NDX, "".to_string());
    props.set(FTP_NON_PROXY_HOSTS_NDX, "".to_string());
    props.set(FTP_PROXY_HOST_NDX, "".to_string());
    props.set(FTP_PROXY_PORT_NDX, "".to_string());
    props.set(HTTP_NON_PROXY_HOSTS_NDX, "".to_string());
    props.set(HTTP_PROXY_HOST_NDX, "".to_string());
    props.set(HTTP_PROXY_PORT_NDX, "".to_string());
    props.set(HTTPS_PROXY_HOST_NDX, "".to_string());
    props.set(HTTPS_PROXY_PORT_NDX, "".to_string());
    props.set(JAVA_IO_TMPDIR_NDX, "/tmp".to_string());
    props.set(LINE_SEPARATOR_NDX, "\n".to_string());
    props.set(PATH_SEPARATOR_NDX, ":".to_string());
    props.set(OS_ARCH_NDX, "x86_64".to_string());
    props.set(OS_NAME_NDX, "Linux".to_string());
    props.set(OS_VERSION_NDX, "5.15".to_string());
    props.set(SOCKS_NON_PROXY_HOSTS_NDX, "".to_string());
    props.set(SOCKS_PROXY_HOST_NDX, "".to_string());
    props.set(SOCKS_PROXY_PORT_NDX, "".to_string());
    props.set(STDERR_ENCODING_NDX, "UTF-8".to_string());
    props.set(STDOUT_ENCODING_NDX, "UTF-8".to_string());
    props.set(SUN_ARCH_ABI_NDX, "".to_string());
    props.set(SUN_ARCH_DATA_MODEL_NDX, "64".to_string());
    props.set(SUN_CPU_ENDIAN_NDX, "little".to_string());
    props.set(SUN_CPU_ISALIST_NDX, "x86_64".to_string());
    props.set(SUN_IO_UNICODE_ENCODING_NDX, "".to_string());
    props.set(SUN_JNU_ENCODING_NDX, "UTF-8".to_string());
    props.set(SUN_OS_PATCH_LEVEL_NDX, "".to_string());
    props.set(USER_DIR_NDX, "/home/dylan".to_string());
    props.set(USER_HOME_NDX, "/home/dylan".to_string());
    props.set(USER_NAME_NDX, "dylan".to_string());
    proof {
        assert forall|i: int| 0 <= i < props@.len() implies #[trigger] props@[i]@ == platform_property(i) by {
        }
    }
    props
}

/// The virtual machine properties: each key followed by its value.
#[verifier::rlimit(100)]
pub fn vm_properties() -> (props: Vec<String>)
    ensures
        props@.len() == NUM_VM_PROPS * 2,
        forall|i: int| 0 <= i < props@.len() ==> #[trigger] props@[i]@ == vm_property(i),
{
    let mut props: Vec<String> = Vec::new();
    let mut k: usize = 0;
    while k < NUM_VM_PROPS * 2
        invariant
            k <= NUM_VM_PROPS * 2,
            props@.len() == k,
            forall|i: int| 0 <= i < k ==> #[trigger] props@[i]@ == Seq::<char>::empty(),
        decreases NUM_VM_PROPS * 2 - k,
    {
        props.push(String::new());
        k += 1;
    }
    props.set(DISPLAY_COUNTRY_NDX * 2, "display.country".to_string());
    props.set(DISPLAY_COUNTRY_NDX * 2 + 1, "US".to_string());
    props.set(DISPLAY_LANGUAGE_NDX * 2, "display.language".to_string());
    props.set(DISPLAY_LANGUAGE_NDX * 2 + 1, "English".to_string());
    props.set(DISPLAY_SCRIPT_NDX * 2, "display.script".to_string());
    props.set(DISPLAY_SCRIPT_NDX * 2 + 1, "Latn".to_string());
    props.set(DISPLAY_VARIANT_NDX * 2, "display.variant".to_string());
    props.set(DISPLAY_VARIANT_NDX * 2 + 1, "".to_string());
    props.set(FILE_ENCODING_NDX * 2, "file.encoding".to_string());
    props.set(FILE_ENCODING_NDX * 2 + 1, "UTF-8".to_string());
    props.set(FILE_SEPARATOR_NDX * 2, "file.separator".to_string());
    props.set(FILE_SEPARATOR_NDX * 2 + 1, "/".to_string());
    props.set(FORMAT_COUNTRY_NDX * 2, "format.country".to_string());
    props.set(FORMAT_COUNTRY_NDX * 2 + 1, "US".to_string());
    props.set(FORMAT_LANGUAGE_NDX * 2, "format.language".to_string());
    props.set(FORMAT_LANGUAGE_NDX * 2 + 1, "en_US".to_string());
    props.set(FORMAT_SCRIPT_NDX * 2, "format.script".to_string());
    props.set(FORMAT_SCRIPT_NDX * 2 + 1, "Latin".to_string());
    props.set(FORMAT_VARIANT_NDX * 2, "format.variant".to_string());
    props.set(FORMAT_VARIANT_NDX * 2 + 1, "".to_string());
    props.set(FTP_NON_PROXY_HOSTS_NDX * 2, "ftp.nonproxy.hosts".to_string());
    props.set(FTP_NON_PROXY_HOSTS_NDX * 2 + 1, "".to_string());
    props.set(FTP_PROXY_HOST_NDX * 2, "ftp.proxy.host".to_string());
    props.set(FTP_PROXY_HOST_NDX * 2 + 1, "".to_string());
    props.set(FTP_PROXY_PORT_NDX * 2, "ftp.proxy.port".to_string());
    props.set(FTP_PROXY_PORT_NDX * 2 + 1, "".to_string());
    props.set(HTTP_NON_PROXY_HOSTS_NDX * 2, "http.nonproxy.hosts".to_string());
    props.set(HTTP_NON_PROXY_HOSTS_NDX * 2 + 1, "".to_string());
    props.set(HTTP_PROXY_HOST_NDX * 2, "http.proxy.host".to_string());
    props.set(HTTP_PROXY_HOST_NDX * 2 + 1, "".to_string());
    props.set(HTTP_PROXY_PORT_NDX * 2, "http.proxy.port".to_string());
    props.set(HTTP_PROXY_PORT_NDX * 2 + 1, "".to_string());
    props.set(HTTPS_PROXY_HOST_NDX * 2, "https.proxy.host".to_string());
    props.set(HTTPS_PROXY_HOST_NDX * 2 + 1, "".to_string());
    props.set(HTTPS_PROXY_PORT_NDX * 2, "http.proxy.port".to_string());
    props.set(HTTPS_PROXY_PORT_NDX * 2 + 1, "".to_string());
    props.set(JAVA_IO_TMPDIR_NDX * 2, "java.io.tmpdir".to_string());
    props.set(JAVA_IO_TMPDIR_NDX * 2 + 1, "/tmp".to_string());
    props.set(LINE_SEPARATOR_NDX * 2, "line.separator".to_string());
    props.set(LINE_SEPARATOR_NDX * 2 + 1, "\n".to_string());
    props.set(PATH_SEPARATOR_NDX * 2, "path.separator".to_string());
    props.set(PATH_SEPARATOR_NDX * 2 + 1, ":".to_string());
    props.set(OS_ARCH_NDX * 2, "os.arch".to_string());
    props.set(OS_ARCH_NDX * 2 + 1, "x86_64".to_string());
    props.set(OS_NAME_NDX * 2, "os.name".to_string());
    props.set(OS_NAME_NDX * 2 + 1, "Linux".to_string());
    props.set(OS_VERSION_NDX * 2, "os.version".to_string());
    props.set(OS_VERSION_NDX * 2 + 1, "5.15".to_string());
    props.set(SOCKS_NON_PROXY_HOSTS_NDX * 2, "socks.nonproxy.hosts".to_string());
    props.set(SOCKS_NON_PROXY_HOSTS_NDX * 2 + 1, "".to_string());
    props.set(SOCKS_PROXY_HOST_NDX * 2, "".to_string());
    props.set(SOCKS_PROXY_HOST_NDX * 2 + 1, "socks.proxy.host".to_string());
    props.set(SOCKS_PROXY_PORT_NDX * 2, "".to_string());
    props.set(SOCKS_PROXY_PORT_NDX * 2 + 1, "socks.proxy.port".to_string());
    props.set(STDERR_ENCODING_NDX * 2, "stderr.encoding".to_string());
    props.set(STDERR_ENCODING_NDX * 2 + 1, "UTF-8".to_string());
    props.set(STDOUT_ENCODING_NDX * 2, "std.encoding".to_string());
    props.set(STDOUT_ENCODING_NDX * 2 + 1, "UTF-8".to_string());
    props.set(SUN_ARCH_ABI_NDX * 2, "sun.arch.abi".to_string());
    props.set(SUN_ARCH_ABI_NDX * 2 + 1, "".to_string());
    props.set(SUN_ARCH_DATA_MODEL_NDX * 2, "sun.arch.data.model".to_string());
    props.set(SUN_ARCH_DATA_MODEL_NDX * 2 + 1, "64".to_string());
    props.set(SUN_CPU_ENDIAN_NDX * 2, "sun.cpu.endian".to_string());
    props.set(SUN_CPU_ENDIAN_NDX * 2 + 1, "little".to_string());
    props.set(SUN_CPU_ISALIST_NDX * 2, "sun.cpu.isalist".to_string());
    props.set(SUN_CPU_ISALIST_NDX * 2 + 1, "x86_64".to_string());
    props.set(SUN_IO_UNICODE_ENCODING_NDX * 2, "sun.io.unicode.encoding".to_string());
    props.set(SUN_IO_UNICODE_ENCODING_NDX * 2 + 1, "".to_string());
    props.set(SUN_JNU_ENCODING_NDX * 2, "sun.jnu.encoding".to_string());
    props.set(SUN_JNU_ENCODING_NDX * 2 + 1, "UTF-8".to_string());
    props.set(SUN_OS_PATCH_LEVEL_NDX * 2, "sun.os.patch.level".to_string());
    props.set(SUN_OS_PATCH_LEVEL_NDX * 2 + 1, "".to_string());
    props.set(USER_DIR_NDX * 2, "user.dir".to_string());
    props.set(USER_DIR_NDX * 2 + 1, "/home/dylan".to_string());
    props.set(USER_HOME_NDX * 2, "user.home".to_string());
    props.set(USER_HOME_NDX * 2 + 1, "/home/dylan".to_string());
    props.set(USER_NAME_NDX * 2, "user.name".to_string());
    props.set(USER_NAME_NDX * 2 + 1, "dylan".to_string());
    props.set(JAVA_HOME_NDX * 2, "java.home".to_string());
    props.set(JAVA_HOME_NDX * 2 + 1, "".to_string());
    proof {
        assert forall|i: int| 0 <= i < props@.len() implies #[trigger] props@[i]@ == vm_property(i) by {
        }
    }
    props
}

/// The names of the primitive types.
pub open spec fn is_primitive_name(name: Seq<char>) -> bool {
    name == "boolean"@ || name == "byte"@ || name == "char"@ || name == "double"@ || name
        == "float"@ || name == "int"@ || name == "long"@ || name == "short"@
}

/// Whether a class name is that of a primitive type: the answer of
/// `Class.isPrimitive` for the class of that name, 1 for yes and 0 for no.
pub fn is_primitive(name: &str) -> (r: i32)
    ensures
        r == (if is_primitive_name(name@) {
            1i32
        } else {
            0i32
        }),
{
    let prims: [&str; 8] = ["boolean", "byte", "char", "double", "float", "int", "long", "short"];
    let mut i: usize = 0;
    while i < 8
        invariant
            i <= 8,
            prims@ == seq!["boolean", "byte", "char", "double", "float", "int", "long", "short"],
            forall|j: int| 0 <= j < i ==> name@ != (#[trigger] prims@[j])@,
        decreases 8 - i,
    {
        if crate::text::str_eq(name, prims[i]) {
            return 1;
        }
        i += 1;
    }
    0
}

} // verus!
