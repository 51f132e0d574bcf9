use vstd::prelude::*;

verus! {

/// `s` with each `.` turned into `/`: a dotted package name in the form that
/// the JVM's class lookup expects.
pub open spec fn slash_separated(s: Seq<char>) -> Seq<char> {
    s.map_values(|c: char| if c == '.' { '/' } else { c })
}

/// The NUL-terminated, slash-separated, fully qualified name of `class` in
/// `package`.
pub open spec fn class_key(package: Seq<char>, class: Seq<char>) -> Seq<char> {
    slash_separated(package) + "/"@ + class + "\0"@
}

/// The NUL-terminated name of a method.
pub open spec fn method_key(method: Seq<char>) -> Seq<char> {
    method + "\0"@
}

/// The NUL-terminated JNI signature of a method that takes nothing and
/// returns nothing.
pub open spec fn void_signature() -> Seq<char> {
    "()V\0"@
}

/// The message of the error reported when `class.method()` threw.
pub open spec fn exception_message(class: Seq<char>, method: Seq<char>) -> Seq<char> {
    class + "."@ + method + "() threw a Java Exception"@
}

/// The message of the abort when `class` is not found in `package`.
pub open spec fn class_not_found_message(package: Seq<char>, class: Seq<char>) -> Seq<char> {
    "Failed to FindClass "@ + package + "."@ + class
        + " - the corresponding .jar may not be loaded"@
}

/// The message of the abort when `class` has no static method `method` of the
/// expected signature.
pub open spec fn method_not_found_message(class: Seq<char>, method: Seq<char>) -> Seq<char> {
    "Failed to GetStaticMethodID "@ + class + "."@ + method
}

/// The message of the abort when the calling thread has no JVM environment.
pub open spec fn vm_unavailable_message() -> Seq<char> {
    "Couldn't initialize Java VM"@
}

/// The NUL-terminated JVM option that sets the class path.
pub open spec fn classpath_option(classpath: Seq<char>) -> Seq<char> {
    "-Djava.class.path="@ + classpath + "\0"@
}

/// The options the test JVM is created with: language assertions, system
/// assertions and the class path, each NUL-terminated.
pub open spec fn vm_options(classpath: Seq<char>) -> Seq<Seq<char>> {
    seq!["-ea\0"@, "-esa\0"@, classpath_option(classpath)]
}

/// Turns each `.` of `s` into `/`.
pub fn to_slash_separated(s: &str) -> (r: String)
    ensures
        r@ == slash_separated(s@),
{
    let n = s.unicode_len();
    let mut out = String::new();
    let mut start: usize = 0;
    let mut i: usize = 0;
    while i < n
        invariant
            n == s@.len(),
            start <= i <= n,
            out@ == slash_separated(s@.subrange(0, start as int)),
            forall|j: int| start <= j < i ==> s@[j] != '.',
        decreases n - i,
    {
        if s.get_char(i) == '.' {
            let piece = s.substring_char(start, i);
            out.append(piece);
            out.append("/");
            proof {
                reveal_strlit("/");
                assert("/"@ =~= seq!['/']);
                assert(slash_separated(s@.subrange(0, i + 1)) =~= slash_separated(
                    s@.subrange(0, start as int),
                ) + s@.subrange(start as int, i as int) + "/"@);
            }
            start = i + 1;
        }
        i = i + 1;
    }
    let rest = s.substring_char(start, n);
    out.append(rest);
    assert(s@.subrange(0, n as int) =~= s@);
    assert(slash_separated(s@) =~= slash_separated(s@.subrange(0, start as int)) + s@.subrange(
        start as int,
        n as int,
    ));
    out
}

/// The key under which the JVM looks up `class` of `package`.
pub fn make_class_key(package: &str, class: &str) -> (r: String)
    ensures
        r@ == class_key(package@, class@),
{
    let mut r = to_slash_separated(package);
    r.append("/");
    r.append(class);
    r.append("\0");
    r
}

/// The key under which the JVM looks up `method`.
pub fn make_method_key(method: &str) -> (r: String)
    ensures
        r@ == method_key(method@),
{
    let mut r = String::from_str(method);
    r.append("\0");
    r
}

/// The JNI signature of a static method that takes nothing and returns nothing.
pub fn make_void_signature() -> (r: String)
    ensures
        r@ == void_signature(),
{
    String::from_str("()V\0")
}

/// The message reported when `class.method()` threw.
pub fn make_exception_message(class: &str, method: &str) -> (r: String)
    ensures
        r@ == exception_message(class@, method@),
{
    let mut r = String::from_str(class);
    r.append(".");
    r.append(method);
    r.append("() threw a Java Exception");
    r
}

/// The abort message for a class that is not found.
pub fn make_class_not_found_message(package: &str, class: &str) -> (r: String)
    ensures
        r@ == class_not_found_message(package@, class@),
{
    let mut r = String::from_str("Failed to FindClass ");
    r.append(package);
    r.append(".");
    r.append(class);
    r.append(" - the corresponding .jar may not be loaded");
    r
}

/// The abort message for a static method that is not found.
pub fn make_method_not_found_message(class: &str, method: &str) -> (r: String)
    ensures
        r@ == method_not_found_message(class@, method@),
{
    let mut r = String::from_str("Failed to GetStaticMethodID ");
    r.append(class);
    r.append(".");
    r.append(method);
    r
}

/// The abort message for a thread without a JVM environment.
pub fn make_vm_unavailable_message() -> (r: String)
    ensures
        r@ == vm_unavailable_message(),
{
    String::from_str("Couldn't initialize Java VM")
}

/// The JVM option that sets the class path to `classpath`.
pub fn make_classpath_option(classpath: &str) -> (r: String)
    ensures
        r@ == classpath_option(classpath@),
{
    let mut r = String::from_str("-Djava.class.path=");
    r.append(classpath);
    r.append("\0");
    r
}

/// The options to create the test JVM with, for the class path `classpath`.
pub fn make_vm_options(classpath: &str) -> (r: Vec<String>)
    ensures
        r.deep_view() == vm_options(classpath@),
{
    let mut r: Vec<String> = Vec::new();
    r.push(String::from_str("-ea\0"));
    r.push(String::from_str("-esa\0"));
    r.push(make_classpath_option(classpath));
    assert(r.deep_view() =~= vm_options(classpath@));
    r
}

} // verus!
