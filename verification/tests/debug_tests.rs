use pi_print_any::decimal::{fmt_i64, fmt_u64};
use pi_print_any::template::render_line;
use pi_print_any::{fallback_string, new_debugit, NativeDebug};

fn debug_no_bound<T: NativeDebug>(x: T, s: &str) {
    assert_eq!(&new_debugit(&x).debug_string(), s);
}

#[test]
fn it_works() {
    debug_no_bound(1, "1");
    debug_no_bound((), "()");
}

struct B(usize);

#[test]
fn fallback_is_backticked_type_name() {
    let b = B(1);
    let d = new_debugit(&b);
    assert_eq!(d.fallback_debug_string("debug_tests::B"), "`debug_tests::B`");
}

#[test]
fn fallback_string_wraps_in_backticks() {
    assert_eq!(fallback_string("abc"), "`abc`");
    assert_eq!(fallback_string(""), "``");
}

#[test]
fn wrapper_defers_to_native_representation() {
    assert_eq!(new_debugit(5i32).debug_string(), "5");
    assert_eq!(new_debugit(true).debug_string(), "true");
    assert_eq!(new_debugit(false).debug_string(), "false");
    assert_eq!(new_debugit(()).debug_string(), "()");
    assert_eq!(new_debugit(42u32).debug_string(), "42");
    assert_eq!(new_debugit(7usize).debug_string(), "7");
}

#[test]
fn wrapper_sees_through_references() {
    let x: i32 = 7;
    assert_eq!(new_debugit(&x).debug_string(), "7");
    assert_eq!(new_debugit(&&x).debug_string(), "7");
}

#[test]
fn wrapper_keeps_the_value() {
    let d = new_debugit(5i64);
    assert_eq!(d.value, 5);
}

#[test]
fn formatting_is_repeatable() {
    let d = new_debugit(31337u64);
    let first = d.debug_string();
    let second = d.debug_string();
    assert_eq!(first, second);
    assert_eq!(first, "31337");
}

#[test]
fn unsigned_decimal_rendering() {
    assert_eq!(fmt_u64(0), "0");
    assert_eq!(fmt_u64(9), "9");
    assert_eq!(fmt_u64(10), "10");
    assert_eq!(fmt_u64(12345), "12345");
    assert_eq!(fmt_u64(u64::MAX), "18446744073709551615");
}

#[test]
fn signed_decimal_rendering() {
    assert_eq!(fmt_i64(0), "0");
    assert_eq!(fmt_i64(-5), "-5");
    assert_eq!(fmt_i64(100), "100");
    assert_eq!(fmt_i64(i64::MAX), "9223372036854775807");
    assert_eq!(fmt_i64(i64::MIN), "-9223372036854775808");
}

#[test]
fn signed_extremes_through_wrapper() {
    assert_eq!(new_debugit(i32::MIN).debug_string(), "-2147483648");
    assert_eq!(new_debugit(i32::MAX).debug_string(), "2147483647");
    assert_eq!(new_debugit(i64::MIN).debug_string(), "-9223372036854775808");
}

#[test]
fn render_replaces_one_placeholder() {
    let args = vec![String::from("5")];
    assert_eq!(render_line("x: {:?}", &args), "x: 5");
}

#[test]
fn render_replaces_placeholders_in_order() {
    let args = vec![String::from("1"), String::from("two")];
    assert_eq!(render_line("a={:?}, b={:?}!", &args), "a=1, b=two!");
}

#[test]
fn render_with_no_placeholder_copies_template() {
    let args = vec![String::from("unused")];
    assert_eq!(render_line("plain message", &args), "plain message");
}

#[test]
fn render_keeps_placeholder_when_arguments_run_out() {
    let args: Vec<String> = Vec::new();
    assert_eq!(render_line("x: {:?}", &args), "x: {:?}");
}

#[test]
fn render_placeholder_at_the_edges() {
    let args = vec![String::from("a"), String::from("b")];
    assert_eq!(render_line("{:?}-{:?}", &args), "a-b");
}

#[test]
fn render_empty_template() {
    let args = vec![String::from("a")];
    assert_eq!(render_line("", &args), "");
}
