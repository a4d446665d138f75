//! A wrapper type that always has a textual debug representation.
//!
//! Wrapping a value with [`new_debugit`] yields a [`DebugIt`] that can
//! produce a debug string on demand: types that opt in through the
//! [`NativeDebug`] trait render themselves, and any other type can fall
//! back to a back-tick-quoted type name. A small template renderer lets
//! callers splice those strings into a message.

pub mod decimal;
pub mod template;

mod strutil;

use vstd::prelude::*;

verus! {

/// Types that carry their own debug representation.
///
/// `debug_repr` is the representation itself, as a sequence of
/// characters; `debug_fmt` produces exactly that sequence as a `String`.
/// Implementing this trait is how a type opts in to being rendered by
/// value through [`DebugIt::debug_string`]; every other type can still
/// be rendered through the type-name fallback.
pub trait NativeDebug {
    /// The debug representation of this value.
    spec fn debug_repr(&self) -> Seq<char>;

    /// Produce the debug representation as a string.
    fn debug_fmt(&self) -> (s: String)
        ensures
            s@ == self.debug_repr(),
    ;
}

/// A wrapper that always supports producing a debug string.
///
/// If the wrapped type has a native representation (it implements
/// [`NativeDebug`]), [`DebugIt::debug_string`] defers to it verbatim.
/// For any other type, [`DebugIt::fallback_debug_string`] renders the
/// type's name surrounded by back-ticks.
#[derive(Clone, Copy)]
pub struct DebugIt<T> {
    pub value: T,
}

/// Wrap a value so that a debug string can always be produced for it.
pub fn new_debugit<T>(value: T) -> (d: DebugIt<T>)
    ensures
        d.value == value,
{
    DebugIt { value }
}

impl<T: NativeDebug> DebugIt<T> {
    /// The debug representation of the wrapper: that of the value it
    /// holds.
    pub open spec fn debug_repr(&self) -> Seq<char> {
        self.value.debug_repr()
    }

    /// The debug string of the wrapped value, exactly as the value
    /// itself renders it.
    pub fn debug_string(&self) -> (s: String)
        ensures
            s@ == self.debug_repr(),
    {
        self.value.debug_fmt()
    }
}

/// The wrapper adds nothing of its own: for a value with a native debug
/// representation, the wrapper's debug representation is, character for
/// character, the one the value itself produces.
pub proof fn lemma_wrapper_defers_to_value<T: NativeDebug>(d: DebugIt<T>)
    ensures
        d.debug_repr() == d.value.debug_repr(),
{
}

/// The fallback rendering: a type name surrounded by one back-tick on
/// each side.
pub open spec fn fallback_repr(name: Seq<char>) -> Seq<char> {
    seq!['`'] + name + seq!['`']
}

/// Surround a type name with back-ticks, the form the fallback
/// rendering takes.
pub fn fallback_string(name: &str) -> (s: String)
    ensures
        s@ == fallback_repr(name@),
{
    let mut s = String::new();
    strutil::string_push(&mut s, '`');
    s.append(name);
    strutil::string_push(&mut s, '`');
    proof {
        assert(s@ =~= fallback_repr(name@));
    }
    s
}

impl<T> DebugIt<T> {
    /// The fallback debug string for the wrapped value: the name
    /// reported for its type, surrounded by back-ticks. Available for
    /// every type, and the only rendering for types with no native
    /// representation. The caller supplies the type's name, since this
    /// library does not inspect types at run time.
    pub fn fallback_debug_string(&self, name: &str) -> (s: String)
        ensures
            s@ == fallback_repr(name@),
    {
        fallback_string(name)
    }
}

/// Producing a debug string mutates nothing and depends on the wrapped
/// value alone: any two debug strings obtained for the same wrapped
/// value are equal.
pub proof fn lemma_debug_string_deterministic<T: NativeDebug>(
    d: DebugIt<T>,
    s1: Seq<char>,
    s2: Seq<char>,
)
    requires
        s1 == d.value.debug_repr(),
        s2 == d.value.debug_repr(),
    ensures
        s1 == s2,
{
}

impl NativeDebug for u64 {
    open spec fn debug_repr(&self) -> Seq<char> {
        decimal::dec_repr(*self as nat)
    }

    fn debug_fmt(&self) -> (s: String) {
        decimal::fmt_u64(*self)
    }
}

impl NativeDebug for u32 {
    open spec fn debug_repr(&self) -> Seq<char> {
        decimal::dec_repr(*self as nat)
    }

    fn debug_fmt(&self) -> (s: String) {
        decimal::fmt_u64(*self as u64)
    }
}

impl NativeDebug for usize {
    open spec fn debug_repr(&self) -> Seq<char> {
        decimal::dec_repr(*self as nat)
    }

    fn debug_fmt(&self) -> (s: String) {
        decimal::fmt_u64(*self as u64)
    }
}

impl NativeDebug for i64 {
    open spec fn debug_repr(&self) -> Seq<char> {
        decimal::int_repr(*self as int)
    }

    fn debug_fmt(&self) -> (s: String) {
        decimal::fmt_i64(*self)
    }
}

impl NativeDebug for i32 {
    open spec fn debug_repr(&self) -> Seq<char> {
        decimal::int_repr(*self as int)
    }

    fn debug_fmt(&self) -> (s: String) {
        decimal::fmt_i64(*self as i64)
    }
}

impl NativeDebug for bool {
    open spec fn debug_repr(&self) -> Seq<char> {
        if *self {
            seq!['t', 'r', 'u', 'e']
        } else {
            seq!['f', 'a', 'l', 's', 'e']
        }
    }

    fn debug_fmt(&self) -> (s: String) {
        if *self {
            let s = String::from_str("true");
            proof {
                reveal_strlit("true");
                assert(s@ =~= self.debug_repr());
            }
            s
        } else {
            let s = String::from_str("false");
            proof {
                reveal_strlit("false");
                assert(s@ =~= self.debug_repr());
            }
            s
        }
    }
}

impl NativeDebug for () {
    open spec fn debug_repr(&self) -> Seq<char> {
        seq!['(', ')']
    }

    fn debug_fmt(&self) -> (s: String) {
        let s = String::from_str("()");
        proof {
            reveal_strlit("()");
            assert(s@ =~= self.debug_repr());
        }
        s
    }
}

impl<'a, T: NativeDebug> NativeDebug for &'a T {
    open spec fn debug_repr(&self) -> Seq<char> {
        <T as NativeDebug>::debug_repr(*self)
    }

    fn debug_fmt(&self) -> (s: String) {
        <T as NativeDebug>::debug_fmt(*self)
    }
}

} // verus!
