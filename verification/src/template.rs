//! Rendering of a message template: each `{:?}` placeholder in the
//! template is replaced, left to right, by the next of a list of
//! already-rendered debug strings.

use vstd::prelude::*;

verus! {

/// The placeholder that a template marks an argument with.
pub open spec fn placeholder() -> Seq<char> {
    seq!['{', ':', '?', '}']
}

/// What rendering a template with a list of argument strings produces:
/// scanning left to right, each occurrence of the placeholder consumes
/// the next argument and is replaced by it; every other character is
/// copied through. A placeholder found after the arguments have run out
/// is copied literally, and arguments beyond the last placeholder are
/// ignored.
pub open spec fn rendered(template: Seq<char>, args: Seq<Seq<char>>) -> Seq<char>
    decreases template.len(),
{
    if template.len() == 0 {
        Seq::empty()
    } else if template.len() >= 4 && template.subrange(0, 4) == placeholder() && args.len() > 0 {
        args.first() + rendered(template.skip(4), args.drop_first())
    } else {
        seq![template.first()] + rendered(template.drop_first(), args)
    }
}

/// Render a message template with a list of argument strings, replacing
/// each `{:?}` with the next argument in order.
pub fn render_line(template: &str, args: &Vec<String>) -> (s: String)
    ensures
        s@ == rendered(template@, args.deep_view()),
{
    let t = crate::strutil::chars_of(template);
    let ghost argsv: Seq<Seq<char>> = args.deep_view();
    let mut out = String::new();
    let mut i: usize = 0;
    let mut j: usize = 0;
    proof {
        assert(t@.skip(0) =~= t@);
        assert(argsv.skip(0) =~= argsv);
        assert(out@ + rendered(t@, argsv) =~= rendered(t@, argsv));
    }
    while i < t.len()
        invariant
            t@ == template@,
            i <= t@.len(),
            j <= args@.len(),
            argsv == args.deep_view(),
            argsv.len() == args@.len(),
            forall|k: int| 0 <= k < argsv.len() ==> argsv[k] == args@[k]@,
            rendered(template@, argsv) == out@ + rendered(
                t@.skip(i as int),
                argsv.skip(j as int),
            ),
        decreases t@.len() - i,
    {
        let is_placeholder = t.len() >= 4 && i <= t.len() - 4 && t[i] == '{' && t[i + 1] == ':'
            && t[i + 2] == '?' && t[i + 3] == '}';
        if is_placeholder && j < args.len() {
            proof {
                assert(t@.skip(i as int).subrange(0, 4) =~= placeholder());
                assert(t@.skip(i as int).skip(4) =~= t@.skip(i + 4));
                assert(argsv.skip(j as int).drop_first() =~= argsv.skip(j + 1));
                assert(argsv.skip(j as int).first() == argsv[j as int]);
            }
            out.append(args[j].as_str());
            i = i + 4;
            j = j + 1;
        } else {
            proof {
                if t@.skip(i as int).len() >= 4 && t@.skip(i as int).subrange(0, 4)
                    == placeholder() && argsv.skip(j as int).len() > 0 {
                    assert(t@.skip(i as int).subrange(0, 4)[0] == t@[i as int]);
                    assert(t@.skip(i as int).subrange(0, 4)[1] == t@[i + 1]);
                    assert(t@.skip(i as int).subrange(0, 4)[2] == t@[i + 2]);
                    assert(t@.skip(i as int).subrange(0, 4)[3] == t@[i + 3]);
                    assert(is_placeholder && j < args@.len());
                }
                assert(t@.skip(i as int).drop_first() =~= t@.skip(i + 1));
                assert(t@.skip(i as int).first() == t@[i as int]);
            }
            crate::strutil::string_push(&mut out, t[i]);
            i = i + 1;
        }
    }
    proof {
        assert(t@.skip(i as int) =~= Seq::<char>::empty());
        assert(rendered(t@.skip(i as int), argsv.skip(j as int)) =~= Seq::<char>::empty());
        assert(out@ + rendered(t@.skip(i as int), argsv.skip(j as int)) =~= out@);
    }
    out
}

} // verus!
