//! Decisions taken from the environment when the application starts.

use vstd::prelude::*;
use vstd::string::StrSliceExecFns;

use crate::panel::str_eq;
use crate::text::{chars_of, string_from_chars, trim, trim_chars};

verus! {

broadcast use vstd::string::group_string_axioms;

/// The GDK debug flag that makes GTK prefer desktop OpenGL over GLES.
pub open spec fn gl_flag() -> Seq<char> {
    "gl-prefer-gl"@
}

/// Whether one of the comma-separated flags of `s`, trimmed, is the GL
/// flag; `cur` is the part of a flag already read.
pub open spec fn has_gl_flag_from(s: Seq<char>, cur: Seq<char>) -> bool
    decreases s.len(),
{
    if s.len() == 0 {
        trim_chars(cur) == gl_flag()
    } else if s[0] == ',' {
        trim_chars(cur) == gl_flag() || has_gl_flag_from(s.drop_first(), Seq::empty())
    } else {
        has_gl_flag_from(s.drop_first(), cur.push(s[0]))
    }
}

/// The value `GDK_DEBUG` should take so that GTK prefers desktop OpenGL,
/// given its value where it is set: `None` to leave it as it is (the flag
/// is already among its comma-separated flags); the flag alone where it is
/// unset or blank; else its value with `,` and the flag added.
pub open spec fn gdk_debug_update(existing: Option<Seq<char>>) -> Option<Seq<char>> {
    match existing {
        Some(v) => if has_gl_flag_from(v, Seq::empty()) {
            None
        } else if trim_chars(v).len() == 0 {
            Some(gl_flag())
        } else {
            Some(v + ","@ + gl_flag())
        },
        None => Some(gl_flag()),
    }
}

/// Whether one of the comma-separated flags, trimmed, is the GL flag.
fn has_gl_flag(value: &str) -> (found: bool)
    ensures
        found == has_gl_flag_from(value@, Seq::empty()),
{
    let flag = "gl-prefer-gl";
    let chars = chars_of(value);
    let n = chars.len();
    let mut cur: Vec<char> = Vec::new();
    let mut i: usize = 0;
    proof {
        assert(chars@.subrange(0, n as int) =~= chars@);
    }
    while i < n
        invariant
            n == chars@.len(),
            chars@ == value@,
            i <= n,
            flag@ == gl_flag(),
            has_gl_flag_from(value@, Seq::empty()) == has_gl_flag_from(chars@.subrange(i as int, n as int), cur@),
        decreases n - i,
    {
        proof {
            assert(chars@.subrange(i as int, n as int).drop_first() =~= chars@.subrange(i + 1, n as int));
            assert(chars@.subrange(i as int, n as int)[0] == chars@[i as int]);
        }
        if chars[i] == ',' {
            let text = string_from_chars(&cur);
            if str_eq(trim(text.as_str()), flag) {
                return true;
            }
            cur = Vec::new();
        } else {
            cur.push(chars[i]);
        }
        i = i + 1;
    }
    proof {
        assert(chars@.subrange(n as int, n as int).len() == 0);
    }
    let text = string_from_chars(&cur);
    str_eq(trim(text.as_str()), flag)
}

/// The value `GDK_DEBUG` should take so that GTK prefers desktop OpenGL,
/// given its value where it is set (see `gdk_debug_update`).
pub fn prefer_desktop_opengl(existing: Option<&str>) -> (update: Option<String>)
    ensures
        update.deep_view() == gdk_debug_update(
            match existing {
                Some(v) => Some(v@),
                None => None,
            },
        ),
{
    let flag = "gl-prefer-gl";
    match existing {
        Some(v) => if has_gl_flag(v) {
            None
        } else if trim(v).unicode_len() == 0 {
            Some(flag.to_owned())
        } else {
            let mut out = chars_of(v);
            let mut tail = chars_of(",gl-prefer-gl");
            out.append(&mut tail);
            proof {
                reveal_strlit(",gl-prefer-gl");
                reveal_strlit(",");
                reveal_strlit("gl-prefer-gl");
                assert(out@ =~= v@ + ","@ + gl_flag());
            }
            Some(string_from_chars(&out))
        },
        None => Some(flag.to_owned()),
    }
}

} // verus!
