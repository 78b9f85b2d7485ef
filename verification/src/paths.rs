//! A small verified model of slash-separated path strings: locating the final
//! component, splitting a stem from its extension, joining a directory with a
//! relative path, and rewriting the file name or the extension.
//!
//! Paths are plain strings. A component boundary is a `'/'`. The extension is
//! what follows the last `'.'` of the final component, except that a dot at
//! the very start of the component (a hidden file) separates nothing.

use vstd::prelude::*;

verus! {

/// The index where the final component of `s` starts: one past the last
/// `'/'`, or `0` if there is none.
pub open spec fn name_start(s: Seq<char>) -> int
    decreases s.len(),
{
    if s.len() == 0 {
        0
    } else if s.last() == '/' {
        s.len() as int
    } else {
        name_start(s.drop_last())
    }
}

/// Everything after `name_start` is slash-free, and the character just before
/// it (if any) is a slash.
pub proof fn lemma_name_start(s: Seq<char>)
    ensures
        0 <= name_start(s) <= s.len(),
        forall|j: int| name_start(s) <= j < s.len() ==> s[j] != '/',
        name_start(s) > 0 ==> s[name_start(s) - 1] == '/',
    decreases s.len(),
{
    if s.len() == 0 {
    } else if s.last() == '/' {
    } else {
        lemma_name_start(s.drop_last());
        let ns = name_start(s);
        assert(ns == name_start(s.drop_last()));
        assert forall|j: int| ns <= j < s.len() implies s[j] != '/' by {
            if j < s.len() - 1 {
                assert(s.drop_last()[j] == s[j]);
            }
        }
        if ns > 0 {
            assert(s.drop_last()[ns - 1] == s[ns - 1]);
        }
    }
}

/// The index of the dot separating the final component's stem from its
/// extension, or `-1` if the component has no extension. A dot at the start
/// of the component does not separate.
pub open spec fn ext_dot(s: Seq<char>) -> int
    decreases s.len(),
{
    if s.len() == 0 {
        -1
    } else if s.last() == '/' {
        -1
    } else if s.last() == '.' {
        if s.len() >= 2 && s[s.len() - 2] != '/' {
            s.len() - 1
        } else {
            -1
        }
    } else {
        ext_dot(s.drop_last())
    }
}

/// The separating dot, when there is one, lies strictly inside the final
/// component and nothing after it is a dot; when there is none, the final
/// component holds no dot past its first character.
pub proof fn lemma_ext_dot(s: Seq<char>)
    ensures
        ext_dot(s) == -1 || (name_start(s) < ext_dot(s) < s.len() && s[ext_dot(s)] == '.'),
        forall|j: int|
            (if ext_dot(s) == -1 {
                name_start(s)
            } else {
                ext_dot(s)
            }) < j < s.len() ==> s[j] != '.',
    decreases s.len(),
{
    lemma_name_start(s);
    if s.len() == 0 {
    } else if s.last() == '/' {
        assert(name_start(s) == s.len());
    } else if s.last() == '.' {
        if s.len() >= 2 && s[s.len() - 2] != '/' {
            // the dot itself ends the string, so nothing follows it; and the
            // component must begin at or before the previous character
            let ns = name_start(s);
            if ns > 0 {
                assert(s[ns - 1] == '/');
            }
            assert(ns < s.len() - 1) by {
                if ns == s.len() - 1 {
                    if ns > 0 {
                        assert(s[s.len() - 2] == '/');
                    } else {
                        assert(s.len() == 1);
                    }
                }
            }
        } else {
            // the dot starts the component: it is no separator, and it is the
            // only character of the component
            let ns = name_start(s);
            assert(ns == s.len() - 1) by {
                if s.len() >= 2 {
                    assert(s[s.len() - 2] == '/');
                    assert(s.drop_last().last() == '/');
                    assert(name_start(s) == name_start(s.drop_last()));
                } else {
                    assert(name_start(s) == name_start(s.drop_last()));
                    assert(s.drop_last().len() == 0);
                }
            }
        }
    } else {
        lemma_ext_dot(s.drop_last());
        lemma_name_start(s.drop_last());
        assert(name_start(s) == name_start(s.drop_last()));
        assert(ext_dot(s) == ext_dot(s.drop_last()));
        let bound = if ext_dot(s) == -1 {
            name_start(s)
        } else {
            ext_dot(s)
        };
        assert forall|j: int| bound < j < s.len() implies s[j] != '.' by {
            if j < s.len() - 1 {
                assert(s.drop_last()[j] == s[j]);
            }
        }
    }
}

/// Locates the final component of `s`, as `name_start` describes.
pub fn find_name_start(s: &str) -> (k: usize)
    ensures
        k as int == name_start(s@),
{
    let len = s.unicode_len();
    let mut k = len;
    let mut stop = false;
    while k > 0 && !stop
        invariant
            len == s@.len(),
            0 <= k <= len,
            forall|j: int| k <= j < len ==> s@[j] != '/',
            stop ==> k > 0 && s@[k - 1] == '/',
        decreases k + (if stop {
            0int
        } else {
            1int
        }),
    {
        if s.get_char(k - 1) == '/' {
            stop = true;
        } else {
            k -= 1;
        }
    }
    proof {
        lemma_name_start(s@);
        let ns = name_start(s@);
        if (k as int) < ns {
            assert(s@[ns - 1] != '/');
            assert(false);
        }
        if (k as int) > ns {
            assert(k > 0);
            assert(stop);
            assert(s@[k - 1] != '/');
            assert(false);
        }
    }
    k
}

/// Locates the extension-separating dot of `s`, as `ext_dot` describes.
pub fn find_ext_dot(s: &str) -> (r: Option<usize>)
    ensures
        match r {
            Some(e) => e as int == ext_dot(s@),
            None => ext_dot(s@) == -1,
        },
{
    let ns = find_name_start(s);
    let len = s.unicode_len();
    let mut k = len;
    let mut found = false;
    while k > 0 && k - 1 > ns && !found
        invariant
            len == s@.len(),
            ns as int == name_start(s@),
            ns <= k <= len || k == len,
            k <= len,
            forall|j: int| k <= j < len ==> s@[j] != '.',
            found ==> k > 0 && (k - 1) as int > ns as int && s@[k - 1] == '.',
        decreases k + (if found {
            0int
        } else {
            1int
        }),
    {
        if s.get_char(k - 1) == '.' {
            found = true;
        } else {
            k -= 1;
        }
    }
    proof {
        lemma_ext_dot(s@);
        lemma_name_start(s@);
        let e = ext_dot(s@);
        if found {
            // the dot we found is the last one in the component, so it is the
            // separator
            if e == -1 {
                assert(s@[k - 1] != '.');
                assert(false);
            }
            if e < k - 1 {
                assert(s@[k - 1] != '.');
                assert(false);
            }
            if e > k - 1 {
                assert(s@[e] != '.');
                assert(false);
            }
        } else {
            if e != -1 {
                assert(s@[e] != '.');
                assert(false);
            }
        }
    }
    if found {
        Some(k - 1)
    } else {
        None
    }
}

/// The final component of `s` without its extension.
pub open spec fn spec_file_stem(s: Seq<char>) -> Seq<char> {
    if ext_dot(s) == -1 {
        s.subrange(name_start(s), s.len() as int)
    } else {
        s.subrange(name_start(s), ext_dot(s))
    }
}

/// Returns the final component of `s` without its extension, as
/// `spec_file_stem` describes.
pub fn file_stem(s: &str) -> (r: String)
    ensures
        r@ == spec_file_stem(s@),
{
    let ns = find_name_start(s);
    let len = s.unicode_len();
    proof {
        lemma_ext_dot(s@);
        lemma_name_start(s@);
    }
    match find_ext_dot(s) {
        Some(e) => s.substring_char(ns, e).to_owned(),
        None => s.substring_char(ns, len).to_owned(),
    }
}

/// `s` with its extension replaced by `o`: the string up to the separating
/// dot (all of it, if there is none), then `.o`.
pub open spec fn spec_with_ext_o(s: Seq<char>) -> Seq<char> {
    if ext_dot(s) == -1 {
        s + ".o"@
    } else {
        s.take(ext_dot(s)) + ".o"@
    }
}

/// Replaces the extension of `s` with `o`, as `spec_with_ext_o` describes.
pub fn with_extension_o(s: &str) -> (r: String)
    ensures
        r@ == spec_with_ext_o(s@),
{
    proof {
        lemma_ext_dot(s@);
        lemma_name_start(s@);
    }
    match find_ext_dot(s) {
        Some(e) => {
            let mut r = s.substring_char(0, e).to_owned();
            r.append(".o");
            r
        },
        None => {
            let len = s.unicode_len();
            let mut r = s.substring_char(0, len).to_owned();
            proof {
                assert(s@.subrange(0, s@.len() as int) =~= s@);
            }
            r.append(".o");
            r
        },
    }
}

/// `s` with its final component replaced by `name`.
pub open spec fn spec_with_file_name(s: Seq<char>, name: Seq<char>) -> Seq<char> {
    s.take(name_start(s)) + name
}

/// Replaces the final component of `s` with `name`, as `spec_with_file_name`
/// describes.
pub fn with_file_name(s: &str, name: &str) -> (r: String)
    ensures
        r@ == spec_with_file_name(s@, name@),
{
    let ns = find_name_start(s);
    proof {
        lemma_name_start(s@);
    }
    let mut r = s.substring_char(0, ns).to_owned();
    r.append(name);
    r
}

/// `d` and `f` joined with a slash: `f` alone if it is absolute or `d` is
/// empty; no second slash if `d` already ends with one.
pub open spec fn spec_join(d: Seq<char>, f: Seq<char>) -> Seq<char> {
    if f.len() > 0 && f[0] == '/' {
        f
    } else if d.len() == 0 {
        f
    } else if d.last() == '/' {
        d + f
    } else {
        d + "/"@ + f
    }
}

/// Joins a directory and a relative path, as `spec_join` describes.
pub fn join_path(d: &str, f: &str) -> (r: String)
    ensures
        r@ == spec_join(d@, f@),
{
    let flen = f.unicode_len();
    if flen > 0 && f.get_char(0) == '/' {
        return f.to_owned();
    }
    let dlen = d.unicode_len();
    if dlen == 0 {
        return f.to_owned();
    }
    let mut r = d.to_owned();
    if d.get_char(dlen - 1) == '/' {
        r.append(f);
    } else {
        r.append("/");
        r.append(f);
    }
    r
}

} // verus!
