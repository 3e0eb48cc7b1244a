use vstd::prelude::*;
use vstd::string::StrSliceExecFns;

verus! {

/// The filename extension of a slash-separated template identifier: the
/// characters after the last `.` of the final path segment, if that
/// segment holds a `.` at all.
pub open spec fn spec_extension_of(name: Seq<char>) -> Option<Seq<char>>
    decreases name.len(),
{
    if name.len() == 0 {
        None
    } else if name.last() == '.' {
        Some(Seq::<char>::empty())
    } else if name.last() == '/' {
        None
    } else {
        match spec_extension_of(name.drop_last()) {
            Some(ext) => Some(ext.push(name.last())),
            None => None,
        }
    }
}

/// Extracts the filename extension of a template identifier, as
/// `spec_extension_of` defines it.
pub fn template_extension(name: &str) -> (r: Option<&str>)
    ensures
        match r {
            Some(ext) => spec_extension_of(name@) == Some(ext@),
            None => spec_extension_of(name@) is None,
        },
{
    let n: usize = name.unicode_len();
    let mut last_dot: Option<usize> = None;
    let mut i: usize = 0;
    while i < n
        invariant
            i <= n,
            n == name@.len(),
            match last_dot {
                Some(d) => d < i && spec_extension_of(name@.take(i as int)) == Some(
                    name@.subrange(d + 1, i as int),
                ),
                None => spec_extension_of(name@.take(i as int)) is None,
            },
        decreases n - i,
    {
        let c = name.get_char(i);
        proof {
            assert(name@.take(i + 1).drop_last() =~= name@.take(i as int));
            assert(name@.take(i + 1).last() == c);
        }
        if c == '.' {
            proof {
                assert(name@.subrange(i + 1, i + 1) =~= Seq::<char>::empty());
            }
            last_dot = Some(i);
        } else if c == '/' {
            last_dot = None;
        } else {
            proof {
                if let Some(d) = last_dot {
                    assert(name@.subrange(d + 1, i as int).push(c) =~= name@.subrange(
                        d + 1,
                        i + 1,
                    ));
                }
            }
        }
        i = i + 1;
    }
    proof {
        assert(name@.take(n as int) =~= name@);
    }
    match last_dot {
        Some(d) => Some(name.substring_char(d + 1, n)),
        None => None,
    }
}

} // verus!
