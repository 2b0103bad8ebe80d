//! Lexical path normalization. `clean` collapses repeated separators and `.`
//! segments, resolves `..` against preceding segments where possible, and
//! finally turns every backslash into a forward slash. It is purely
//! syntactic: no filesystem is consulted, and nothing keeps the result inside
//! any root.

use vstd::prelude::*;

verus! {

/// The segments of `s[start..]` when `s` is split at every `/`, with the scan
/// standing at `i`; `start` is the beginning of the current segment.
pub open spec fn split_slash_rec(s: Seq<char>, start: int, i: int) -> Seq<Seq<char>>
    decreases s.len() - i,
{
    if i >= s.len() || i < 0 {
        seq![s.subrange(start, s.len() as int)]
    } else if s[i] == '/' {
        seq![s.subrange(start, i)] + split_slash_rec(s, i + 1, i + 1)
    } else {
        split_slash_rec(s, start, i + 1)
    }
}

/// The segments of `s` between its `/` separators; empty segments are kept.
pub open spec fn split_slash(s: Seq<char>) -> Seq<Seq<char>> {
    split_slash_rec(s, 0, 0)
}

/// Is `seg` the current-directory segment `.`?
pub open spec fn is_dot(seg: Seq<char>) -> bool {
    seg == seq!['.']
}

/// Is `seg` the parent-directory segment `..`?
pub open spec fn is_dotdot(seg: Seq<char>) -> bool {
    seg == seq!['.', '.']
}

/// One segment folded against the stack `out`: empty and `.` segments
/// vanish, `..` pops a preceding normal segment, cannot climb above the root
/// of a rooted path, and is kept at the head of an unrooted path.
pub open spec fn step_seg(out: Seq<Seq<char>>, seg: Seq<char>, rooted: bool) -> Seq<Seq<char>> {
    if seg.len() == 0 || is_dot(seg) {
        out
    } else if is_dotdot(seg) {
        if out.len() > 0 {
            if is_dotdot(out.last()) {
                out.push(seg)
            } else {
                out.drop_last()
            }
        } else if rooted {
            out
        } else {
            out.push(seg)
        }
    } else {
        out.push(seg)
    }
}

/// All segments folded left to right through [`step_seg`].
pub open spec fn process_segs(segs: Seq<Seq<char>>, rooted: bool) -> Seq<Seq<char>>
    decreases segs.len(),
{
    if segs.len() == 0 {
        Seq::empty()
    } else {
        step_seg(process_segs(segs.drop_last(), rooted), segs.last(), rooted)
    }
}

/// The segments joined by single `/` separators.
pub open spec fn join_slash(segs: Seq<Seq<char>>) -> Seq<char>
    decreases segs.len(),
{
    if segs.len() == 0 {
        Seq::empty()
    } else if segs.len() == 1 {
        segs[0]
    } else {
        join_slash(segs.drop_last()) + seq!['/'] + segs.last()
    }
}

/// The cleaned path rendered as text: rooted paths keep their leading `/`,
/// and an empty unrooted result is the current directory `.`.
pub open spec fn render_path(out: Seq<Seq<char>>, rooted: bool) -> Seq<char> {
    if rooted {
        seq!['/'] + join_slash(out)
    } else if out.len() == 0 {
        seq!['.']
    } else {
        join_slash(out)
    }
}

/// Every backslash replaced by a forward slash.
pub open spec fn slashify(s: Seq<char>) -> Seq<char> {
    s.map_values(|c: char| if c == '\\' { '/' } else { c })
}

/// The full normalization applied by [`clean`].
pub open spec fn clean_spec(s: Seq<char>) -> Seq<char> {
    let rooted = s.len() > 0 && s[0] == '/';
    slashify(render_path(process_segs(split_slash(s), rooted), rooted))
}

/// The views of a sequence of borrowed string slices.
pub open spec fn views_of_strs<'a>(ts: Seq<&'a str>) -> Seq<Seq<char>> {
    ts.map_values(|t: &'a str| t@)
}

proof fn lemma_process_push(segs: Seq<Seq<char>>, seg: Seq<char>, rooted: bool)
    ensures
        process_segs(segs.push(seg), rooted) == step_seg(process_segs(segs, rooted), seg, rooted),
{
    assert(segs.push(seg).drop_last() =~= segs);
    assert(segs.push(seg).last() == seg);
}

/// One fold step of [`process_segs`] applied to the stack `out`.
fn apply_seg<'a>(out: &mut Vec<&'a str>, seg: &'a str, rooted: bool)
    ensures
        views_of_strs(final(out)@) == step_seg(views_of_strs(old(out)@), seg@, rooted),
{
    let len = seg.unicode_len();
    let empty = len == 0;
    let dot = len == 1 && seg.get_char(0) == '.';
    let dotdot = len == 2 && seg.get_char(0) == '.' && seg.get_char(1) == '.';
    proof {
        if dot {
            assert(seg@ =~= seq!['.']);
        }
        if dotdot {
            assert(seg@ =~= seq!['.', '.']);
        }
        if is_dot(seg@) {
            assert(seg@.len() == 1 && seg@[0] == '.');
        }
        if is_dotdot(seg@) {
            assert(seg@.len() == 2 && seg@[0] == '.' && seg@[1] == '.');
        }
        assert(dot == is_dot(seg@));
        assert(dotdot == is_dotdot(seg@));
        assert(empty == (seg@.len() == 0));
    }
    if empty || dot {
        // nothing enters the stack
    } else if dotdot {
        if out.len() > 0 {
            let last: &str = out[out.len() - 1];
            let llen = last.unicode_len();
            let last_dd = llen == 2 && last.get_char(0) == '.' && last.get_char(1) == '.';
            proof {
                assert(views_of_strs(out@).last() == out@.last()@);
                if last_dd {
                    assert(last@ =~= seq!['.', '.']);
                }
                if is_dotdot(last@) {
                    assert(last@.len() == 2 && last@[0] == '.' && last@[1] == '.');
                }
                assert(last_dd == is_dotdot(out@.last()@));
            }
            if last_dd {
                out.push(seg);
                proof {
                    assert(views_of_strs(out@) =~= views_of_strs(old(out)@).push(seg@));
                }
            } else {
                out.pop();
                proof {
                    assert(views_of_strs(out@) =~= views_of_strs(old(out)@).drop_last());
                }
            }
        } else if rooted {
            // `..` cannot climb above the root
        } else {
            out.push(seg);
            proof {
                assert(views_of_strs(out@) =~= views_of_strs(old(out)@).push(seg@));
            }
        }
    } else {
        out.push(seg);
        proof {
            assert(views_of_strs(out@) =~= views_of_strs(old(out)@).push(seg@));
        }
    }
}

/// Replaces every backslash in `s` by a forward slash.
pub fn slashify_str(s: &str) -> (r: String)
    ensures
        r@ == slashify(s@),
{
    let n = s.unicode_len();
    let mut r = String::new();
    proof {
        reveal_strlit("/");
        assert("/"@ =~= seq!['/']);
        assert(s@.take(0) =~= Seq::<char>::empty());
        assert(r@ =~= slashify(s@.take(0)));
    }
    let mut t: usize = 0;
    while t < n
        invariant
            n == s@.len(),
            t <= n,
            r@ == slashify(s@.take(t as int)),
            "/"@ == seq!['/'],
        decreases n - t,
    {
        let c = s.get_char(t);
        if c == '\\' {
            r.append("/");
        } else {
            r.append(s.substring_char(t, t + 1));
        }
        proof {
            assert(s@.take(t + 1).drop_last() =~= s@.take(t as int));
            assert(s@.take(t + 1).last() == s@[t as int]);
            assert(s@.subrange(t as int, t + 1) =~= seq![s@[t as int]]);
            assert(slashify(s@.take(t + 1)) =~= slashify(s@.take(t as int)).push(
                if s@[t as int] == '\\' {
                    '/'
                } else {
                    s@[t as int]
                },
            ));
        }
        t += 1;
    }
    proof {
        assert(s@.take(n as int) =~= s@);
    }
    r
}

/// Cleans a path lexically and converts backslashes to forward slashes.
pub fn clean(s: &str) -> (r: String)
    ensures
        r@ == clean_spec(s@),
{
    let n = s.unicode_len();
    let rooted = n > 0 && s.get_char(0) == '/';
    let mut out: Vec<&str> = Vec::new();
    let mut start: usize = 0;
    let ghost mut segs: Seq<Seq<char>> = Seq::empty();
    let mut i: usize = 0;
    proof {
        assert(segs + split_slash_rec(s@, 0, 0) =~= split_slash(s@));
        assert(views_of_strs(out@) =~= process_segs(segs, rooted));
    }
    while i < n
        invariant
            n == s@.len(),
            start <= i <= n,
            rooted == (s@.len() > 0 && s@[0] == '/'),
            views_of_strs(out@) == process_segs(segs, rooted),
            split_slash(s@) == segs + split_slash_rec(s@, start as int, i as int),
        decreases n - i,
    {
        if s.get_char(i) == '/' {
            let seg = s.substring_char(start, i);
            proof {
                assert(split_slash_rec(s@, start as int, i as int) == seq![
                    s@.subrange(start as int, i as int),
                ] + split_slash_rec(s@, i + 1, i + 1));
                lemma_process_push(segs, seg@, rooted);
                assert(segs + (seq![seg@] + split_slash_rec(s@, i + 1, i + 1)) =~= segs.push(seg@)
                    + split_slash_rec(s@, i + 1, i + 1));
            }
            apply_seg(&mut out, seg, rooted);
            proof {
                segs = segs.push(seg@);
            }
            start = i + 1;
        } else {
            proof {
                assert(split_slash_rec(s@, start as int, i as int) == split_slash_rec(
                    s@,
                    start as int,
                    i + 1,
                ));
            }
        }
        i += 1;
    }
    let seg = s.substring_char(start, n);
    proof {
        assert(split_slash_rec(s@, start as int, n as int) == seq![
            s@.subrange(start as int, n as int),
        ]);
        lemma_process_push(segs, seg@, rooted);
        assert(segs + seq![seg@] =~= segs.push(seg@));
    }
    apply_seg(&mut out, seg, rooted);
    proof {
        segs = segs.push(seg@);
        assert(segs == split_slash(s@));
        assert(views_of_strs(out@) == process_segs(split_slash(s@), rooted));
    }

    let mut j = String::new();
    proof {
        reveal_strlit("/");
        reveal_strlit(".");
        assert("/"@ =~= seq!['/']);
        assert("."@ =~= seq!['.']);
    }
    if rooted {
        j.append("/");
    }
    let m = out.len();
    if !rooted && m == 0 {
        j.append(".");
        proof {
            assert(j@ =~= seq!['.']);
        }
    } else {
        let ghost prefix: Seq<char> = if rooted {
            seq!['/']
        } else {
            Seq::empty()
        };
        proof {
            assert(j@ =~= prefix + join_slash(views_of_strs(out@).take(0)));
        }
        let mut k: usize = 0;
        while k < m
            invariant
                m == out@.len(),
                k <= m,
                j@ == prefix + join_slash(views_of_strs(out@).take(k as int)),
                rooted ==> prefix == seq!['/'],
                !rooted ==> prefix == Seq::<char>::empty(),
                "/"@ == seq!['/'],
            decreases m - k,
        {
            if k > 0 {
                j.append("/");
            }
            j.append(out[k]);
            proof {
                let views = views_of_strs(out@);
                assert(views.take(k + 1).drop_last() =~= views.take(k as int));
                assert(views.take(k + 1).last() == views[k as int]);
                assert(views[k as int] == out@[k as int]@);
                if k == 0 {
                    assert(join_slash(views.take(1)) == views[0]);
                }
            }
            k += 1;
        }
        proof {
            assert(views_of_strs(out@).take(m as int) =~= views_of_strs(out@));
            if !rooted {
                assert(j@ =~= join_slash(views_of_strs(out@)));
            }
        }
    }
    proof {
        assert(j@ == render_path(process_segs(split_slash(s@), rooted), rooted));
    }

    slashify_str(j.as_str())
}

} // verus!

