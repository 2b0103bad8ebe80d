//! Presentation helpers (permission strings, human-readable sizes) and the
//! duplicate-path validation that every encode operation runs first.

use vstd::prelude::*;
use vstd::arithmetic::div_mod::lemma_fundamental_div_mod;
use vstd::arithmetic::mul::lemma_mul_inequality;
use crate::error::{ArchiveError, ArchiveErrorV};
use crate::types::File;

verus! {

/// The `rwx` rendering of one three-bit permission group.
pub open spec fn rwx_of(bits: u32) -> Seq<char> {
    if bits == 0 {
        "---"@
    } else if bits == 1 {
        "--x"@
    } else if bits == 2 {
        "-w-"@
    } else if bits == 3 {
        "-wx"@
    } else if bits == 4 {
        "r--"@
    } else if bits == 5 {
        "r-x"@
    } else if bits == 6 {
        "rw-"@
    } else {
        "rwx"@
    }
}

/// The ten-character permission string for a mode in `0..=0o777`.
pub open spec fn mode_string_of(mode: u32, is_dir: bool) -> Seq<char> {
    (if is_dir {
        "d"@
    } else {
        "-"@
    }) + rwx_of((mode >> 6) & 7) + rwx_of((mode >> 3) & 7) + rwx_of(mode & 7)
}

fn rwx_str(bits: u32) -> (r: &'static str)
    requires
        bits < 8,
    ensures
        r@ == rwx_of(bits),
{
    if bits == 0 {
        "---"
    } else if bits == 1 {
        "--x"
    } else if bits == 2 {
        "-w-"
    } else if bits == 3 {
        "-wx"
    } else if bits == 4 {
        "r--"
    } else if bits == 5 {
        "r-x"
    } else if bits == 6 {
        "rw-"
    } else {
        "rwx"
    }
}

/// Renders a Unix mode as a permission string such as `drwxr-xr-x`.
///
/// A mode outside `0..=0o777` is rejected with `None`, never silently
/// truncated to its low bits.
pub fn mode_to_string(mode: u32, is_dir: bool) -> (r: Option<String>)
    ensures
        mode > 0o777 ==> r is None,
        mode <= 0o777 ==> (r matches Some(s) && s@ == mode_string_of(mode, is_dir)),
{
    if mode > 0o777 {
        return None;
    }
    proof {
        assert((mode >> 6) & 7 < 8 && (mode >> 3) & 7 < 8 && mode & 7 < 8) by (bit_vector);
    }
    let d = if is_dir {
        "d"
    } else {
        "-"
    };
    let mut s = String::from_str(d);
    s.append(rwx_str((mode >> 6) & 7));
    s.append(rwx_str((mode >> 3) & 7));
    s.append(rwx_str(mode & 7));
    Some(s)
}

/// `1024` to the power `e`.
pub open spec fn pow1024(e: nat) -> nat
    decreases e,
{
    if e == 0 {
        1
    } else {
        1024 * pow1024((e - 1) as nat)
    }
}

/// The scale on which `b` bytes are reported: the largest `e` with
/// `pow1024(e) <= b`.
pub open spec fn size_exponent(b: nat) -> nat
    decreases b,
{
    if b < 1024 {
        0
    } else {
        1 + size_exponent(b / 1024)
    }
}

/// The digit character for `d` in `0..=9`.
pub open spec fn digit_char(d: nat) -> char {
    if d == 0 {
        '0'
    } else if d == 1 {
        '1'
    } else if d == 2 {
        '2'
    } else if d == 3 {
        '3'
    } else if d == 4 {
        '4'
    } else if d == 5 {
        '5'
    } else if d == 6 {
        '6'
    } else if d == 7 {
        '7'
    } else if d == 8 {
        '8'
    } else {
        '9'
    }
}

/// The decimal rendering of `n`.
pub open spec fn dec_digits(n: nat) -> Seq<char>
    decreases n,
{
    if n < 10 {
        seq![digit_char(n)]
    } else {
        dec_digits(n / 10) + seq![digit_char(n % 10)]
    }
}

/// The unit letter for scale `e`; bytes up to a 64-bit count never pass `E`.
pub open spec fn unit_of(e: nat) -> Seq<char> {
    if e == 0 {
        ""@
    } else if e == 1 {
        "K"@
    } else if e == 2 {
        "M"@
    } else if e == 3 {
        "G"@
    } else if e == 4 {
        "T"@
    } else if e == 5 {
        "P"@
    } else {
        "E"@
    }
}

/// The human-readable rendering of a byte count: the count scaled to the
/// largest fitting power of 1024, rounded to one decimal place — a half
/// rounds up, a deliberate fixed tie rule — with a trailing `.0` dropped,
/// followed by the unit letter.
pub open spec fn human_size_of(b: nat) -> Seq<char> {
    if b == 0 {
        "0"@
    } else {
        let e = size_exponent(b);
        let t = (10 * b + pow1024(e) / 2) / pow1024(e);
        if t % 10 == 0 {
            dec_digits(t / 10) + unit_of(e)
        } else {
            dec_digits(t / 10) + "."@ + dec_digits(t % 10) + unit_of(e)
        }
    }
}

fn digit_str(d: u32) -> (r: &'static str)
    requires
        d < 10,
    ensures
        r@ == seq![digit_char(d as nat)],
{
    proof {
        reveal_strlit("0");
        reveal_strlit("1");
        reveal_strlit("2");
        reveal_strlit("3");
        reveal_strlit("4");
        reveal_strlit("5");
        reveal_strlit("6");
        reveal_strlit("7");
        reveal_strlit("8");
        reveal_strlit("9");
    }
    let r = if d == 0 {
        "0"
    } else if d == 1 {
        "1"
    } else if d == 2 {
        "2"
    } else if d == 3 {
        "3"
    } else if d == 4 {
        "4"
    } else if d == 5 {
        "5"
    } else if d == 6 {
        "6"
    } else if d == 7 {
        "7"
    } else if d == 8 {
        "8"
    } else {
        "9"
    };
    proof {
        assert(r@ =~= seq![digit_char(d as nat)]);
    }
    r
}

fn push_digits(n: u32, out: &mut String)
    ensures
        final(out)@ == old(out)@ + dec_digits(n as nat),
    decreases n,
{
    if n < 10 {
        out.append(digit_str(n));
    } else {
        push_digits(n / 10, out);
        out.append(digit_str(n % 10));
    }
}

fn unit_str(e: u32) -> (r: &'static str)
    requires
        e <= 6,
    ensures
        r@ == unit_of(e as nat),
{
    if e == 0 {
        ""
    } else if e == 1 {
        "K"
    } else if e == 2 {
        "M"
    } else if e == 3 {
        "G"
    } else if e == 4 {
        "T"
    } else if e == 5 {
        "P"
    } else {
        "E"
    }
}

proof fn lemma_pow1024_big(e: nat)
    ensures
        e >= 7 ==> pow1024(e) > 0xFFFF_FFFF_FFFF_FFFFnat,
    decreases e,
{
    if e == 7 {
        assert(pow1024(7) > 0xFFFF_FFFF_FFFF_FFFFnat) by {
            reveal_with_fuel(pow1024, 8);
        }
    } else if e > 7 {
        lemma_pow1024_big((e - 1) as nat);
        assert(pow1024(e) == 1024 * pow1024((e - 1) as nat));
        assert(1024 * pow1024((e - 1) as nat) >= pow1024((e - 1) as nat)) by (nonlinear_arith);
    }
}

/// Renders a byte count in human-readable form, e.g. `1.5K` or `3M`.
pub fn human_size(bytes: usize) -> (r: String)
    ensures
        r@ == human_size_of(bytes as nat),
{
    if bytes == 0 {
        return String::from_str("0");
    }
    let b: u64 = bytes as u64;
    let mut e: u32 = 0;
    let mut pow: u64 = 1;
    let mut cur: u64 = b;
    proof {
        assert(b as nat == bytes as nat);
    }
    while cur >= 1024
        invariant
            b == bytes as u64,
            b >= 1,
            pow as nat == pow1024(e as nat),
            pow >= 1,
            pow <= b,
            cur as nat == b as nat / pow as nat,
            size_exponent(b as nat) == e as nat + size_exponent(cur as nat),
        decreases cur,
    {
        proof {
            lemma_pow1024_big(e as nat);
            assert(e <= 6);
            lemma_fundamental_div_mod(b as int, pow as int);
            lemma_mul_inequality(1024, cur as int, pow as int);
            assert(1024 * (pow as int) <= (cur as int) * (pow as int));
            assert(b as int >= (pow as int) * (cur as int));
            assert((b as nat / pow as nat) / 1024 == b as nat / ((pow * 1024) as nat)) by {
                vstd::arithmetic::div_mod::lemma_div_denominator(
                    b as int,
                    pow as int,
                    1024,
                );
            }
        }
        pow = pow * 1024;
        e = e + 1;
        cur = cur / 1024;
    }
    proof {
        lemma_pow1024_big(e as nat);
        lemma_fundamental_div_mod(b as int, pow as int);
        assert(e <= 6);
    }
    let p: u128 = pow as u128;
    let big: u128 = 10 * (bytes as u128) + p / 2;
    proof {
        // b < 1024 * pow, hence the scaled value stays below 10241 * pow.
        lemma_fundamental_div_mod(b as int, pow as int);
        vstd::arithmetic::div_mod::lemma_mod_bound(b as int, pow as int);
        assert(b as int == (pow as int) * (cur as int) + (b as int) % (pow as int));
        assert(cur <= 1023);
        lemma_mul_inequality(cur as int, 1023, pow as int);
        assert((cur as int) * (pow as int) == (pow as int) * (cur as int)) by (nonlinear_arith);
        assert((b as int) % (pow as int) < (pow as int));
        assert((b as int) <= 1023 * (pow as int) + (b as int) % (pow as int));
        assert((b as int) < 1024 * (pow as int));
        assert((big as int) < 10241 * (p as int));
        assert((big as int) / (p as int) < 10241) by {
            lemma_fundamental_div_mod(big as int, p as int);
            if (big as int) / (p as int) >= 10241 {
                lemma_mul_inequality(10241, (big as int) / (p as int), p as int);
            }
        }
    }
    let t128: u128 = big / p;
    let t: u32 = t128 as u32;
    let mut r = String::new();
    push_digits(t / 10, &mut r);
    if t % 10 != 0 {
        r.append(".");
        push_digits(t % 10, &mut r);
    }
    r.append(unit_str(e));
    r
}

/// The sequence of member paths of `files`, in order.
pub open spec fn path_views(files: Seq<File>) -> Seq<Seq<char>> {
    files.map_values(|f: File| f.path@)
}

/// The member paths seen through `file_views` are the member paths
/// themselves.
pub proof fn lemma_paths_of_views(files: Seq<File>)
    ensures
        crate::types::paths_of(crate::types::file_views(files)) == path_views(files),
{
    assert(crate::types::paths_of(crate::types::file_views(files)) =~= path_views(files));
}

/// The paths that repeat an earlier path, in order of their later occurrence;
/// a path present `k` times contributes `k - 1` elements.
pub open spec fn dup_list(paths: Seq<Seq<char>>) -> Seq<Seq<char>>
    decreases paths.len(),
{
    if paths.len() == 0 {
        Seq::empty()
    } else if paths.drop_last().contains(paths.last()) {
        dup_list(paths.drop_last()).push(paths.last())
    } else {
        dup_list(paths.drop_last())
    }
}

/// Duplicate rejection is exact: the duplicate list is empty precisely when
/// the paths are pairwise distinct. Together with the encode contracts, this
/// says an encode fails with `DuplicateFiles` if and only if two entries
/// share a path.
pub proof fn lemma_duplicates_iff(paths: Seq<Seq<char>>)
    ensures
        dup_list(paths).len() == 0 <==> (forall|i: int, j: int|
            0 <= i < j < paths.len() ==> paths[i] != paths[j]),
    decreases paths.len(),
{
    if paths.len() == 0 {
    } else {
        let dl = paths.drop_last();
        let last = paths.last();
        lemma_duplicates_iff(dl);
        if dup_list(paths).len() == 0 {
            assert(dup_list(dl).len() == 0);
            assert(!dl.contains(last));
            assert forall|i: int, j: int| 0 <= i < j < paths.len() implies paths[i]
                != paths[j] by {
                if j < paths.len() - 1 {
                    assert(dl[i] == paths[i] && dl[j] == paths[j]);
                } else {
                    if paths[i] == last {
                        assert(dl[i] == last);
                        assert(dl.contains(last));
                    }
                }
            }
        } else {
            if dup_list(dl).len() > 0 {
                let (i, j) = choose|i: int, j: int|
                    0 <= i < j < dl.len() && dl[i] == dl[j];
                assert(paths[i] == paths[j]);
            } else {
                assert(dl.contains(last));
                let w = choose|w: int| 0 <= w < dl.len() && dl[w] == last;
                assert(paths[w] == paths[paths.len() - 1]);
            }
        }
    }
}

/// How many times `x` occurs in `s`.
pub open spec fn occurrences(s: Seq<Seq<char>>, x: Seq<char>) -> nat
    decreases s.len(),
{
    if s.len() == 0 {
        0
    } else {
        occurrences(s.drop_last(), x) + (if s.last() == x {
            1nat
        } else {
            0nat
        })
    }
}

/// A path occurs in a sequence exactly when it occurs a positive number of
/// times.
pub proof fn lemma_occurrences_contains(s: Seq<Seq<char>>, x: Seq<char>)
    ensures
        s.contains(x) <==> occurrences(s, x) > 0,
    decreases s.len(),
{
    if s.len() > 0 {
        lemma_occurrences_contains(s.drop_last(), x);
        if s.contains(x) && s.last() != x {
            let w = choose|w: int| 0 <= w < s.len() && s[w] == x;
            assert(s.drop_last()[w] == x);
        }
        if s.drop_last().contains(x) {
            let w = choose|w: int| 0 <= w < s.len() - 1 && s.drop_last()[w] == x;
            assert(s[w] == x);
        }
    }
}

/// Duplicates are reported with exact multiplicity: a path present `k > 0`
/// times appears `k - 1` times in the duplicate list, and an absent path not
/// at all.
pub proof fn lemma_duplicate_multiplicity(paths: Seq<Seq<char>>, x: Seq<char>)
    ensures
        occurrences(paths, x) > 0 ==> occurrences(dup_list(paths), x) == occurrences(paths, x)
            - 1,
        occurrences(paths, x) == 0 ==> occurrences(dup_list(paths), x) == 0,
    decreases paths.len(),
{
    if paths.len() > 0 {
        let dl = paths.drop_last();
        let l = paths.last();
        lemma_duplicate_multiplicity(dl, x);
        lemma_occurrences_contains(dl, l);
        lemma_occurrences_contains(dl, x);
        if dl.contains(l) {
            assert(dup_list(paths) == dup_list(dl).push(l));
            assert(dup_list(dl).push(l).drop_last() =~= dup_list(dl));
            assert(dup_list(dl).push(l).last() == l);
        } else {
            assert(dup_list(paths) == dup_list(dl));
        }
    }
}

/// Scans `files` for entries that share a path.
///
/// Returns `Ok(())` exactly when all paths are pairwise distinct; otherwise
/// every repeated occurrence is reported in one `DuplicateFiles` error.
pub fn check_duplicate_files(files: &Vec<File>) -> (r: Result<(), ArchiveError>)
    ensures
        match r {
            Ok(_) => dup_list(path_views(files@)).len() == 0,
            Err(e) => dup_list(path_views(files@)).len() > 0 && e@ == (ArchiveErrorV::DuplicateFiles {
                paths: dup_list(path_views(files@)),
            }),
        },
{
    let n = files.len();
    let mut duplicates: Vec<String> = Vec::new();
    for i in 0..n
        invariant
            n == files@.len(),
            duplicates@.map_values(|p: String| p@) =~= dup_list(path_views(files@).take(i as int)),
    {
        let mut seen_before = false;
        for j in 0..i
            invariant
                i < n,
                n == files@.len(),
                seen_before == path_views(files@).take(i as int).subrange(0, j as int).contains(
                    files@[i as int].path@,
                ),
        {
            proof {
                let pre = path_views(files@).take(i as int);
                assert(pre.subrange(0, j + 1).drop_last() =~= pre.subrange(0, j as int));
                assert(pre.subrange(0, j + 1).last() == files@[j as int].path@);
            }
            if str_eq_strings(&files[j].path, &files[i].path) {
                seen_before = true;
            }
            proof {
                let pre = path_views(files@).take(i as int);
                if seen_before && !pre.subrange(0, j as int).contains(files@[i as int].path@)
                    && files@[j as int].path@ != files@[i as int].path@ {
                    assert(false);
                }
                if pre.subrange(0, j as int).contains(files@[i as int].path@) {
                    let w = choose|w: int|
                        0 <= w < j && pre.subrange(0, j as int)[w] == files@[i as int].path@;
                    assert(pre.subrange(0, j + 1)[w] == files@[i as int].path@);
                }
            }
        }
        proof {
            let pre = path_views(files@).take(i as int);
            assert(pre.subrange(0, i as int) =~= pre);
            assert(path_views(files@).take(i + 1).drop_last() =~= pre);
            assert(path_views(files@).take(i + 1).last() == files@[i as int].path@);
        }
        if seen_before {
            duplicates.push(files[i].path.clone());
        }
    }
    proof {
        assert(path_views(files@).take(n as int) =~= path_views(files@));
    }
    if duplicates.len() == 0 {
        Ok(())
    } else {
        Err(ArchiveError::DuplicateFiles { paths: duplicates })
    }
}

fn str_eq_strings(a: &String, b: &String) -> (r: bool)
    ensures
        r == (a@ == b@),
{
    crate::strutil::str_eq(a.as_str(), b.as_str())
}

} // verus!
