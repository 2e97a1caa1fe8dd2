use vstd::prelude::*;
use vstd::string::*;
use vstd::std_specs::iter::IteratorSpec;

verus! {

/// Whether `r` is the integer square root of `n`.
pub open spec fn is_isqrt(n: nat, r: nat) -> bool {
    r * r <= n && n < (r + 1) * (r + 1)
}

/// The integer square root of `n`: the largest `r` with `r * r <= n`.
pub open spec fn isqrt(n: nat) -> nat {
    choose|r: nat| is_isqrt(n, r)
}

/// No two numbers are both the integer square root of `n`.
pub proof fn lemma_isqrt_unique(n: nat, r: nat, s: nat)
    requires
        is_isqrt(n, r),
        is_isqrt(n, s),
    ensures
        r == s,
{
    if r < s {
        assert((r + 1) * (r + 1) <= s * s) by (nonlinear_arith)
            requires
                r + 1 <= s,
        ;
    } else if s < r {
        assert((s + 1) * (s + 1) <= r * r) by (nonlinear_arith)
            requires
                s + 1 <= r,
        ;
    }
}

/// The integer square root of a `u32`, as `u32::isqrt` gives it.
pub fn isqrt_u32(n: u32) -> (r: u32)
    ensures
        r == isqrt(n as nat),
{
    let mut lo: u64 = 0;
    let mut hi: u64 = 65536;
    assert(n < 65536 * 65536);
    while hi - lo > 1
        invariant
            lo < hi <= 65536,
            lo * lo <= n,
            n < hi * hi,
        decreases hi - lo,
    {
        let mid: u64 = lo + (hi - lo) / 2;
        assert(mid * mid <= 65536 * 65536) by (nonlinear_arith)
            requires
                mid <= 65536,
        ;
        if mid * mid <= n as u64 {
            lo = mid;
        } else {
            hi = mid;
        }
    }
    proof {
        assert(is_isqrt(n as nat, lo as nat));
        let c = isqrt(n as nat);
        assert(is_isqrt(n as nat, c));
        lemma_isqrt_unique(n as nat, lo as nat, c);
    }
    lo as u32
}

/// Lines of a reserves file of a complete default run: a header, the
/// initial row, one row per slot and the final row.
pub const RESERVES_FILE_LINES: usize = 2003;

/// A reserves file is valid when it has exactly the expected lines and none
/// of them is blank.
pub fn reserves_file_ok(total: usize, blank: usize) -> (r: bool)
    ensures
        r == (total == RESERVES_FILE_LINES && blank == 0),
{
    total == RESERVES_FILE_LINES && blank == 0
}

/// The least number of lines of the swap file of a run with `users` users:
/// a thousand for each user beyond a small allowance, the allowance being
/// the eighth root of the count rounded down, and at least one.
pub open spec fn min_compute_lines(users: nat) -> int {
    let root = isqrt(isqrt(isqrt(users)));
    1000 * (users - if root < 1 { 1 } else { root })
}

/// The eighth root of a count, rounded down, is at most the count.
proof fn lemma_isqrt_le(n: nat)
    ensures
        isqrt(n) <= n,
{
    let r = isqrt(n);
    if !is_isqrt(n, r) {
        // `n` has a root, so the choice is one.
        assert(false) by {
            let w = isqrt_witness(n);
            assert(is_isqrt(n, w));
        }
    }
    if r > n {
        assert(r * r > n) by (nonlinear_arith)
            requires
                r > n,
        ;
    }
}

/// Every number has an integer square root.
proof fn isqrt_witness(n: nat) -> (r: nat)
    ensures
        is_isqrt(n, r),
    decreases n,
{
    if n == 0 {
        assert(is_isqrt(0, 0)) by (nonlinear_arith);
        0
    } else {
        let p = isqrt_witness((n - 1) as nat);
        if (p + 1) * (p + 1) <= n {
            assert(is_isqrt(n, p + 1)) by (nonlinear_arith)
                requires
                    n - 1 < (p + 1) * (p + 1),
                    (p + 1) * (p + 1) <= n,
            ;
            p + 1
        } else {
            assert(is_isqrt(n, p)) by (nonlinear_arith)
                requires
                    p * p <= n - 1,
                    n < (p + 1) * (p + 1),
            ;
            p
        }
    }
}

/// The least line count of the swap file for `users` users.
pub fn min_compute_lines_for(users: u32) -> (r: usize)
    requires
        users >= 1,
        min_compute_lines(users as nat) <= usize::MAX,
    ensures
        r == min_compute_lines(users as nat),
{
    let root = isqrt_u32(isqrt_u32(isqrt_u32(users)));
    let allowance: u32 = if root < 1 {
        1
    } else {
        root
    };
    proof {
        lemma_isqrt_le(users as nat);
        lemma_isqrt_le(isqrt(users as nat));
        lemma_isqrt_le(isqrt(isqrt(users as nat)));
    }
    let beyond: u32 = users - allowance;
    assert(1000 * beyond <= usize::MAX);
    1000 * (beyond as usize)
}

/// A swap file is valid when it has at least the least line count.
pub fn compute_file_ok(users: u32, total: usize) -> (r: bool)
    requires
        users >= 1,
        min_compute_lines(users as nat) <= usize::MAX,
    ensures
        r == (total >= min_compute_lines(users as nat)),
{
    total >= min_compute_lines_for(users)
}

/// A character with the Unicode White_Space property, the characters that
/// `char::is_whitespace` accepts and `str::trim` removes.
pub open spec fn is_white_space(c: char) -> bool {
    let u = c as u32;
    (0x9 <= u <= 0xd) || u == 0x20 || u == 0x85 || u == 0xa0 || u == 0x1680 || (0x2000 <= u
        <= 0x200a) || u == 0x2028 || u == 0x2029 || u == 0x202f || u == 0x205f || u == 0x3000
}

/// Whether `c` has the Unicode White_Space property.
pub fn white_space(c: char) -> (r: bool)
    ensures
        r == is_white_space(c),
{
    let u = c as u32;
    (0x9 <= u && u <= 0xd) || u == 0x20 || u == 0x85 || u == 0xa0 || u == 0x1680 || (0x2000 <= u
        && u <= 0x200a) || u == 0x2028 || u == 0x2029 || u == 0x202f || u == 0x205f || u == 0x3000
}

/// A line that holds nothing but white space once trimmed.
pub open spec fn is_blank(line: Seq<char>) -> bool {
    forall|j: int| 0 <= j < line.len() ==> is_white_space(#[trigger] line[j])
}

/// The pieces of `text` between its newlines: one more than there are
/// newlines.
pub open spec fn segments(text: Seq<char>) -> Seq<Seq<char>>
    decreases text.len(),
{
    if text.len() == 0 {
        seq![Seq::empty()]
    } else {
        let g = segments(text.drop_last());
        if text.last() == '\n' {
            g.push(Seq::empty())
        } else {
            g.update(g.len() - 1, g.last().push(text.last()))
        }
    }
}

/// The lines of `text` as `BufRead::lines` reads them: the pieces between
/// newlines, without the empty piece after a final newline (a line keeps a
/// `'\r'` before its newline here; that changes no count below, `'\r'`
/// being white space).
pub open spec fn text_lines(text: Seq<char>) -> Seq<Seq<char>> {
    let g = segments(text);
    if g.last().len() == 0 {
        g.drop_last()
    } else {
        g
    }
}

/// How many of `lines` are blank.
pub open spec fn count_blank(lines: Seq<Seq<char>>) -> nat
    decreases lines.len(),
{
    if lines.len() == 0 {
        0
    } else {
        count_blank(lines.drop_last()) + if is_blank(lines.last()) {
            1nat
        } else {
            0nat
        }
    }
}

/// The number of lines of `text` and the number of them that are blank.
pub fn count_lines(text: &str) -> (r: (usize, usize))
    requires
        text@.len() <= usize::MAX,
    ensures
        r.0 == text_lines(text@).len(),
        r.1 == count_blank(text_lines(text@)),
        r.1 <= r.0,
{
    broadcast use axiom_spec_iter, next_postcondition;

    let mut chars = text.chars();
    let ghost mut seen: Seq<char> = Seq::empty();
    let mut done: usize = 0;
    let mut done_blank: usize = 0;
    let mut current: usize = 0;
    let mut current_blank: bool = true;
    assert(seen + chars.remaining() =~= text@);
    loop
        invariant
            seen + chars.remaining() == text@,
            text@.len() <= usize::MAX,
            segments(seen).len() >= 1,
            done == segments(seen).len() - 1,
            done_blank == count_blank(segments(seen).drop_last()),
            current == segments(seen).last().len(),
            current_blank == is_blank(segments(seen).last()),
            done_blank <= done,
            done + current <= seen.len(),
        ensures
            seen == text@,
            segments(seen).len() >= 1,
            done == segments(seen).len() - 1,
            done_blank == count_blank(segments(seen).drop_last()),
            current == segments(seen).last().len(),
            current_blank == is_blank(segments(seen).last()),
            done_blank <= done,
        decreases text@.len() - seen.len(),
    {
        let ghost before = chars;
        match chars.next() {
            Some(c) => {
                let ghost g = segments(seen);
                let ghost next = seen.push(c);
                assert(next.drop_last() =~= seen);
                assert(next.last() == c);
                assert(next + chars.remaining() =~= text@) by {
                    assert(before.remaining() =~= seq![c] + chars.remaining());
                }
                if c == '\n' {
                    assert(segments(next) == g.push(Seq::empty()));
                    assert(segments(next).drop_last() =~= g);
                    assert(g =~= g.drop_last().push(g.last()));
                    if current_blank {
                        done_blank = done_blank + 1;
                    }
                    done = done + 1;
                    current = 0;
                    current_blank = true;
                    assert(is_blank(segments(next).last()));
                } else {
                    let ghost line = g.last().push(c);
                    assert(segments(next) == g.update(g.len() - 1, line));
                    assert(segments(next).drop_last() =~= g.drop_last());
                    assert(is_blank(line) == (is_blank(g.last()) && is_white_space(c))) by {
                        if is_blank(g.last()) && is_white_space(c) {
                            assert forall|j: int| 0 <= j < line.len() implies is_white_space(
                                #[trigger] line[j],
                            ) by {
                                if j < g.last().len() {
                                    assert(line[j] == g.last()[j]);
                                }
                            }
                        }
                        if is_blank(line) {
                            assert(line[line.len() - 1] == c);
                            assert forall|j: int| 0 <= j < g.last().len() implies is_white_space(
                                #[trigger] g.last()[j],
                            ) by {
                                assert(line[j] == g.last()[j]);
                            }
                        }
                    }
                    current_blank = current_blank && white_space(c);
                    current = current + 1;
                }
                proof {
                    seen = next;
                }
            },
            None => {
                assert(chars.remaining().len() == 0);
                assert(seen =~= text@);
                break ;
            },
        }
    }
    let g = Ghost(segments(seen));
    if current > 0 {
        proof {
            assert(g@ =~= g@.drop_last().push(g@.last()));
            assert(g@.drop_last() =~= text_lines(text@).drop_last());
        }
        if current_blank {
            (done + 1, done_blank + 1)
        } else {
            (done + 1, done_blank)
        }
    } else {
        (done, done_blank)
    }
}

/// The extension of the simulation's output files.
pub open spec fn csv_extension() -> Seq<char> {
    seq!['.', 'c', 's', 'v']
}

/// Whether `name` ends with `.csv`.
pub open spec fn has_csv_extension(name: Seq<char>) -> bool {
    name.len() >= 4 && name.subrange(name.len() - 4, name.len() as int) == csv_extension()
}

/// The path of a companion file: `base` without its `.csv` extension, if
/// it has one, then `suffix`, then `.csv`.
pub open spec fn companion_csv_path(base: Seq<char>, suffix: Seq<char>) -> Seq<char> {
    let stem = if has_csv_extension(base) {
        base.subrange(0, base.len() - 4)
    } else {
        base
    };
    stem + suffix + csv_extension()
}

/// The path of the file that goes beside the CSV file `base`, told apart
/// by `suffix`.
pub fn derive_compute_csv_path(base: &str, suffix: &str) -> (r: String)
    ensures
        r@ == companion_csv_path(base@, suffix@),
{
    let n = base.unicode_len();
    let has_extension = n >= 4 && base.get_char(n - 4) == '.' && base.get_char(n - 3) == 'c'
        && base.get_char(n - 2) == 's' && base.get_char(n - 1) == 'v';
    proof {
        if n >= 4 {
            let tail = base@.subrange(n - 4, n as int);
            assert(has_extension ==> tail =~= csv_extension());
            assert(tail == csv_extension() ==> {
                &&& tail[0] == base@[n - 4]
                &&& tail[1] == base@[n - 3]
                &&& tail[2] == base@[n - 2]
                &&& tail[3] == base@[n - 1]
            });
        }
    }
    let stem = if has_extension {
        base.substring_char(0, n - 4)
    } else {
        base
    };
    let mut path = String::from_str(stem);
    path.append(suffix);
    let extension = ".csv";
    proof {
        reveal_strlit(".csv");
        assert(extension@ =~= csv_extension());
    }
    path.append(extension);
    path
}

} // verus!
