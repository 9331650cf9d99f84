//! Semantic versions: parsing of `major.minor.patch` strings and the strict
//! ordering that the migration guard uses.
use vstd::prelude::*;

verus! {

/// A parsed semantic version, ordered component-wise, major first.
#[derive(Clone, Copy, Debug, PartialEq, Eq, Structural)]
pub struct SemVer {
    pub major: u64,
    pub minor: u64,
    pub patch: u64,
}

/// `c` is a decimal digit.
pub open spec fn is_digit(c: char) -> bool {
    48 <= c as int && c as int <= 57
}

/// Numeric value of the digit `c`.
pub open spec fn digit_val(c: char) -> int {
    c as int - 48
}

/// Every character of `s` is a decimal digit.
pub open spec fn all_digits(s: Seq<char>) -> bool {
    forall|i: int| 0 <= i < s.len() ==> is_digit(s[i])
}

/// The number that the digit string `s` denotes in decimal.
pub open spec fn digits_val(s: Seq<char>) -> int
    decreases s.len(),
{
    if s.len() == 0 {
        0
    } else {
        digits_val(s.drop_last()) * 10 + digit_val(s.last())
    }
}

/// Index of the first `'.'` in `s`, or -1 if there is none.
pub open spec fn first_dot(s: Seq<char>) -> int
    decreases s.len(),
{
    if s.len() == 0 {
        -1
    } else if s[0] == '.' {
        0
    } else if first_dot(s.skip(1)) < 0 {
        -1
    } else {
        first_dot(s.skip(1)) + 1
    }
}

/// The version that `s` denotes: three nonempty digit runs separated by two
/// dots, each run's value representable in `u64`; `None` for any other shape.
pub open spec fn spec_parse_semver(s: Seq<char>) -> Option<SemVer> {
    let i = first_dot(s);
    if i < 0 {
        None
    } else {
        let rest = s.skip(i + 1);
        let j = first_dot(rest);
        if j < 0 {
            None
        } else {
            let a = s.subrange(0, i);
            let b = rest.subrange(0, j);
            let c = rest.skip(j + 1);
            if a.len() > 0 && b.len() > 0 && c.len() > 0 && all_digits(a) && all_digits(b)
                && all_digits(c) && digits_val(a) <= u64::MAX && digits_val(b) <= u64::MAX
                && digits_val(c) <= u64::MAX {
                Some(
                    SemVer {
                        major: digits_val(a) as u64,
                        minor: digits_val(b) as u64,
                        patch: digits_val(c) as u64,
                    },
                )
            } else {
                None
            }
        }
    }
}

/// `a` precedes `b`: strictly smaller in the component-wise order.
pub open spec fn spec_semver_lt(a: SemVer, b: SemVer) -> bool {
    ||| a.major < b.major
    ||| (a.major == b.major && a.minor < b.minor)
    ||| (a.major == b.major && a.minor == b.minor && a.patch < b.patch)
}

/// The version string `a` denotes a strictly older version than `b`:
/// both parse, and the parses are strictly ordered.
pub open spec fn spec_version_lt(a: Seq<char>, b: Seq<char>) -> bool {
    match (spec_parse_semver(a), spec_parse_semver(b)) {
        (Some(x), Some(y)) => spec_semver_lt(x, y),
        _ => false,
    }
}

proof fn lemma_first_dot_none(s: Seq<char>)
    requires
        forall|m: int| 0 <= m < s.len() ==> s[m] != '.',
    ensures
        first_dot(s) == -1,
    decreases s.len(),
{
    if s.len() > 0 {
        assert forall|m: int| 0 <= m < s.skip(1).len() implies s.skip(1)[m] != '.' by {
            assert(s.skip(1)[m] == s[m + 1]);
        }
        lemma_first_dot_none(s.skip(1));
    }
}

proof fn lemma_first_dot_at(s: Seq<char>, k: int)
    requires
        0 <= k < s.len(),
        s[k] == '.',
        forall|m: int| 0 <= m < k ==> s[m] != '.',
    ensures
        first_dot(s) == k,
    decreases k,
{
    if k > 0 {
        assert(s[0] != '.');
        assert forall|m: int| 0 <= m < k - 1 implies s.skip(1)[m] != '.' by {
            assert(s.skip(1)[m] == s[m + 1]);
        }
        assert(s.skip(1)[k - 1] == s[k]);
        lemma_first_dot_at(s.skip(1), k - 1);
    }
}

proof fn lemma_digits_val_nonneg(s: Seq<char>)
    requires
        all_digits(s),
    ensures
        0 <= digits_val(s),
    decreases s.len(),
{
    if s.len() > 0 {
        assert forall|i: int| 0 <= i < s.drop_last().len() implies is_digit(s.drop_last()[i]) by {
            assert(s.drop_last()[i] == s[i]);
        }
        lemma_digits_val_nonneg(s.drop_last());
        assert(is_digit(s.last()));
    }
}

proof fn lemma_digits_val_prefix(s: Seq<char>, i: int)
    requires
        all_digits(s),
        0 <= i <= s.len(),
    ensures
        digits_val(s.subrange(0, i)) <= digits_val(s),
    decreases s.len() - i,
{
    if i == s.len() {
        assert(s.subrange(0, i) =~= s);
    } else {
        let longer = s.subrange(0, i + 1);
        let shorter = s.subrange(0, i);
        assert(longer.drop_last() =~= shorter);
        assert(longer.last() == s[i]);
        assert forall|m: int| 0 <= m < shorter.len() implies is_digit(shorter[m]) by {
            assert(shorter[m] == s[m]);
        }
        lemma_digits_val_nonneg(shorter);
        assert(is_digit(s[i]));
        assert(digits_val(longer) == digits_val(shorter) * 10 + digit_val(s[i]));
        lemma_digits_val_prefix(s, i + 1);
    }
}

/// A run of one digit is a digit run, and denotes that digit's value.
pub proof fn lemma_digit_seq_val(c: char)
    requires
        is_digit(c),
    ensures
        all_digits(seq![c]),
        digits_val(seq![c]) == digit_val(c),
{
    let s = seq![c];
    assert(s.drop_last() =~= Seq::<char>::empty());
    assert(digits_val(Seq::<char>::empty()) == 0);
    assert(forall|m: int| 0 <= m < s.len() ==> is_digit(s[m]));
}

/// A string that splits at dot positions `i` and `j` into three nonempty
/// digit runs, each with a `u64`-sized value, parses into exactly those
/// component values.
pub proof fn lemma_parse_semver_split(s: Seq<char>, i: int, j: int)
    requires
        0 < i,
        i + 1 < j,
        j + 1 < s.len(),
        s[i] == '.',
        s[j] == '.',
        all_digits(s.subrange(0, i)),
        all_digits(s.subrange(i + 1, j)),
        all_digits(s.subrange(j + 1, s.len() as int)),
        digits_val(s.subrange(0, i)) <= u64::MAX,
        digits_val(s.subrange(i + 1, j)) <= u64::MAX,
        digits_val(s.subrange(j + 1, s.len() as int)) <= u64::MAX,
    ensures
        spec_parse_semver(s) == Some(
            SemVer {
                major: digits_val(s.subrange(0, i)) as u64,
                minor: digits_val(s.subrange(i + 1, j)) as u64,
                patch: digits_val(s.subrange(j + 1, s.len() as int)) as u64,
            },
        ),
{
    assert forall|m: int| 0 <= m < i implies s[m] != '.' by {
        assert(s.subrange(0, i)[m] == s[m]);
        assert(is_digit(s[m]));
    }
    lemma_first_dot_at(s, i);
    let rest = s.skip(i + 1);
    let jr = j - i - 1;
    assert(rest[jr] == s[j]);
    assert forall|m: int| 0 <= m < jr implies rest[m] != '.' by {
        assert(rest[m] == s[m + i + 1]);
        assert(s.subrange(i + 1, j)[m] == s[m + i + 1]);
        assert(is_digit(s[m + i + 1]));
    }
    lemma_first_dot_at(rest, jr);
    assert(rest.subrange(0, jr) =~= s.subrange(i + 1, j));
    assert(rest.skip(jr + 1) =~= s.subrange(j + 1, s.len() as int));
}

/// First `'.'` in `s` at position `from` or later, if any.
fn find_dot(s: &str, from: usize) -> (r: Option<usize>)
    requires
        from as int <= s@.len(),
    ensures
        match r {
            Some(k) => from <= k && (k as int) < s@.len() && s@[k as int] == '.' && (forall|m: int|
                from as int <= m < k as int ==> s@[m] != '.'),
            None => forall|m: int| from as int <= m < s@.len() ==> s@[m] != '.',
        },
{
    let n = s.unicode_len();
    let mut i = from;
    while i < n
        invariant
            from <= i,
            i as int <= s@.len(),
            n as int == s@.len(),
            forall|m: int| from as int <= m < i as int ==> s@[m] != '.',
        decreases s@.len() - i as int,
    {
        let c = s.get_char(i);
        if c == '.' {
            return Some(i);
        }
        i = i + 1;
    }
    None
}

/// Parses `s[from..to]` as an unsigned decimal number.
fn parse_decimal(s: &str, from: usize, to: usize) -> (r: Option<u64>)
    requires
        from <= to,
        to as int <= s@.len(),
    ensures
        ({
            let part = s@.subrange(from as int, to as int);
            match r {
                Some(v) => part.len() > 0 && all_digits(part) && digits_val(part) == v,
                None => part.len() == 0 || !all_digits(part) || digits_val(part) > u64::MAX,
            }
        }),
{
    let ghost part = s@.subrange(from as int, to as int);
    if from == to {
        return None;
    }
    let mut acc: u64 = 0;
    let mut i = from;
    while i < to
        invariant
            from <= i <= to,
            to as int <= s@.len(),
            part == s@.subrange(from as int, to as int),
            all_digits(s@.subrange(from as int, i as int)),
            acc as int == digits_val(s@.subrange(from as int, i as int)),
        decreases to - i,
    {
        let c = s.get_char(i);
        let cv = c as u32;
        let ghost pre = s@.subrange(from as int, i as int);
        let ghost cur = s@.subrange(from as int, i as int + 1);
        proof {
            assert(cv as int == c as int);
            assert(cur.drop_last() =~= pre);
            assert(cur.last() == s@[i as int]);
        }
        if cv < 48 || cv > 57 {
            proof {
                assert(part[i as int - from as int] == s@[i as int]);
                assert(!is_digit(part[i as int - from as int]));
            }
            return None;
        }
        let d = (cv - 48) as u64;
        proof {
            assert(is_digit(s@[i as int]));
            assert forall|m: int| 0 <= m < cur.len() implies is_digit(cur[m]) by {
                assert(cur[m] == s@[from as int + m]);
            }
            assert(digits_val(cur) == acc as int * 10 + digit_val(s@[i as int]));
        }
        let acc10 = match acc.checked_mul(10) {
            Some(v) => v,
            None => {
                proof {
                    if all_digits(part) {
                        assert(cur =~= part.subrange(0, i as int - from as int + 1));
                        lemma_digits_val_prefix(part, i as int - from as int + 1);
                        assert(digits_val(part) > u64::MAX);
                    }
                }
                return None;
            },
        };
        let newacc = match acc10.checked_add(d) {
            Some(v) => v,
            None => {
                proof {
                    if all_digits(part) {
                        assert(cur =~= part.subrange(0, i as int - from as int + 1));
                        lemma_digits_val_prefix(part, i as int - from as int + 1);
                        assert(digits_val(part) > u64::MAX);
                    }
                }
                return None;
            },
        };
        acc = newacc;
        i = i + 1;
    }
    proof {
        assert(s@.subrange(from as int, i as int) =~= part);
    }
    Some(acc)
}

/// Parses a `major.minor.patch` version string.
pub fn parse_semver(s: &str) -> (r: Option<SemVer>)
    ensures
        r == spec_parse_semver(s@),
{
    let n = s.unicode_len();
    let i = match find_dot(s, 0) {
        None => {
            proof {
                lemma_first_dot_none(s@);
            }
            return None;
        },
        Some(k) => k,
    };
    proof {
        lemma_first_dot_at(s@, i as int);
    }
    let ghost rest = s@.skip(i as int + 1);
    let j_abs = match find_dot(s, i + 1) {
        None => {
            proof {
                assert forall|m: int| 0 <= m < rest.len() implies rest[m] != '.' by {
                    assert(rest[m] == s@[m + i as int + 1]);
                }
                lemma_first_dot_none(rest);
            }
            return None;
        },
        Some(k) => k,
    };
    proof {
        let j = j_abs as int - i as int - 1;
        assert(rest[j] == s@[j_abs as int]);
        assert forall|m: int| 0 <= m < j implies rest[m] != '.' by {
            assert(rest[m] == s@[m + i as int + 1]);
        }
        lemma_first_dot_at(rest, j);
        assert(s@.subrange(i as int + 1, j_abs as int) =~= rest.subrange(0, j));
        assert(s@.subrange(j_abs as int + 1, s@.len() as int) =~= rest.skip(j + 1));
    }
    let major = match parse_decimal(s, 0, i) {
        None => {
            return None;
        },
        Some(v) => v,
    };
    let minor = match parse_decimal(s, i + 1, j_abs) {
        None => {
            return None;
        },
        Some(v) => v,
    };
    let patch = match parse_decimal(s, j_abs + 1, n) {
        None => {
            return None;
        },
        Some(v) => v,
    };
    Some(SemVer { major, minor, patch })
}

/// True when `a` is strictly older than `b` in the component-wise order.
pub fn semver_lt(a: &SemVer, b: &SemVer) -> (r: bool)
    ensures
        r == spec_semver_lt(*a, *b),
{
    if a.major != b.major {
        a.major < b.major
    } else if a.minor != b.minor {
        a.minor < b.minor
    } else {
        a.patch < b.patch
    }
}

/// True when both strings parse as semantic versions and `a`'s is strictly
/// older than `b`'s.
pub fn version_lt(a: &str, b: &str) -> (r: bool)
    ensures
        r == spec_version_lt(a@, b@),
{
    match (parse_semver(a), parse_semver(b)) {
        (Some(x), Some(y)) => semver_lt(&x, &y),
        _ => false,
    }
}

} // verus!
