use vstd::prelude::*;

verus! {

/// Whether `c` is a decimal digit.
pub open spec fn is_dec_digit(c: char) -> bool {
    48 <= c as int <= 57
}

/// Whether every character of `s` is a decimal digit.
pub open spec fn all_dec_digits(s: Seq<char>) -> bool {
    forall|i: int| 0 <= i < s.len() ==> is_dec_digit(#[trigger] s[i])
}

/// The value of a digit string read in base 10.
pub open spec fn dec_val(s: Seq<char>) -> int
    decreases s.len(),
{
    if s.len() == 0 {
        0
    } else {
        dec_val(s.drop_last()) * 10 + (s.last() as int - 48)
    }
}

/// A digit string's value is not negative.
pub proof fn lemma_dec_val_nonneg(s: Seq<char>)
    requires
        all_dec_digits(s),
    ensures
        dec_val(s) >= 0,
    decreases s.len(),
{
    if s.len() > 0 {
        assert(all_dec_digits(s.drop_last()));
        lemma_dec_val_nonneg(s.drop_last());
    }
}

/// Extending a digit string does not lower its value.
pub proof fn lemma_dec_val_take_le(s: Seq<char>, i: int)
    requires
        all_dec_digits(s),
        0 <= i <= s.len(),
    ensures
        dec_val(s.take(i)) <= dec_val(s),
    decreases s.len() - i,
{
    if i == s.len() {
        assert(s.take(i) =~= s);
    } else {
        assert(s.take(i + 1).drop_last() =~= s.take(i));
        assert(s.take(i + 1).last() == s[i]);
        assert(all_dec_digits(s.take(i)));
        lemma_dec_val_nonneg(s.take(i));
        assert(dec_val(s.take(i + 1)) == dec_val(s.take(i)) * 10 + (s[i] as int - 48));
        lemma_dec_val_take_le(s, i + 1);
    }
}

/// How a nonempty decimal string is read as a `u32`: every character a
/// digit and the value within range, else nothing.
pub open spec fn spec_parse_u32(s: Seq<char>) -> Option<u32> {
    if s.len() > 0 && all_dec_digits(s) && dec_val(s) <= u32::MAX {
        Some(dec_val(s) as u32)
    } else {
        None
    }
}

/// Reads a `u32` from decimal text.
pub fn parse_u32_dec(s: &str) -> (r: Option<u32>)
    ensures
        r == spec_parse_u32(s@),
{
    let n = s.unicode_len();
    if n == 0 {
        return None;
    }
    let mut acc: u32 = 0;
    let mut i: usize = 0;
    while i < n
        invariant
            n == s@.len(),
            0 <= i <= n,
            all_dec_digits(s@.take(i as int)),
            acc as int == dec_val(s@.take(i as int)),
        decreases n - i,
    {
        let c = s.get_char(i);
        let cv = c as u32;
        if cv < 48 || cv > 57 {
            assert(!is_dec_digit(s@[i as int]));
            return None;
        }
        let d: u32 = cv - 48;
        proof {
            assert(s@.take(i + 1).drop_last() =~= s@.take(i as int));
            assert(all_dec_digits(s@.take(i + 1)));
            assert(dec_val(s@.take(i + 1)) == acc as int * 10 + d);
        }
        if acc > 429496729 || (acc == 429496729 && d > 5) {
            proof {
                assert(dec_val(s@.take(i + 1)) > u32::MAX);
                if all_dec_digits(s@) {
                    lemma_dec_val_take_le(s@, i + 1);
                }
            }
            return None;
        }
        acc = acc * 10 + d;
        i = i + 1;
    }
    proof {
        assert(s@.take(n as int) =~= s@);
    }
    Some(acc)
}

/// How a nonempty decimal string is read as a `u8`.
pub open spec fn spec_parse_u8(s: Seq<char>) -> Option<u8> {
    if s.len() > 0 && all_dec_digits(s) && dec_val(s) <= u8::MAX {
        Some(dec_val(s) as u8)
    } else {
        None
    }
}

/// Reads a `u8` from decimal text.
pub fn parse_u8_dec(s: &str) -> (r: Option<u8>)
    ensures
        r == spec_parse_u8(s@),
{
    proof {
        if s@.len() > 0 && all_dec_digits(s@) {
            lemma_dec_val_nonneg(s@);
        }
    }
    match parse_u32_dec(s) {
        Some(v) => if v <= 255 {
            Some(v as u8)
        } else {
            None
        },
        None => None,
    }
}

/// How decimal text, with an optional leading minus sign, is read as an
/// `i32`.
pub open spec fn spec_parse_i32(s: Seq<char>) -> Option<i32> {
    if s.len() > 0 && s[0] == '-' {
        let t = s.skip(1);
        if t.len() > 0 && all_dec_digits(t) && dec_val(t) <= 2147483648 {
            Some((-dec_val(t)) as i32)
        } else {
            None
        }
    } else if s.len() > 0 && all_dec_digits(s) && dec_val(s) <= i32::MAX {
        Some(dec_val(s) as i32)
    } else {
        None
    }
}

/// Reads an `i32` from decimal text with an optional leading minus sign.
pub fn parse_i32_dec(s: &str) -> (r: Option<i32>)
    ensures
        r == spec_parse_i32(s@),
{
    let n = s.unicode_len();
    if n == 0 {
        return None;
    }
    if s.get_char(0) == '-' {
        let rest = s.substring_char(1, n);
        proof {
            assert(rest@ =~= s@.skip(1));
            if rest@.len() > 0 && all_dec_digits(rest@) {
                lemma_dec_val_nonneg(rest@);
            }
        }
        match parse_u32_dec(rest) {
            Some(v) => if v <= 2147483647 {
                Some(-(v as i32))
            } else if v == 2147483648 {
                Some(i32::MIN)
            } else {
                None
            },
            None => None,
        }
    } else {
        proof {
            if s@.len() > 0 && all_dec_digits(s@) {
                lemma_dec_val_nonneg(s@);
            }
        }
        match parse_u32_dec(s) {
            Some(v) => if v <= 2147483647 {
                Some(v as i32)
            } else {
                None
            },
            None => None,
        }
    }
}

/// The index of the first '.' in `s`, or -1 when there is none.
pub open spec fn first_dot(s: Seq<char>) -> int
    decreases s.len(),
{
    if s.len() == 0 {
        -1
    } else if s[0] == '.' {
        0
    } else if first_dot(s.drop_first()) < 0 {
        -1
    } else {
        first_dot(s.drop_first()) + 1
    }
}

/// `first_dot` finds exactly the first '.': nothing before it is a dot,
/// and a result of -1 means no character is one.
pub proof fn lemma_first_dot(s: Seq<char>)
    ensures
        first_dot(s) == -1 ==> forall|i: int| 0 <= i < s.len() ==> s[i] != '.',
        first_dot(s) >= 0 ==> first_dot(s) < s.len() && s[first_dot(s)] == '.' && forall|i: int|
            0 <= i < first_dot(s) ==> s[i] != '.',
    decreases s.len(),
{
    if s.len() > 0 && s[0] != '.' {
        lemma_first_dot(s.drop_first());
        let fd = first_dot(s.drop_first());
        if fd >= 0 {
            assert(s[fd + 1] == s.drop_first()[fd]);
            assert forall|i: int| 0 <= i < first_dot(s) implies s[i] != '.' by {
                if i >= 1 {
                    assert(s[i] == s.drop_first()[i - 1]);
                }
            }
        } else {
            assert forall|i: int| 0 <= i < s.len() implies s[i] != '.' by {
                if i >= 1 {
                    assert(s[i] == s.drop_first()[i - 1]);
                }
            }
        }
    }
}

/// Finds the first '.' at or after position `from`.
fn find_dot(s: &str, from: usize) -> (r: Option<usize>)
    requires
        from as int <= s@.len(),
    ensures
        match r {
            Some(j) => from <= j < s@.len() && first_dot(s@.skip(from as int)) == j - from,
            None => first_dot(s@.skip(from as int)) == -1,
        },
{
    let n = s.unicode_len();
    let mut i: usize = from;
    while i < n
        invariant
            from <= i <= n,
            n == s@.len(),
            forall|k: int| from <= k < i ==> s@[k] != '.',
        decreases n - i,
    {
        if s.get_char(i) == '.' {
            proof {
                let t = s@.skip(from as int);
                lemma_first_dot(t);
                assert(forall|k: int| 0 <= k < t.len() ==> t[k] == s@[k + from]);
                assert(t[i - from] == '.');
                if first_dot(t) < i - from {
                    assert(s@[first_dot(t) + from] != '.');
                }
                if first_dot(t) > i - from {
                    assert(t[i - from] != '.');
                }
            }
            return Some(i);
        }
        i = i + 1;
    }
    proof {
        let t = s@.skip(from as int);
        lemma_first_dot(t);
        assert(forall|k: int| 0 <= k < t.len() ==> t[k] == s@[k + from]);
        if first_dot(t) >= 0 {
            assert(t[first_dot(t)] == '.');
        }
    }
    None
}

/// How text is read as one octet of a dotted-quad address: a decimal
/// number 0..=255 without a superfluous leading zero.
pub open spec fn spec_parse_octet(s: Seq<char>) -> Option<u8> {
    if s.len() == 1 || (s.len() > 1 && s[0] != '0') {
        spec_parse_u8(s)
    } else {
        None
    }
}

/// Reads one address octet from text.
pub fn parse_octet(s: &str) -> (r: Option<u8>)
    ensures
        r == spec_parse_octet(s@),
{
    let n = s.unicode_len();
    if n == 0 {
        return None;
    }
    if n > 1 && s.get_char(0) == '0' {
        return None;
    }
    parse_u8_dec(s)
}

/// How text is read as a dotted-quad IPv4 address: four octets
/// separated by exactly three dots.
pub open spec fn spec_parse_ipv4(s: Seq<char>) -> Option<(u8, u8, u8, u8)> {
    let i = first_dot(s);
    if i < 0 {
        None
    } else {
        let s1 = s.skip(i + 1);
        let j = first_dot(s1);
        if j < 0 {
            None
        } else {
            let s2 = s1.skip(j + 1);
            let k = first_dot(s2);
            if k < 0 {
                None
            } else {
                let s3 = s2.skip(k + 1);
                if first_dot(s3) >= 0 {
                    None
                } else {
                    match (spec_parse_octet(s.take(i)), spec_parse_octet(s1.take(j)),
                    spec_parse_octet(s2.take(k)), spec_parse_octet(s3)) {
                        (Some(a), Some(b), Some(c), Some(d)) => Some((a, b, c, d)),
                        _ => None,
                    }
                }
            }
        }
    }
}

/// Reads a dotted-quad IPv4 address from text.
#[verifier::rlimit(60)]
pub fn parse_ipv4(s: &str) -> (r: Option<(u8, u8, u8, u8)>)
    ensures
        r == spec_parse_ipv4(s@),
{
    let n = s.unicode_len();
    proof {
        assert(s@.skip(0) =~= s@);
    }
    let i = match find_dot(s, 0) {
        Some(i) => i,
        None => { return None },
    };
    let j = match find_dot(s, i + 1) {
        Some(j) => j,
        None => { return None },
    };
    proof {
        assert(s@.skip(i + 1).skip(j - i) =~= s@.skip(j + 1));
    }
    let k = match find_dot(s, j + 1) {
        Some(k) => k,
        None => { return None },
    };
    proof {
        assert(s@.skip(j + 1).skip(k - j) =~= s@.skip(k + 1));
    }
    match find_dot(s, k + 1) {
        Some(_) => { return None },
        None => {},
    }
    proof {
        assert(s@.take(i as int) =~= s@.subrange(0, i as int));
        assert(s@.skip(i + 1).take(j - i - 1) =~= s@.subrange(i + 1, j as int));
        assert(s@.skip(j + 1).take(k - j - 1) =~= s@.subrange(j + 1, k as int));
        assert(s@.skip(k + 1) =~= s@.subrange(k + 1, n as int));
    }
    let a = parse_octet(s.substring_char(0, i));
    let b = parse_octet(s.substring_char(i + 1, j));
    let c = parse_octet(s.substring_char(j + 1, k));
    let d = parse_octet(s.substring_char(k + 1, n));
    match (a, b, c, d) {
        (Some(a), Some(b), Some(c), Some(d)) => Some((a, b, c, d)),
        _ => None,
    }
}

/// How text is read as a boolean: exactly "true" or "false".
pub open spec fn spec_parse_bool(s: Seq<char>) -> Option<bool> {
    if s == "true"@ {
        Some(true)
    } else if s == "false"@ {
        Some(false)
    } else {
        None
    }
}

/// Reads a boolean from text: exactly "true" or "false".
pub fn parse_bool_str(s: &str) -> (r: Option<bool>)
    ensures
        r == spec_parse_bool(s@),
{
    let owned = s.to_owned();
    if owned == "true".to_owned() {
        Some(true)
    } else if owned == "false".to_owned() {
        Some(false)
    } else {
        None
    }
}

} // verus!
