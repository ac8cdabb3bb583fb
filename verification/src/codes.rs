//! The set of exit codes that count as success, read from a
//! comma-separated list such as `0,2`. Each item is read as a decimal
//! `i32` in the way of Rust's `i32::from_str`: an optional `+` or `-`,
//! then one or more ASCII digits, with no spaces.
use vstd::prelude::*;

verus! {

pub open spec fn is_digit(c: char) -> bool {
    '0' <= c && c <= '9'
}

pub open spec fn digit_value(c: char) -> int {
    c as int - '0' as int
}

pub open spec fn all_digits(s: Seq<char>) -> bool {
    forall|i: int| 0 <= i < s.len() ==> #[trigger] is_digit(s[i])
}

/// The number that a string of decimal digits spells.
pub open spec fn digits_value(s: Seq<char>) -> int
    decreases s.len(),
{
    if s.len() == 0 {
        0
    } else {
        digits_value(s.drop_last()) * 10 + digit_value(s.last())
    }
}

/// The integer that `s` spells: an optional sign, then at least one digit.
pub open spec fn integer_value(s: Seq<char>) -> Option<int> {
    if s.len() > 0 && (s[0] == '-' || s[0] == '+') {
        let rest = s.skip(1);
        if rest.len() > 0 && all_digits(rest) {
            if s[0] == '-' {
                Some(-digits_value(rest))
            } else {
                Some(digits_value(rest))
            }
        } else {
            None
        }
    } else if s.len() > 0 && all_digits(s) {
        Some(digits_value(s))
    } else {
        None
    }
}

/// The `i32` that `s` spells, if it spells one in range.
pub open spec fn i32_value(s: Seq<char>) -> Option<i32> {
    match integer_value(s) {
        Some(v) => if i32::MIN <= v && v <= i32::MAX {
            Some(v as i32)
        } else {
            None
        },
        None => None,
    }
}

/// The items of `s` between commas, in order; `s` without a comma is one
/// item, and the empty text is one empty item.
pub open spec fn split_commas(s: Seq<char>) -> Seq<Seq<char>>
    decreases s.len(),
{
    if s.len() == 0 {
        seq![Seq::<char>::empty()]
    } else {
        let before = split_commas(s.drop_last());
        if s.last() == ',' {
            before.push(Seq::<char>::empty())
        } else {
            before.update(before.len() - 1, before.last().push(s.last()))
        }
    }
}

/// A text without a comma is a single item: itself.
pub proof fn lemma_split_without_comma(s: Seq<char>)
    requires
        forall|i: int| 0 <= i < s.len() ==> #[trigger] s[i] != ',',
    ensures
        split_commas(s) == seq![s],
    decreases s.len(),
{
    if s.len() == 0 {
        assert(s =~= Seq::<char>::empty());
        assert(split_commas(s) =~= seq![s]);
    } else {
        let t = s.drop_last();
        lemma_split_without_comma(t);
        assert(s.last() != ',');
        assert(t.push(s.last()) =~= s);
        assert(split_commas(s) =~= seq![s]);
    }
}

/// A comma splits the text in two: the items of `a`, then those of `b`.
pub proof fn lemma_split_at_comma(a: Seq<char>, b: Seq<char>)
    ensures
        split_commas(a + seq![','] + b) == split_commas(a) + split_commas(b),
    decreases b.len(),
{
    let t = a + seq![','] + b;
    lemma_split_not_empty(a);
    if b.len() == 0 {
        assert(t.drop_last() =~= a);
        assert(t.last() == ',');
        assert(split_commas(t) =~= split_commas(a) + split_commas(b));
    } else {
        let b0 = b.drop_last();
        let c = b.last();
        lemma_split_at_comma(a, b0);
        lemma_split_not_empty(b0);
        assert(t.drop_last() =~= a + seq![','] + b0);
        assert(t.last() == c);
        let left = split_commas(a);
        let right = split_commas(b0);
        if c == ',' {
            assert(split_commas(t) =~= left + right.push(Seq::<char>::empty()));
            assert(split_commas(b) =~= right.push(Seq::<char>::empty()));
        } else {
            assert(split_commas(b) =~= right.update(right.len() - 1, right.last().push(c)));
            assert(split_commas(t) =~= left + right.update(right.len() - 1, right.last().push(c)));
        }
    }
}

/// Every item spells an `i32`.
pub open spec fn all_codes(items: Seq<Seq<char>>) -> bool {
    forall|k: int| 0 <= k < items.len() ==> (#[trigger] i32_value(items[k])) is Some
}

/// The first item that spells no `i32`.
pub open spec fn first_bad_item(items: Seq<Seq<char>>) -> Seq<char>
    decreases items.len(),
{
    if items.len() == 0 {
        Seq::<char>::empty()
    } else if i32_value(items[0]) is None {
        items[0]
    } else {
        first_bad_item(items.drop_first())
    }
}

/// The codes that the items spell.
pub open spec fn codes_of(items: Seq<Seq<char>>) -> Seq<i32> {
    items.map_values(|item: Seq<char>| i32_value(item)->0)
}

proof fn lemma_split_not_empty(s: Seq<char>)
    ensures
        split_commas(s).len() >= 1,
    decreases s.len(),
{
    if s.len() > 0 {
        lemma_split_not_empty(s.drop_last());
    }
}

proof fn lemma_digits_value_nonnegative(s: Seq<char>)
    requires
        all_digits(s),
    ensures
        digits_value(s) >= 0,
    decreases s.len(),
{
    if s.len() > 0 {
        lemma_digits_value_nonnegative(s.drop_last());
        assert(is_digit(s[s.len() - 1]));
    }
}

/// Appending digits never lowers the value.
proof fn lemma_digits_value_grows(s: Seq<char>, k: int)
    requires
        all_digits(s),
        0 <= k <= s.len(),
    ensures
        digits_value(s.take(k)) <= digits_value(s),
    decreases s.len(),
{
    if k < s.len() {
        assert(s.drop_last().take(k) =~= s.take(k));
        lemma_digits_value_grows(s.drop_last(), k);
        lemma_digits_value_nonnegative(s.drop_last());
        assert(is_digit(s[s.len() - 1]));
    } else {
        assert(s.take(k) =~= s);
    }
}

/// A single decimal digit `'0'..='9'` reads as its value `c - '0'`.
pub proof fn lemma_single_digit_reads(d: char)
    requires
        '0' <= d && d <= '9',
    ensures
        integer_value(seq![d]) == Some(d as int - 48),
        i32_value(seq![d]) == Some((d as int - 48) as i32),
{
    let s = seq![d];
    assert(s.drop_last() =~= Seq::<char>::empty());
    assert(digits_value(s.drop_last()) == 0);
    assert(s.last() == d);
    assert(('0' as int) == 48);
    assert(digits_value(s) == d as int - 48);
    assert(s[0] == d);
    assert(s[0] != '-' && s[0] != '+');
    assert(all_digits(s));
    assert(integer_value(s) == Some(d as int - 48));
}

/// A run of decimal digits reads as a number, and one more digit `d` at
/// its end makes it ten times that number plus `d - '0'`.
pub proof fn lemma_appended_digit_reads(s: Seq<char>, d: char)
    requires
        s.len() > 0,
        forall|i: int| 0 <= i < s.len() ==> '0' <= #[trigger] s[i] && s[i] <= '9',
        '0' <= d && d <= '9',
    ensures
        integer_value(s) is Some,
        integer_value(s.push(d)) == Some(integer_value(s)->0 * 10 + (d as int - 48)),
{
    let t = s.push(d);
    assert(all_digits(s));
    assert(all_digits(t)) by {
        assert forall|i: int| 0 <= i < t.len() implies is_digit(#[trigger] t[i]) by {
            if i < s.len() {
                assert(t[i] == s[i]);
            }
        }
    }
    assert(t.drop_last() =~= s);
    assert(t[0] == s[0]);
}

/// A sign in front of a run of decimal digits: `-` negates the number,
/// `+` keeps it.
pub proof fn lemma_signed_digits_read(sign: char, s: Seq<char>)
    requires
        sign == '-' || sign == '+',
        s.len() > 0,
        forall|i: int| 0 <= i < s.len() ==> '0' <= #[trigger] s[i] && s[i] <= '9',
    ensures
        integer_value(s) is Some,
        integer_value(seq![sign] + s) == Some(
            if sign == '-' {
                -(integer_value(s)->0)
            } else {
                integer_value(s)->0
            },
        ),
{
    let t = seq![sign] + s;
    assert(t.skip(1) =~= s);
    assert(all_digits(s));
    assert(s[0] != '-' && s[0] != '+');
}

/// A text with a character that is neither a digit nor a leading sign,
/// or with no digit at all, reads as nothing.
pub proof fn lemma_non_digit_refused(s: Seq<char>, i: int)
    requires
        0 <= i < s.len(),
        !('0' <= s[i] && s[i] <= '9'),
        !(i == 0 && (s[0] == '-' || s[0] == '+')),
    ensures
        integer_value(s) is None,
        i32_value(s) is None,
{
    if s[0] == '-' || s[0] == '+' {
        assert(s.skip(1)[i - 1] == s[i]);
        assert(!is_digit(s.skip(1)[i - 1]));
    } else {
        assert(!is_digit(s[i]));
    }
}

/// The empty text and a lone sign read as nothing.
pub proof fn lemma_no_digits_refused(sign: char)
    requires
        sign == '-' || sign == '+',
    ensures
        integer_value(Seq::<char>::empty()) is None,
        integer_value(seq![sign]) is None,
{
    assert(seq![sign].skip(1) =~= Seq::<char>::empty());
}

/// A number in `i32` range reads as that `i32`; one outside reads as
/// nothing.
pub proof fn lemma_i32_range(s: Seq<char>)
    ensures
        integer_value(s) matches Some(v) ==> (i32::MIN <= v <= i32::MAX ==> i32_value(s) == Some(
            v as i32,
        )),
        integer_value(s) matches Some(v) ==> (!(i32::MIN <= v <= i32::MAX) ==> i32_value(s) is None),
        integer_value(s) is None ==> i32_value(s) is None,
{
}

/// Reads one item as an `i32`, as `i32_value` states.
pub fn parse_code(item: &str) -> (code: Option<i32>)
    ensures
        code == i32_value(item@),
{
    let s = Ghost(item@);
    let n = item.unicode_len();
    if n == 0 {
        return None;
    }
    let first = item.get_char(0);
    let start: usize = if first == '-' || first == '+' { 1 } else { 0 };
    if start == n {
        return None;
    }
    let ghost digits = if start == 1 { s@.skip(1) } else { s@ };
    assert(digits.len() == n - start);
    assert forall|j: int| 0 <= j < digits.len() implies digits[j] == s@[start + j] by {}
    let mut acc: i64 = 0;
    let mut i: usize = start;
    while i < n
        invariant
            n == s@.len(),
            start <= i <= n,
            start == 0 || start == 1,
            n > 0,
            first == s@[0],
            start == 1 <==> (first == '-' || first == '+'),
            digits == (if start == 1 { s@.skip(1) } else { s@ }),
            digits.len() == n - start,
            forall|j: int| 0 <= j < digits.len() ==> digits[j] == s@[start + j],
            s@ == item@,
            all_digits(digits.take(i - start)),
            acc == digits_value(digits.take(i - start)),
            0 <= acc <= 2147483648,
        decreases n - i,
    {
        let c = item.get_char(i);
        if !('0' <= c && c <= '9') {
            assert(!is_digit(digits[i - start]));
            assert(!all_digits(digits));
            return None;
        }
        let d: i64 = (c as u32 - '0' as u32) as i64;
        let next: i64 = acc * 10 + d;
        let ghost taken = digits.take(i + 1 - start);
        assert(taken.drop_last() =~= digits.take(i - start));
        assert(taken.last() == c);
        assert(next == digits_value(taken));
        if next > 2147483648 {
            proof {
                if all_digits(digits) {
                    lemma_digits_value_grows(digits, i + 1 - start);
                }
            }
            return None;
        }
        acc = next;
        i = i + 1;
    }
    assert(digits.take(n - start) =~= digits);
    if first == '-' {
        Some((0 - acc) as i32)
    } else if acc <= 2147483647 {
        Some(acc as i32)
    } else {
        None
    }
}

/// The items of a prefix of `s`, all but the last, stand unchanged at the
/// front of the items of `s`.
proof fn lemma_split_prefix(s: Seq<char>, k: int)
    requires
        0 <= k <= s.len(),
    ensures
        split_commas(s.take(k)).len() <= split_commas(s).len(),
        forall|m: int|
            0 <= m < split_commas(s.take(k)).len() - 1 ==> #[trigger] split_commas(s.take(k))[m]
                == split_commas(s)[m],
    decreases s.len(),
{
    if k == s.len() {
        assert(s.take(k) =~= s);
    } else {
        let t = s.drop_last();
        assert(t.take(k) =~= s.take(k));
        lemma_split_prefix(t, k);
        lemma_split_not_empty(t);
    }
}

/// When the items before `k` spell codes and item `k` does not, item `k`
/// is the first bad one.
pub proof fn lemma_first_bad_at(items: Seq<Seq<char>>, k: int)
    requires
        0 <= k < items.len(),
        forall|j: int| 0 <= j < k ==> (#[trigger] i32_value(items[j])) is Some,
        i32_value(items[k]) is None,
    ensures
        first_bad_item(items) == items[k],
    decreases k,
{
    if k > 0 {
        let rest = items.drop_first();
        assert forall|j: int| 0 <= j < k - 1 implies (#[trigger] i32_value(rest[j])) is Some by {
            assert(rest[j] == items[j + 1]);
        }
        assert(i32_value(items[0]) is Some);
        lemma_first_bad_at(rest, k - 1);
    }
}

/// Reads a comma-separated list of exit codes. The list is refused when
/// an item spells no `i32`; the error is the first such item.
pub fn parse_success_codes(text: &str) -> (r: Result<Vec<i32>, String>)
    ensures
        r is Ok <==> all_codes(split_commas(text@)),
        r matches Ok(codes) ==> codes@ == codes_of(split_commas(text@)),
        r matches Err(item) ==> item@ == first_bad_item(split_commas(text@)),
{
    let ghost s = text@;
    let n = text.unicode_len();
    let mut codes: Vec<i32> = Vec::new();
    let ghost mut done: Seq<Seq<char>> = Seq::empty();
    let mut start: usize = 0;
    let mut i: usize = 0;
    assert(s.take(0) =~= Seq::<char>::empty());
    assert(split_commas(s.take(0)) =~= done.push(s.subrange(0, 0)));
    while i < n
        invariant
            s == text@,
            n == s.len(),
            start <= i <= n,
            split_commas(s.take(i as int)) == done.push(s.subrange(start as int, i as int)),
            all_codes(done),
            codes@ == codes_of(done),
        decreases n - i,
    {
        let c = text.get_char(i);
        let ghost before = s.take(i as int);
        let ghost after = s.take(i + 1);
        assert(after.drop_last() =~= before);
        assert(after.last() == c);
        if c == ',' {
            let item = text.substring_char(start, i);
            let ghost items = split_commas(after);
            assert(items =~= done.push(item@).push(Seq::<char>::empty()));
            match parse_code(item) {
                Some(code) => {
                    proof {
                        assert(codes_of(done.push(item@)) =~= codes_of(done).push(code));
                    }
                    codes.push(code);
                    proof {
                        done = done.push(item@);
                    }
                    start = i + 1;
                    assert(s.subrange(start as int, start as int) =~= Seq::<char>::empty());
                },
                None => {
                    proof {
                        lemma_split_prefix(s, i + 1);
                        assert(s.take(s.len() as int) =~= s);
                        let all = split_commas(s);
                        assert(items[done.len() as int] == item@);
                        assert(items[done.len() as int] == all[done.len() as int]);
                        assert forall|j: int| 0 <= j < done.len() implies (#[trigger] i32_value(
                            all[j],
                        )) is Some by {
                            assert(items[j] == done[j]);
                            assert(items[j] == all[j]);
                        }
                        lemma_first_bad_at(all, done.len() as int);
                        assert(!all_codes(all));
                    }
                    return Err(String::from_str(item));
                },
            }
        } else {
            assert(s.subrange(start as int, i + 1) =~= s.subrange(start as int, i as int).push(c));
            assert(split_commas(after) =~= done.push(s.subrange(start as int, i + 1)));
        }
        i = i + 1;
    }
    assert(s.take(n as int) =~= s);
    let item = text.substring_char(start, n);
    let ghost all = split_commas(s);
    assert(all =~= done.push(item@));
    match parse_code(item) {
        Some(code) => {
            codes.push(code);
            assert(codes_of(all) =~= codes@);
            assert(all_codes(all)) by {
                assert forall|k: int| 0 <= k < all.len() implies (#[trigger] i32_value(
                    all[k],
                )) is Some by {
                    if k < done.len() {
                        assert(all[k] == done[k]);
                    }
                }
            }
            Ok(codes)
        },
        None => {
            proof {
                assert forall|j: int| 0 <= j < done.len() implies (#[trigger] i32_value(
                    all[j],
                )) is Some by {
                    assert(all[j] == done[j]);
                }
                lemma_first_bad_at(all, done.len() as int);
            }
            Err(String::from_str(item))
        },
    }
}

} // verus!
