//! Durations as the backend writes them: `MM:SS` or `H:MM:SS`.

use vstd::prelude::*;
use vstd::slice::slice_subrange;
use crate::numeral::decimal_value;
use crate::numeral::is_digit;
use crate::numeral::is_numeral;
use crate::numeral::parse_unsigned;
use crate::numeral::unsigned_value;
use crate::text::chars_of;

verus! {

/// The fields of `s` between the separators `sep`: one more field than
/// there are separators in `s`. Read from the end of `s`: a separator
/// there closes the fields before it and opens an empty last field; any
/// other character belongs to the last field.
pub open spec fn split_on(s: Seq<char>, sep: char) -> Seq<Seq<char>>
    decreases s.len(),
{
    if s.len() == 0 {
        seq![Seq::empty()]
    } else {
        let before = split_on(s.drop_last(), sep);
        if s.last() == sep {
            before.push(Seq::empty())
        } else {
            before.drop_last().push(before.last().push(s.last()))
        }
    }
}

/// `n` as seconds, if a `u64` can hold it.
pub open spec fn seconds(n: int) -> Option<u64> {
    if 0 <= n <= u64::MAX {
        Some(n as u64)
    } else {
        None
    }
}

/// The seconds that the time string `s` writes. Two fields are minutes and
/// seconds, three are hours, minutes and seconds; any other number of
/// fields, a field that writes no number, or a total that a `u64` cannot
/// hold gives no value.
pub open spec fn time_seconds(s: Seq<char>) -> Option<u64> {
    let fields = split_on(s, ':');
    if fields.len() == 2 {
        match (unsigned_value(fields[0]), unsigned_value(fields[1])) {
            (Some(m), Some(sec)) => seconds(m * 60 + sec),
            _ => None,
        }
    } else if fields.len() == 3 {
        match (unsigned_value(fields[0]), unsigned_value(fields[1]), unsigned_value(fields[2])) {
            (Some(h), Some(m), Some(sec)) => seconds(h * 3600 + m * 60 + sec),
            _ => None,
        }
    } else {
        None
    }
}

/// The fields that the index pairs in `ranges` cut out of `s`.
pub open spec fn cut(s: Seq<char>, ranges: Seq<(usize, usize)>) -> Seq<Seq<char>> {
    Seq::new(ranges.len(), |k: int| s.subrange(ranges[k].0 as int, ranges[k].1 as int))
}

/// Every pair in `ranges` is a range of `s`.
pub open spec fn ranges_within(s: Seq<char>, ranges: Seq<(usize, usize)>) -> bool {
    forall|k: int| 0 <= k < ranges.len() ==> (#[trigger] ranges[k]).0 <= ranges[k].1 <= s.len()
}

/// Where the fields of `s` between the separators `sep` begin and end.
pub fn field_ranges(s: &[char], sep: char) -> (ranges: Vec<(usize, usize)>)
    ensures
        ranges_within(s@, ranges@),
        cut(s@, ranges@) == split_on(s@, sep),
{
    let mut ranges: Vec<(usize, usize)> = Vec::new();
    let mut start: usize = 0;
    let mut i: usize = 0;
    proof {
        assert(s@.take(0) =~= Seq::<char>::empty());
        assert(cut(s@, ranges@).push(s@.subrange(0, 0)) =~= split_on(s@.take(0), sep));
    }
    while i < s.len()
        invariant
            start <= i <= s.len(),
            ranges_within(s@, ranges@),
            cut(s@, ranges@).push(s@.subrange(start as int, i as int)) == split_on(
                s@.take(i as int),
                sep,
            ),
        decreases s.len() - i,
    {
        let ghost before = split_on(s@.take(i as int), sep);
        proof {
            assert(s@.take(i + 1).drop_last() =~= s@.take(i as int));
            assert(s@.take(i + 1).last() == s@[i as int]);
            assert(before.last() == s@.subrange(start as int, i as int));
            assert(before.drop_last() =~= cut(s@, ranges@));
        }
        if s[i] == sep {
            ranges.push((start, i));
            start = i + 1;
            proof {
                assert(cut(s@, ranges@) =~= before);
                assert(s@.subrange(start as int, i + 1) =~= Seq::<char>::empty());
            }
        } else {
            proof {
                assert(s@.subrange(start as int, i + 1) =~= s@.subrange(start as int, i as int).push(
                    s@[i as int],
                ));
            }
        }
        i = i + 1;
    }
    proof {
        assert(s@.take(s.len() as int) =~= s@);
    }
    let ghost done = ranges@;
    ranges.push((start, i));
    proof {
        assert(cut(s@, ranges@) =~= cut(s@, done).push(s@.subrange(start as int, i as int)));
    }
    ranges
}

/// Parses a time string such as `"02:30"` or `"0:02:30"` into seconds.
///
/// Two fields between colons are minutes and seconds, three are hours,
/// minutes and seconds. Each field is a decimal number that may carry one
/// `+` in front. A string with any other number of fields, with a field
/// that is no such number, or whose total does not fit in a `u64`, gives
/// `None`.
pub fn parse_time_to_seconds(time_str: &str) -> (total: Option<u64>)
    ensures
        total == time_seconds(time_str@),
{
    let chars = chars_of(time_str);
    let ranges = field_ranges(chars.as_slice(), ':');
    let ghost fields = split_on(chars@, ':');
    proof {
        assert(fields.len() == ranges.len());
        assert forall|k: int| 0 <= k < ranges.len() implies fields[k] == chars@.subrange(
            ranges[k].0 as int,
            ranges[k].1 as int,
        ) by {
            assert(cut(chars@, ranges@)[k] == chars@.subrange(
                ranges@[k].0 as int,
                ranges@[k].1 as int,
            ));
        }
    }
    if ranges.len() == 2 {
        let minutes = match parse_unsigned(slice_subrange(chars.as_slice(), ranges[0].0, ranges[0].1)) {
            Some(m) => m,
            None => {
                return None;
            },
        };
        let secs = match parse_unsigned(slice_subrange(chars.as_slice(), ranges[1].0, ranges[1].1)) {
            Some(s) => s,
            None => {
                return None;
            },
        };
        match minutes.checked_mul(60) {
            Some(a) => a.checked_add(secs),
            None => None,
        }
    } else if ranges.len() == 3 {
        let hours = match parse_unsigned(slice_subrange(chars.as_slice(), ranges[0].0, ranges[0].1)) {
            Some(h) => h,
            None => {
                return None;
            },
        };
        let minutes = match parse_unsigned(slice_subrange(chars.as_slice(), ranges[1].0, ranges[1].1)) {
            Some(m) => m,
            None => {
                return None;
            },
        };
        let secs = match parse_unsigned(slice_subrange(chars.as_slice(), ranges[2].0, ranges[2].1)) {
            Some(s) => s,
            None => {
                return None;
            },
        };
        let a = match hours.checked_mul(3600) {
            Some(a) => a,
            None => {
                return None;
            },
        };
        let b = match minutes.checked_mul(60) {
            Some(b) => b,
            None => {
                return None;
            },
        };
        match a.checked_add(b) {
            Some(ab) => ab.checked_add(secs),
            None => None,
        }
    } else {
        None
    }
}

/// How often `c` stands in `s`.
pub open spec fn occurrences(s: Seq<char>, c: char) -> nat
    decreases s.len(),
{
    if s.len() == 0 {
        0
    } else if s.last() == c {
        occurrences(s.drop_last(), c) + 1
    } else {
        occurrences(s.drop_last(), c)
    }
}

/// A text has one more field than it has separators.
pub proof fn lemma_field_count(s: Seq<char>, sep: char)
    ensures
        split_on(s, sep).len() == occurrences(s, sep) + 1,
    decreases s.len(),
{
    if s.len() > 0 {
        lemma_field_count(s.drop_last(), sep);
    }
}

/// A text without a separator is its own single field.
pub proof fn lemma_split_plain(s: Seq<char>, sep: char)
    requires
        forall|i: int| 0 <= i < s.len() ==> s[i] != sep,
    ensures
        split_on(s, sep) == seq![s],
    decreases s.len(),
{
    if s.len() == 0 {
        assert(s =~= Seq::<char>::empty());
    } else {
        lemma_split_plain(s.drop_last(), sep);
        assert(s[s.len() - 1] != sep);
        assert(s.drop_last().push(s.last()) =~= s);
        assert(seq![s.drop_last()].drop_last().push(s) =~= seq![s]);
    }
}

/// A separator followed by a text without one adds that text as the last
/// field.
pub proof fn lemma_split_append(a: Seq<char>, b: Seq<char>, sep: char)
    requires
        forall|i: int| 0 <= i < b.len() ==> b[i] != sep,
    ensures
        split_on(a + seq![sep] + b, sep) == split_on(a, sep).push(b),
    decreases b.len(),
{
    let whole = a + seq![sep] + b;
    if b.len() == 0 {
        assert(whole.drop_last() =~= a);
        assert(b =~= Seq::<char>::empty());
    } else {
        lemma_split_append(a, b.drop_last(), sep);
        assert(whole.drop_last() =~= a + seq![sep] + b.drop_last());
        assert(whole.last() == b.last());
        assert(b.drop_last().push(b.last()) =~= b);
        assert(split_on(whole, sep) =~= split_on(a, sep).push(b));
    }
}

/// A numeral writes its decimal value, where a `u64` can hold it.
pub proof fn lemma_numeral_value(digits: Seq<char>)
    requires
        is_numeral(digits),
        decimal_value(digits) <= u64::MAX,
    ensures
        unsigned_value(digits) == Some(decimal_value(digits) as u64),
        forall|i: int| 0 <= i < digits.len() ==> digits[i] != ':',
{
    assert(is_digit(digits[0]));
    assert forall|i: int| 0 <= i < digits.len() implies digits[i] != ':' by {
        assert(is_digit(digits[i]));
    }
}

/// A time written as minutes, a colon and seconds gives sixty times the
/// minutes plus the seconds, where a `u64` can hold that.
pub proof fn lemma_minutes_seconds(minutes: Seq<char>, secs: Seq<char>)
    requires
        is_numeral(minutes),
        is_numeral(secs),
        decimal_value(minutes) * 60 + decimal_value(secs) <= u64::MAX,
    ensures
        time_seconds(minutes + seq![':'] + secs) == Some(
            (decimal_value(minutes) * 60 + decimal_value(secs)) as u64,
        ),
{
    lemma_numeral_value(minutes);
    lemma_numeral_value(secs);
    lemma_split_plain(minutes, ':');
    lemma_split_append(minutes, secs, ':');
}

/// A time written as hours, minutes and seconds with colons between them
/// gives 3600 times the hours plus sixty times the minutes plus the
/// seconds, where a `u64` can hold that.
pub proof fn lemma_hours_minutes_seconds(hours: Seq<char>, minutes: Seq<char>, secs: Seq<char>)
    requires
        is_numeral(hours),
        is_numeral(minutes),
        is_numeral(secs),
        decimal_value(hours) * 3600 + decimal_value(minutes) * 60 + decimal_value(secs)
            <= u64::MAX,
    ensures
        time_seconds(hours + seq![':'] + minutes + seq![':'] + secs) == Some(
            (decimal_value(hours) * 3600 + decimal_value(minutes) * 60 + decimal_value(secs)) as u64,
        ),
{
    lemma_numeral_value(hours);
    lemma_numeral_value(minutes);
    lemma_numeral_value(secs);
    lemma_split_plain(hours, ':');
    lemma_split_append(hours, minutes, ':');
    lemma_split_append(hours + seq![':'] + minutes, secs, ':');
}

/// A text with no colon, or with more than two, is no time.
pub proof fn lemma_other_colon_count(s: Seq<char>)
    requires
        occurrences(s, ':') != 1,
        occurrences(s, ':') != 2,
    ensures
        time_seconds(s) is None,
{
    lemma_field_count(s, ':');
}

} // verus!
