//! The grammar of a model file: how a line falls into words, how a face
//! names its corners, and how a face of many corners falls into triangles.
//!
//! The numbers of a model are for the screen and are read there; what a
//! file says about which corner goes with which is read here.

use vstd::prelude::*;

verus! {

/// The words of `line`: what lies between its separators. A line without a
/// separator is one word, and two separators side by side have an empty
/// word between them.
pub open spec fn words(line: Seq<u8>, sep: u8) -> Seq<Seq<u8>>
    decreases line.len(),
{
    if line.len() == 0 {
        seq![Seq::<u8>::empty()]
    } else {
        let before = words(line.drop_last(), sep);
        if line.last() == sep {
            before.push(Seq::<u8>::empty())
        } else {
            before.drop_last().push(before.last().push(line.last()))
        }
    }
}

/// The words put together again, with a separator between each two.
pub open spec fn joined(parts: Seq<Seq<u8>>, sep: u8) -> Seq<u8>
    decreases parts.len(),
{
    if parts.len() == 0 {
        Seq::<u8>::empty()
    } else if parts.len() == 1 {
        parts[0]
    } else {
        joined(parts.drop_last(), sep).push(sep) + parts.last()
    }
}

/// Whether every byte of `s` is a decimal digit.
pub open spec fn all_digits(s: Seq<u8>) -> bool {
    forall|i: int| 0 <= i < s.len() ==> 48 <= #[trigger] s[i] <= 57
}

/// The number that the decimal digits of `s` write.
pub open spec fn digits_value(s: Seq<u8>) -> nat
    decreases s.len(),
{
    if s.len() == 0 {
        0
    } else {
        digits_value(s.drop_last()) * 10 + (s.last() - 48) as nat
    }
}

/// The digits of a number as it may be written: with a plus sign before
/// them or without.
pub open spec fn unsigned_digits(s: Seq<u8>) -> Seq<u8> {
    if s.len() > 0 && s[0] == 43 {
        s.drop_first()
    } else {
        s
    }
}

/// The number that `s` writes, if it writes one that can be held: digits,
/// at least one, with or without a plus sign before them.
pub open spec fn index_of(s: Seq<u8>) -> Option<usize> {
    let digits = unsigned_digits(s);
    if digits.len() > 0 && all_digits(digits) && digits_value(digits) <= usize::MAX {
        Some(digits_value(digits) as usize)
    } else {
        None
    }
}

/// A corner of a face: which position, which place on the texture and which
/// normal it has, each counted from zero.
#[derive(Clone, Copy, Debug, PartialEq, Eq, Structural)]
pub struct FaceCorner {
    pub position: usize,
    pub uv: usize,
    pub normal: usize,
}

/// The corner that `token` names: three numbers with strokes between them,
/// the position, the place on the texture and the normal, each counted from
/// one in the file. More numbers may follow and are not read. There is no
/// corner where a number is missing, is not a number, or is zero.
pub open spec fn corner_of(token: Seq<u8>) -> Option<FaceCorner> {
    let parts = words(token, 47);
    if parts.len() >= 3 {
        match (index_of(parts[0]), index_of(parts[1]), index_of(parts[2])) {
            (Some(p), Some(t), Some(n)) => if p >= 1 && t >= 1 && n >= 1 {
                Some(FaceCorner { position: (p - 1) as usize, uv: (t - 1) as usize, normal: (n - 1) as usize })
            } else {
                None
            },
            _ => None,
        }
    } else {
        None
    }
}

/// The triangles of the fan that covers a face of `count` corners from its
/// first corner: the triangle `i` has the corners `0`, `i + 1` and `i + 2`.
pub open spec fn fan(count: nat) -> Seq<(usize, usize, usize)> {
    Seq::new(
        if count >= 2 {
            (count - 2) as nat
        } else {
            0
        },
        |i: int| (0usize, (i + 1) as usize, (i + 2) as usize),
    )
}

/// The words of a line are at least one, none holds the separator, and joined
/// with the separator they are the line again.
pub proof fn lemma_words_are_the_line(line: Seq<u8>, sep: u8)
    ensures
        words(line, sep).len() >= 1,
        forall|k: int, j: int|
            0 <= k < words(line, sep).len() && 0 <= j < words(line, sep)[k].len() ==> words(
                line,
                sep,
            )[k][j] != sep,
        joined(words(line, sep), sep) == line,
    decreases line.len(),
{
    if line.len() > 0 {
        let shorter = line.drop_last();
        lemma_words_are_the_line(shorter, sep);
        let before = words(shorter, sep);
        let now = words(line, sep);
        if line.last() == sep {
            assert(now.drop_last() == before);
            assert(now.last() == Seq::<u8>::empty());
            assert(joined(now, sep) == joined(before, sep).push(sep) + Seq::<u8>::empty());
            assert(joined(now, sep) =~= shorter.push(sep));
            assert(shorter.push(sep) =~= line);
        } else {
            let grown = before.last().push(line.last());
            assert(now.last() == grown);
            assert(now.drop_last() =~= before.drop_last());
            if before.len() == 1 {
                assert(joined(before, sep) == before[0]);
                assert(joined(now, sep) == grown);
                assert(grown =~= shorter.push(line.last()));
            } else {
                assert(joined(before, sep) == joined(before.drop_last(), sep).push(sep)
                    + before.last());
                assert(joined(now, sep) == joined(before.drop_last(), sep).push(sep) + grown);
                assert(joined(now, sep) =~= joined(before, sep).push(line.last()));
            }
            assert(shorter.push(line.last()) =~= line);
        }
    }
}

/// Splits `line` into its words.
pub fn split(line: &[u8], sep: u8) -> (parts: Vec<Vec<u8>>)
    ensures
        parts@.len() == words(line@, sep).len(),
        forall|k: int| 0 <= k < parts@.len() ==> (#[trigger] parts@[k])@ == words(line@, sep)[k],
{
    let mut parts: Vec<Vec<u8>> = Vec::new();
    let mut current: Vec<u8> = Vec::new();
    let mut i: usize = 0;
    while i < line.len()
        invariant
            i <= line@.len(),
            parts@.len() + 1 == words(line@.subrange(0, i as int), sep).len(),
            forall|k: int|
                0 <= k < parts@.len() ==> (#[trigger] parts@[k])@ == words(
                    line@.subrange(0, i as int),
                    sep,
                )[k],
            current@ == words(line@.subrange(0, i as int), sep).last(),
        decreases line.len() - i,
    {
        proof {
            let longer = line@.subrange(0, i + 1);
            assert(longer.drop_last() =~= line@.subrange(0, i as int));
            assert(longer.last() == line@[i as int]);
        }
        if line[i] == sep {
            parts.push(current);
            current = Vec::new();
        } else {
            current.push(line[i]);
        }
        i += 1;
    }
    proof {
        assert(line@.subrange(0, i as int) =~= line@);
    }
    parts.push(current);
    parts
}

/// Reads a number without a sign or with a plus sign.
pub fn parse_index(token: &[u8]) -> (r: Option<usize>)
    ensures
        r == index_of(token@),
{
    let start: usize = if token.len() > 0 && token[0] == 43 {
        1
    } else {
        0
    };
    let ghost digits = unsigned_digits(token@);
    proof {
        assert(digits =~= token@.subrange(start as int, token@.len() as int));
    }
    if start == token.len() {
        return None;
    }
    let mut value: usize = 0;
    let mut i: usize = start;
    while i < token.len()
        invariant
            start <= i <= token@.len(),
            digits == unsigned_digits(token@),
            digits == token@.subrange(start as int, token@.len() as int),
            all_digits(digits.subrange(0, i - start)),
            value == digits_value(digits.subrange(0, i - start)),
        decreases token.len() - i,
    {
        let byte = token[i];
        let ghost shorter = digits.subrange(0, i - start);
        let ghost longer = digits.subrange(0, i + 1 - start);
        proof {
            assert(longer.drop_last() =~= shorter);
            assert(longer.last() == byte);
        }
        if byte < 48 || byte > 57 {
            proof {
                assert(digits[i - start] == byte);
                assert(!all_digits(digits));
            }
            return None;
        }
        let digit: usize = (byte - 48) as usize;
        if value > (usize::MAX - digit) / 10 {
            // Too large to be held, whatever follows.
            proof {
                assert(digits_value(longer) == value * 10 + digit);
                assert(value * 10 + digit > usize::MAX);
                lemma_digits_value_grows(digits, (i + 1 - start) as int);
                assert(digits.subrange(0, digits.len() as int) =~= digits);
            }
            return None;
        }
        value = value * 10 + digit;
        proof {
            assert forall|k: int| 0 <= k < longer.len() implies 48 <= #[trigger] longer[k] <= 57 by {
                if k < i - start {
                    assert(shorter[k] == longer[k]);
                }
            }
        }
        i += 1;
    }
    proof {
        assert(digits.subrange(0, i - start) =~= digits);
    }
    Some(value)
}

/// The number that a run of digits writes is at least the number that any
/// of its beginnings writes.
pub proof fn lemma_digits_value_grows(s: Seq<u8>, n: int)
    requires
        0 <= n <= s.len(),
    ensures
        digits_value(s.subrange(0, n)) <= digits_value(s.subrange(0, s.len() as int)),
    decreases s.len() - n,
{
    if n < s.len() {
        let longer = s.subrange(0, n + 1);
        assert(longer.drop_last() =~= s.subrange(0, n));
        lemma_digits_value_grows(s, n + 1);
    }
}

/// Reads a corner of a face.
pub fn parse_face_corner(token: &[u8]) -> (r: Option<FaceCorner>)
    ensures
        r == corner_of(token@),
{
    let parts = split(token, 47);
    if parts.len() < 3 {
        return None;
    }
    let position = parse_index(parts[0].as_slice());
    let uv = parse_index(parts[1].as_slice());
    let normal = parse_index(parts[2].as_slice());
    match (position, uv, normal) {
        (Some(p), Some(t), Some(n)) => {
            if p >= 1 && t >= 1 && n >= 1 {
                Some(FaceCorner { position: p - 1, uv: t - 1, normal: n - 1 })
            } else {
                None
            }
        },
        _ => None,
    }
}

/// The triangles of the fan that covers a face of `count` corners.
pub fn fan_triangles(count: usize) -> (r: Vec<(usize, usize, usize)>)
    ensures
        r@ == fan(count as nat),
{
    let mut triangles: Vec<(usize, usize, usize)> = Vec::new();
    if count < 2 {
        assert(triangles@ =~= fan(count as nat));
        return triangles;
    }
    let mut i: usize = 0;
    while i < count - 2
        invariant
            count >= 2,
            i <= count - 2,
            triangles@.len() == i,
            forall|k: int|
                0 <= k < i ==> triangles@[k] == (0usize, (k + 1) as usize, (k + 2) as usize),
        decreases count - 2 - i,
    {
        triangles.push((0, i + 1, i + 2));
        i += 1;
    }
    assert(triangles@ =~= fan(count as nat));
    triangles
}

} // verus!
