//! Strings built and taken apart one character at a time.
use vstd::prelude::*;

verus! {

/// `String::push` appends one character.
pub assume_specification[ String::push ](s: &mut String, c: char)
    ensures
        final(s)@ == old(s)@.push(c),
;

/// The text of an optional string.
pub open spec fn string_text(s: Option<String>) -> Option<Seq<char>> {
    match s {
        Some(s) => Some(s@),
        None => None,
    }
}

/// The text of an optional string slice.
pub open spec fn str_text(s: Option<&str>) -> Option<Seq<char>> {
    match s {
        Some(s) => Some(s@),
        None => None,
    }
}

/// The character of a decimal digit.
pub open spec fn digit_char(d: nat) -> char
    recommends
        d < 10,
{
    (('0' as u32 + d) as u32) as char
}

/// A number in decimal, without leading zeros.
pub open spec fn decimal(n: nat) -> Seq<char>
    decreases n,
{
    if n < 10 {
        seq![digit_char(n)]
    } else {
        decimal(n / 10).push(digit_char(n % 10))
    }
}

fn digit(d: u64) -> (c: char)
    requires
        d < 10,
    ensures
        c == digit_char(d as nat),
{
    match d {
        0 => '0',
        1 => '1',
        2 => '2',
        3 => '3',
        4 => '4',
        5 => '5',
        6 => '6',
        7 => '7',
        8 => '8',
        _ => '9',
    }
}

/// Appends `n` in decimal.
pub fn push_decimal(s: &mut String, n: u64)
    ensures
        final(s)@ == old(s)@ + decimal(n as nat),
    decreases n,
{
    if n >= 10 {
        push_decimal(s, n / 10);
    }
    s.push(digit(n % 10));
}

/// `s` followed by as many spaces as it takes to reach `width` characters.
pub open spec fn padded(s: Seq<char>, width: nat) -> Seq<char> {
    s + Seq::new(
        if s.len() < width {
            (width - s.len()) as nat
        } else {
            0
        },
        |i: int| ' ',
    )
}

/// A copy of `s`, filled up with spaces on the right to `width` characters.
pub fn pad_right(s: &str, width: usize) -> (res: String)
    ensures
        res@ == padded(s@, width as nat),
{
    let mut out = s.to_owned();
    let mut n = s.unicode_len();
    assert(out@ =~= s@ + Seq::new(0, |i: int| ' '));
    while n < width
        invariant
            s@.len() <= n,
            n <= width || n == s@.len(),
            out@ == s@ + Seq::new((n - s@.len()) as nat, |i: int| ' '),
        decreases width - n,
    {
        out.push(' ');
        n = n + 1;
        assert(out@ =~= s@ + Seq::new((n - s@.len()) as nat, |i: int| ' '));
    }
    out
}

/// Joins two strings.
pub fn join(a: &str, b: &str) -> (res: String)
    ensures
        res@ == a@ + b@,
{
    let mut out = a.to_owned();
    out.append(b);
    out
}

/// Joins three strings.
pub fn join3(a: &str, b: &str, c: &str) -> (res: String)
    ensures
        res@ == a@ + b@ + c@,
{
    let mut out = a.to_owned();
    out.append(b);
    out.append(c);
    out
}

/// Whether two strings hold the same characters.
pub fn same_text(a: &str, b: &str) -> (res: bool)
    ensures
        res == (a@ == b@),
{
    a.to_owned() == b.to_owned()
}

/// What is left of `s` after `prefix`, if it starts with it.
pub open spec fn without_prefix(s: Seq<char>, prefix: Seq<char>) -> Option<Seq<char>> {
    if prefix.is_prefix_of(s) {
        Some(s.skip(prefix.len() as int))
    } else {
        None
    }
}

/// Takes `prefix` off the front of `s`.
pub fn strip_prefix<'a>(s: &'a str, prefix: &str) -> (res: Option<&'a str>)
    ensures
        match res {
            Some(rest) => without_prefix(s@, prefix@) == Some(rest@),
            None => without_prefix(s@, prefix@) is None,
        },
{
    let n = s.unicode_len();
    let k = prefix.unicode_len();
    if k > n {
        return None;
    }
    if same_text(s.substring_char(0, k), prefix) {
        assert(s@.subrange(0, k as int) =~= s@.take(k as int));
        let rest = s.substring_char(k, n);
        assert(rest@ =~= s@.skip(k as int));
        Some(rest)
    } else {
        proof {
            if prefix@.is_prefix_of(s@) {
                assert(s@.subrange(0, k as int) =~= prefix@);
            }
        }
        None
    }
}

/// The pieces of `s` between occurrences of `sep`.
pub open spec fn split_at_char(s: Seq<char>, sep: char) -> Seq<Seq<char>>
    decreases s.len(),
{
    if s.len() == 0 {
        seq![Seq::empty()]
    } else {
        let before = split_at_char(s.drop_last(), sep);
        if s.last() == sep {
            before.push(Seq::empty())
        } else {
            before.drop_last().push(before.last().push(s.last()))
        }
    }
}

/// The texts that a list of strings holds.
pub open spec fn texts(list: Seq<String>) -> Seq<Seq<char>> {
    list.map_values(|s: String| s@)
}

/// Splits `s` at every `sep`.
pub fn split(s: &str, sep: char) -> (res: Vec<String>)
    ensures
        texts(res@) == split_at_char(s@, sep),
{
    let mut done: Vec<String> = Vec::new();
    let mut current = String::new();
    assert(s@.take(0) =~= Seq::<char>::empty());
    assert(texts(done@).push(current@) =~= split_at_char(s@.take(0), sep));
    for c in it: s.chars()
        invariant
            it.seq() == s@,
            texts(done@).push(current@) == split_at_char(s@.take(it.index() as int), sep),
    {
        let ghost prev = s@.take(it.index() as int);
        let ghost next = s@.take(it.index() + 1);
        proof {
            assert(next.drop_last() =~= prev);
            assert(next.last() == c);
        }
        if c == sep {
            let ghost old_done = done@;
            let ghost piece = current@;
            done.push(current);
            assert(texts(done@) =~= texts(old_done).push(piece));
            current = String::new();
        } else {
            let ghost piece = current@;
            current.push(c);
            assert(texts(done@).push(piece).drop_last() =~= texts(done@));
        }
    }
    assert(s@.take(s@.len() as int) =~= s@);
    let ghost old_done = done@;
    let ghost piece = current@;
    done.push(current);
    assert(texts(done@) =~= texts(old_done).push(piece));
    done
}

/// A line without the carriage return that ends it, if one does.
pub open spec fn without_return(line: Seq<char>) -> Seq<char> {
    if line.len() > 0 && line.last() == '\r' {
        line.drop_last()
    } else {
        line
    }
}

/// The lines of `s`: each ends at a newline, which may follow a carriage
/// return; what follows the last newline is a line if it is not empty.
pub open spec fn lines_of(s: Seq<char>) -> Seq<Seq<char>> {
    let pieces = split_at_char(s, '\n');
    let ended = pieces.drop_last().map_values(|p: Seq<char>| without_return(p));
    if pieces.last().len() == 0 {
        ended
    } else {
        ended.push(pieces.last())
    }
}

proof fn lemma_split_nonempty(s: Seq<char>, sep: char)
    ensures
        split_at_char(s, sep).len() > 0,
    decreases s.len(),
{
    if s.len() > 0 {
        lemma_split_nonempty(s.drop_last(), sep);
    }
}

/// The lines of `s`.
pub fn lines(s: &str) -> (res: Vec<String>)
    ensures
        texts(res@) == lines_of(s@),
{
    let pieces = split(s, '\n');
    let ghost all = split_at_char(s@, '\n');
    proof {
        lemma_split_nonempty(s@, '\n');
        assert(texts(pieces@).len() == pieces@.len());
    }
    let n = pieces.len() - 1;
    let mut res: Vec<String> = Vec::new();
    let ghost ended = all.drop_last().map_values(|p: Seq<char>| without_return(p));
    let mut i: usize = 0;
    assert(texts(res@) =~= ended.take(0));
    while i < n
        invariant
            i <= n,
            n == pieces@.len() - 1,
            texts(pieces@) == all,
            ended == all.drop_last().map_values(|p: Seq<char>| without_return(p)),
            texts(res@) == ended.take(i as int),
        decreases n - i,
    {
        let ghost before = res@;
        assert(texts(pieces@)[i as int] == pieces@[i as int]@);
        let piece = pieces[i].as_str();
        let k = piece.unicode_len();
        let line = if k > 0 && piece.get_char(k - 1) == '\r' {
            piece.substring_char(0, k - 1).to_owned()
        } else {
            piece.to_owned()
        };
        proof {
            if k > 0 {
                assert(piece@.subrange(0, k - 1) =~= piece@.drop_last());
            }
            assert(line@ == ended[i as int]);
        }
        res.push(line);
        proof {
            assert(texts(res@) =~= texts(before).push(line@));
            assert(ended.take(i + 1) =~= ended.take(i as int).push(ended[i as int]));
        }
        i = i + 1;
    }
    assert(ended.take(n as int) =~= ended);
    assert(texts(pieces@)[n as int] == pieces@[n as int]@);
    if pieces[n].as_str().unicode_len() > 0 {
        let ghost before = res@;
        res.push(pieces[n].clone());
        assert(texts(res@) =~= texts(before).push(pieces@[n as int]@));
    }
    res
}

/// The number that a text of digits stands for.
pub open spec fn digits_value(text: Seq<char>) -> int
    decreases text.len(),
{
    if text.len() == 0 {
        0
    } else {
        10 * digits_value(text.drop_last()) + (text.last() as int - '0' as int)
    }
}

/// A number written in decimal reads back as itself, is all digits, and starts
/// with no zero that could be left out.
pub proof fn law_decimal_reads_back(n: nat)
    ensures
        digits_value(decimal(n)) == n,
        decimal(n).len() > 0,
        forall|i: int| 0 <= i < decimal(n).len() ==> '0' <= #[trigger] decimal(n)[i] <= '9',
        n > 0 ==> decimal(n)[0] != '0',
    decreases n,
{
    reveal_with_fuel(digits_value, 2);
    if n >= 10 {
        law_decimal_reads_back(n / 10);
        assert(decimal(n).drop_last() =~= decimal(n / 10));
    } else {
        assert(decimal(n).drop_last() =~= Seq::<char>::empty());
    }
}

/// A padded text starts with the text, goes on with spaces only, and is as wide as
/// asked for, or as the text where that is wider.
pub proof fn law_padding_fills_with_spaces(s: Seq<char>, width: nat)
    ensures
        s.is_prefix_of(padded(s, width)),
        s.len() >= width ==> padded(s, width) == s,
        s.len() < width ==> padded(s, width).len() == width,
        forall|i: int| s.len() <= i < padded(s, width).len() ==> #[trigger] padded(s, width)[i]
            == ' ',
{
    assert(s =~= padded(s, width).take(s.len() as int));
    if s.len() >= width {
        assert(padded(s, width) =~= s);
    }
}

/// The pieces put together again, with `sep` between them.
pub open spec fn glued(pieces: Seq<Seq<char>>, sep: char) -> Seq<char>
    decreases pieces.len(),
{
    if pieces.len() == 0 {
        Seq::empty()
    } else if pieces.len() == 1 {
        pieces[0]
    } else {
        glued(pieces.drop_last(), sep).push(sep) + pieces.last()
    }
}

/// The pieces of a text, put together again, are the text; and no piece holds the
/// character that it was split at.
pub proof fn law_split_loses_nothing(s: Seq<char>, sep: char)
    ensures
        split_at_char(s, sep).len() > 0,
        glued(split_at_char(s, sep), sep) == s,
        forall|i: int|
            0 <= i < split_at_char(s, sep).len() ==> !(#[trigger] split_at_char(s, sep)[i]).contains(
                sep,
            ),
    decreases s.len(),
{
    let pieces = split_at_char(s, sep);
    if s.len() > 0 {
        let before = split_at_char(s.drop_last(), sep);
        law_split_loses_nothing(s.drop_last(), sep);
        if s.last() == sep {
            assert(pieces.drop_last() =~= before);
            assert(glued(pieces, sep) =~= s);
            assert forall|i: int| 0 <= i < pieces.len() implies !(#[trigger] pieces[i]).contains(
                sep,
            ) by {
                if i < before.len() {
                    assert(pieces[i] == before[i]);
                }
            }
        } else {
            assert(pieces.drop_last() =~= before.drop_last());
            assert(pieces.last() == before.last().push(s.last()));
            assert(glued(pieces, sep) =~= glued(before, sep).push(s.last()));
            assert(glued(pieces, sep) =~= s);
            assert forall|i: int| 0 <= i < pieces.len() implies !(#[trigger] pieces[i]).contains(
                sep,
            ) by {
                if i < before.len() - 1 {
                    assert(pieces[i] == before[i]);
                } else {
                    let old = before[before.len() - 1];
                    assert(!old.contains(sep));
                    assert forall|j: int| 0 <= j < pieces[i].len() implies pieces[i][j] != sep by {
                        if j < old.len() {
                            assert(old.contains(old[j]));
                        }
                    }
                }
            }
        }
    } else {
        assert(glued(pieces, sep) =~= s);
    }
}

/// Each line is a piece of the text between newlines, without the carriage return
/// before its newline; a last piece is a line only if it is not empty, and keeps
/// its carriage return.
pub proof fn law_lines_are_the_pieces(s: Seq<char>, i: int)
    requires
        0 <= i < split_at_char(s, '\n').len(),
    ensures
        ({
            let pieces = split_at_char(s, '\n');
            let last = pieces.len() - 1;
            &&& lines_of(s).len() == if pieces[last].len() == 0 {
                last
            } else {
                last + 1
            }
            &&& i < last ==> lines_of(s)[i] == pieces[i] || lines_of(s)[i].push('\r') == pieces[i]
            &&& i < last ==> pieces[i].len() > 0 && pieces[i].last() == '\r' ==> lines_of(s)[i].len()
                < pieces[i].len()
            &&& i == last && pieces[last].len() > 0 ==> lines_of(s)[i] == pieces[i]
        }),
{
    let p = split_at_char(s, '\n')[i];
    if p.len() > 0 && p.last() == '\r' {
        assert(p.drop_last().push('\r') =~= p);
    }
}

/// A prefix is taken off exactly where the text starts with it, and what is left
/// goes on from there.
pub proof fn law_prefix_and_rest_are_the_text(s: Seq<char>, prefix: Seq<char>)
    ensures
        without_prefix(s, prefix) is Some <==> s.len() >= prefix.len() && s.take(
            prefix.len() as int,
        ) == prefix,
        without_prefix(s, prefix) matches Some(rest) ==> prefix + rest == s,
{
    if prefix.is_prefix_of(s) {
        assert(prefix + s.skip(prefix.len() as int) =~= s);
        assert(s.take(prefix.len() as int) =~= prefix);
    }
}

/// A text that is there is taken as it is, and none stays none.
pub proof fn law_optional_texts(given: String, list: Seq<String>)
    ensures
        string_text(None) is None,
        string_text(Some(given)) == Some(given@),
        str_text(None) is None,
        texts(list).len() == list.len(),
        forall|i: int| 0 <= i < list.len() ==> #[trigger] texts(list)[i] == list[i]@,
{
}

/// The operations on text lose nothing: a number that is appended reads back, a
/// text that is padded or joined is still there, and what is split can be put
/// together again.
pub proof fn law_text_operations_lose_nothing(
    s: &mut String,
    n: u64,
    a: &str,
    b: &str,
    width: usize,
    joined: String,
    wide: String,
    sep: char,
    pieces: Vec<String>,
    same: bool,
    rest: Option<&str>,
)
    requires
        call_ensures(push_decimal, (s, n), ()),
        call_ensures(join, (a, b), joined),
        call_ensures(pad_right, (a, width), wide),
        call_ensures(split, (a, sep), pieces),
        call_ensures(same_text, (a, b), same),
        call_ensures(strip_prefix, (a, b), rest),
    ensures
        ({
            let added = final(s)@.skip(old(s)@.len() as int);
            &&& final(s)@.take(old(s)@.len() as int) == old(s)@
            &&& digits_value(added) == n
            &&& added.len() > 0
        }),
        joined@ == a@ + b@,
        a@.is_prefix_of(wide@),
        wide@.len() >= width,
        glued(texts(pieces@), sep) == a@,
        forall|i: int| 0 <= i < pieces@.len() ==> !(#[trigger] pieces@[i])@.contains(sep),
        same <==> a@ == b@,
        rest is Some ==> b@ + rest->0@ == a@,
        rest is None ==> !b@.is_prefix_of(a@),
{
    law_decimal_reads_back(n as nat);
    assert(final(s)@.skip(old(s)@.len() as int) =~= decimal(n as nat));
    assert(final(s)@.take(old(s)@.len() as int) =~= old(s)@);
    law_padding_fills_with_spaces(a@, width as nat);
    law_split_loses_nothing(a@, sep);
    law_prefix_and_rest_are_the_text(a@, b@);
    assert forall|i: int| 0 <= i < pieces@.len() implies !(#[trigger] pieces@[i])@.contains(sep) by {
        assert(texts(pieces@)[i] == pieces@[i]@);
    }
}

} // verus!
