//! The shape of a cookie: the names it holds and how long their values are, with
//! the values themselves left out, so that it can be logged.

use crate::text::{chars_of, decimal, push_decimal};
use vstd::prelude::*;
use vstd::utf8::encode_utf8;

verus! {

/// A character that is trimmed from the ends of a cookie's parts.
pub open spec fn is_blank(c: char) -> bool {
    c == ' ' || c == '\t'
}

/// Whether a text is visible ASCII, blanks among it. It has no other white space.
pub open spec fn is_visible_text(text: Seq<char>) -> bool {
    forall|i: int| 0 <= i < text.len() ==> ' ' <= #[trigger] text[i] <= '~' || text[i] == '\t'
}

/// The place of the first `mark` in a text, or the text's length.
pub open spec fn first_mark(text: Seq<char>, mark: char) -> nat
    decreases text.len(),
{
    if text.len() == 0 || text[0] == mark {
        0
    } else {
        1 + first_mark(text.skip(1), mark)
    }
}

/// The parts of a cookie: what stands between its semicolons.
pub open spec fn pieces(text: Seq<char>) -> Seq<Seq<char>>
    decreases text.len(),
{
    let end = first_mark(text, ';');
    if end < text.len() {
        seq![text.take(end as int)] + pieces(text.skip(end as int + 1))
    } else {
        seq![text]
    }
}

/// A text without the blanks at its start.
pub open spec fn trim_start(text: Seq<char>) -> Seq<char>
    decreases text.len(),
{
    if text.len() > 0 && is_blank(text[0]) {
        trim_start(text.skip(1))
    } else {
        text
    }
}

/// A text without the blanks at its end.
pub open spec fn trim_end(text: Seq<char>) -> Seq<char>
    decreases text.len(),
{
    if text.len() > 0 && is_blank(text.last()) {
        trim_end(text.drop_last())
    } else {
        text
    }
}

/// A text without the blanks at its ends.
pub open spec fn trimmed(text: Seq<char>) -> Seq<char> {
    trim_end(trim_start(text))
}

/// The name of a part and the length of its value: what stands before and after
/// its first `=`.
pub open spec fn name_and_length(part: Seq<char>) -> (Seq<char>, nat) {
    let mark = first_mark(part, '=');
    if mark < part.len() {
        (part.take(mark as int), (part.len() - mark - 1) as nat)
    } else {
        (part, 0)
    }
}

/// All that is shown of a cookie: for each part, its name and its value's length.
pub open spec fn shown_parts(text: Seq<char>) -> Seq<(Seq<char>, nat)> {
    pieces(text).map_values(|piece: Seq<char>| name_and_length(trimmed(piece)))
}

/// How one part is shown, as in `serviceToken(len=12)`.
pub open spec fn shown(part: (Seq<char>, nat)) -> Seq<char> {
    part.0 + "(len="@ + decimal(part.1) + ")"@
}

/// How several parts are shown, with commas between them.
pub open spec fn shown_list(parts: Seq<(Seq<char>, nat)>) -> Seq<char>
    decreases parts.len(),
{
    if parts.len() == 0 {
        Seq::empty()
    } else if parts.len() == 1 {
        shown(parts[0])
    } else {
        shown_list(parts.drop_last()) + ", "@ + shown(parts.last())
    }
}

/// The shape of a cookie.
pub open spec fn shape_of(text: Seq<char>) -> Seq<char> {
    shown_list(shown_parts(text))
}

/// A place with no mark before it, at which there is one or the text ends, is that
/// of the first mark.
proof fn lemma_first_mark(text: Seq<char>, mark: char, place: int)
    requires
        0 <= place <= text.len(),
        forall|i: int| 0 <= i < place ==> text[i] != mark,
        place < text.len() ==> text[place] == mark,
    ensures
        first_mark(text, mark) == place,
    decreases text.len(),
{
    if place > 0 {
        assert(text[0] != mark);
        lemma_first_mark(text.skip(1), mark, place - 1);
    }
}

/// The place of the first `mark` among the characters from `from` to `to`, or `to`.
fn find_mark(chars: &Vec<char>, from: usize, to: usize, mark: char) -> (place: usize)
    requires
        from <= to <= chars@.len(),
    ensures
        from <= place <= to,
        place - from == first_mark(chars@.subrange(from as int, to as int), mark),
{
    let mut place: usize = from;
    while place < to && chars[place] != mark
        invariant
            from <= place <= to <= chars@.len(),
            forall|i: int| from <= i < place ==> chars@[i] != mark,
        decreases to - place,
    {
        place = place + 1;
    }
    proof {
        lemma_first_mark(chars@.subrange(from as int, to as int), mark, place - from);
    }
    place
}

/// Whether a character is trimmed from the ends of a cookie's parts.
fn blank(c: char) -> (blank: bool)
    ensures
        blank == is_blank(c),
{
    c == ' ' || c == '\t'
}

/// Narrows the characters from `from` to `to` to those that trimming leaves.
fn trim(chars: &Vec<char>, from: usize, to: usize) -> (bounds: (usize, usize))
    requires
        from <= to <= chars@.len(),
    ensures
        from <= bounds.0 <= bounds.1 <= to,
        chars@.subrange(bounds.0 as int, bounds.1 as int) == trimmed(
            chars@.subrange(from as int, to as int),
        ),
{
    let ghost text = chars@.subrange(from as int, to as int);
    let mut start: usize = from;
    while start < to && blank(chars[start])
        invariant
            from <= start <= to <= chars@.len(),
            trim_start(text) == trim_start(chars@.subrange(start as int, to as int)),
        decreases to - start,
    {
        assert(chars@.subrange(start as int, to as int).skip(1) =~= chars@.subrange(
            start + 1,
            to as int,
        ));
        start = start + 1;
    }
    assert(trim_start(text) == chars@.subrange(start as int, to as int));
    let mut end: usize = to;
    while start < end && blank(chars[end - 1])
        invariant
            from <= start <= end <= to <= chars@.len(),
            trim_end(trim_start(text)) == trim_end(chars@.subrange(start as int, end as int)),
        decreases end - start,
    {
        assert(chars@.subrange(start as int, end as int).drop_last() =~= chars@.subrange(
            start as int,
            end - 1,
        ));
        end = end - 1;
    }
    (start, end)
}

/// Appends how the part from `from` to `to` is shown.
fn push_part(out: &mut String, text: &str, chars: &Vec<char>, from: usize, to: usize)
    requires
        text.is_ascii(),
        chars@ == text@,
        from <= to <= chars@.len(),
    ensures
        final(out)@ == old(out)@ + shown(
            name_and_length(trimmed(chars@.subrange(from as int, to as int))),
        ),
{
    let (start, end) = trim(chars, from, to);
    let mark = find_mark(chars, start, end, '=');
    let length: u64 = if mark < end {
        (end - mark - 1) as u64
    } else {
        0
    };
    let ghost part = chars@.subrange(start as int, end as int);
    assert(text@.subrange(start as int, mark as int) =~= part.take(mark - start));
    assert(part.take(part.len() as int) =~= part);
    out.append(text.substring_ascii(start, mark));
    out.append("(len=");
    push_decimal(out, length);
    out.append(")");
    assert(out@ =~= old(out)@ + shown(name_and_length(part)));
}

/// Listing one part more.
proof fn lemma_shown_list_push(parts: Seq<(Seq<char>, nat)>, part: (Seq<char>, nat))
    requires
        parts.len() > 0,
    ensures
        shown_list(parts.push(part)) == shown_list(parts) + ", "@ + shown(part),
{
    assert(parts.push(part).drop_last() =~= parts);
}

/// The shape of a cookie.
pub(crate) fn shape_text(text: &str) -> (shape: String)
    requires
        is_visible_text(text@),
    ensures
        shape@ == shape_of(text@),
{
    let chars = chars_of(text);
    let mut shape: String = String::new();
    let mut from: usize = 0;
    let ghost mut done: Seq<(Seq<char>, nat)> = Seq::empty();
    assert(text@.skip(0) =~= text@);
    assert(done + shown_parts(text@) =~= shown_parts(text@));
    loop
        invariant
            text.is_ascii(),
            chars@ == text@,
            from <= chars@.len(),
            done.len() > 0 <==> from > 0,
            done + shown_parts(text@.skip(from as int)) == shown_parts(text@),
            shape@ == shown_list(done),
        decreases chars@.len() - from,
    {
        let to = find_mark(&chars, from, chars.len(), ';');
        let ghost rest = text@.skip(from as int);
        let ghost piece = chars@.subrange(from as int, to as int);
        let ghost part = name_and_length(trimmed(piece));
        let ghost before = done;
        assert(chars@.subrange(from as int, chars@.len() as int) =~= rest);
        assert(rest.take(to - from) =~= piece);
        if from > 0 {
            shape.append(", ");
        }
        push_part(&mut shape, text, &chars, from, to);
        proof {
            done = before.push(part);
            if before.len() > 0 {
                lemma_shown_list_push(before, part);
            }
        }
        if to == chars.len() {
            assert(shown_parts(rest) =~= seq![part]);
            assert(done =~= shown_parts(text@));
            return shape;
        }
        assert(rest.skip(to + 1 - from) =~= text@.skip(to + 1));
        assert(shown_parts(rest) =~= seq![part] + shown_parts(text@.skip(to + 1)));
        assert(done + shown_parts(text@.skip(to + 1)) =~= before + shown_parts(rest));
        from = to + 1;
    }
}

/// How a name and its value are written in a cookie.
pub open spec fn written_pair(pair: (Seq<char>, Seq<char>)) -> Seq<char> {
    pair.0 + seq!['='] + pair.1
}

/// How names and their values are written as a cookie, with `; ` between them.
pub open spec fn written(pairs: Seq<(Seq<char>, Seq<char>)>) -> Seq<char>
    decreases pairs.len(),
{
    if pairs.len() == 0 {
        Seq::empty()
    } else if pairs.len() == 1 {
        written_pair(pairs[0])
    } else {
        written_pair(pairs[0]) + seq![';', ' '] + written(pairs.skip(1))
    }
}

/// Whether a name and a value can be written in a cookie: neither holds a
/// semicolon, the name holds no `=`, and the value does not end in a blank.
pub open spec fn is_writable(pair: (Seq<char>, Seq<char>)) -> bool {
    &&& !pair.0.contains(';')
    &&& !pair.0.contains('=')
    &&& !pair.1.contains(';')
    &&& pair.1.len() > 0 ==> !is_blank(pair.1.last())
}

/// The names of a cookie, without blanks before them, and the lengths of their values.
pub open spec fn names_and_lengths(pairs: Seq<(Seq<char>, Seq<char>)>) -> Seq<(Seq<char>, nat)> {
    pairs.map_values(|pair: (Seq<char>, Seq<char>)| (trim_start(pair.0), pair.1.len()))
}

/// The blanks before a text with something else in it are those of its start.
proof fn lemma_trim_start_of(front: Seq<char>, back: Seq<char>)
    requires
        back.len() > 0,
        !is_blank(back[0]),
    ensures
        trim_start(front + back) == trim_start(front) + back,
        trim_start(front).len() <= front.len(),
        trim_start(front) == front.skip(front.len() - trim_start(front).len()),
    decreases front.len(),
{
    if front.len() > 0 && is_blank(front[0]) {
        lemma_trim_start_of(front.skip(1), back);
        assert((front + back).skip(1) =~= front.skip(1) + back);
        let kept = trim_start(front);
        assert(front.skip(1).skip(front.len() - 1 - kept.len()) =~= front.skip(
            front.len() - kept.len(),
        ));
    } else {
        assert(front.skip(0) =~= front);
        if front.len() == 0 {
            assert(front + back =~= back);
        }
    }
}

/// A written pair reads back, with or without a space before it.
proof fn lemma_written_pair(pair: (Seq<char>, Seq<char>), lead: Seq<char>)
    requires
        is_writable(pair),
        lead == Seq::<char>::empty() || lead == seq![' '],
    ensures
        name_and_length(trimmed(lead + written_pair(pair))) == (trim_start(pair.0), pair.1.len()),
        !(lead + written_pair(pair)).contains(';'),
{
    let name = trim_start(pair.0);
    let back = seq!['='] + pair.1;
    let text = name + back;
    let full = lead + written_pair(pair);
    let led = lead + pair.0;
    assert(full =~= led + back);
    lemma_trim_start_of(pair.0, back);
    lemma_trim_start_of(led, back);
    if lead.len() == 0 {
        assert(led =~= pair.0);
    } else {
        assert(led.skip(1) =~= pair.0);
    }
    assert(trim_start(led) == name);
    assert(!is_blank(text.last())) by {
        if pair.1.len() > 0 {
            assert(text.last() == pair.1.last());
        }
    }
    assert(trimmed(full) == text);
    let mark = name.len() as int;
    assert forall|i: int| 0 <= i < mark implies text[i] != '=' by {
        assert(text[i] == pair.0[i + pair.0.len() - mark]);
    }
    lemma_first_mark(text, '=', mark);
    assert(text.take(mark) =~= name);
    if full.contains(';') {
        let i = choose|i: int| 0 <= i < full.len() && full[i] == ';';
        let k = i - lead.len();
        if i >= lead.len() {
            if k < pair.0.len() {
                assert(pair.0[k] == ';');
            } else if k > pair.0.len() {
                assert(pair.1[k - pair.0.len() - 1] == ';');
            }
        }
    }
}

/// The parts of a written cookie, with or without a space before it.
proof fn lemma_written_parts(pairs: Seq<(Seq<char>, Seq<char>)>, lead: Seq<char>)
    requires
        pairs.len() > 0,
        forall|i: int| 0 <= i < pairs.len() ==> is_writable(#[trigger] pairs[i]),
        lead == Seq::<char>::empty() || lead == seq![' '],
    ensures
        shown_parts(lead + written(pairs)) == names_and_lengths(pairs),
    decreases pairs.len(),
{
    let head = lead + written_pair(pairs[0]);
    let text = lead + written(pairs);
    lemma_written_pair(pairs[0], lead);
    assert forall|i: int| 0 <= i < head.len() implies head[i] != ';' by {
        assert(head.contains(head[i]));
    }
    if pairs.len() == 1 {
        lemma_first_mark(head, ';', head.len() as int);
        assert(shown_parts(text) =~= names_and_lengths(pairs));
    } else {
        let rest = pairs.skip(1);
        let space = seq![' '];
        assert(text =~= head + seq![';'] + (space + written(rest)));
        lemma_first_mark(text, ';', head.len() as int);
        assert(text.take(head.len() as int) =~= head);
        assert(text.skip(head.len() as int + 1) =~= space + written(rest));
        lemma_written_parts(rest, space);
        assert(names_and_lengths(pairs) =~= seq![(trim_start(pairs[0].0), pairs[0].1.len())]
            + names_and_lengths(rest));
        assert(shown_parts(text) =~= seq![(trim_start(pairs[0].0), pairs[0].1.len())] + shown_parts(
            space + written(rest),
        ));
    }
}

/// The shape of a written cookie lists its names, each with its value's length.
pub proof fn shape_lists_names_and_lengths(pairs: Seq<(Seq<char>, Seq<char>)>)
    requires
        pairs.len() > 0,
        forall|i: int| 0 <= i < pairs.len() ==> is_writable(#[trigger] pairs[i]),
    ensures
        shape_of(written(pairs)) == shown_list(names_and_lengths(pairs)),
{
    lemma_written_parts(pairs, Seq::empty());
    assert(Seq::<char>::empty() + written(pairs) =~= written(pairs));
}

/// A shape shows nothing of a cookie's values but their lengths: cookies with the
/// same names and with values of the same lengths have one shape.
pub proof fn shape_hides_values(
    first: Seq<(Seq<char>, Seq<char>)>,
    second: Seq<(Seq<char>, Seq<char>)>,
)
    requires
        first.len() > 0,
        first.len() == second.len(),
        forall|i: int| 0 <= i < first.len() ==> is_writable(#[trigger] first[i]),
        forall|i: int| 0 <= i < second.len() ==> is_writable(#[trigger] second[i]),
        forall|i: int|
            0 <= i < first.len() ==> (#[trigger] first[i]).0 == second[i].0 && first[i].1.len()
                == second[i].1.len(),
    ensures
        shape_of(written(first)) == shape_of(written(second)),
{
    shape_lists_names_and_lengths(first);
    shape_lists_names_and_lengths(second);
    assert(names_and_lengths(first) =~= names_and_lengths(second));
}

/// The values of a visible cookie are visible.
proof fn lemma_visible_values(pairs: Seq<(Seq<char>, Seq<char>)>)
    requires
        is_visible_text(written(pairs)),
    ensures
        forall|i: int| 0 <= i < pairs.len() ==> is_visible_text((#[trigger] pairs[i]).1),
    decreases pairs.len(),
{
    if pairs.len() > 0 {
        let text = written(pairs);
        let head = written_pair(pairs[0]);
        let value = pairs[0].1;
        assert forall|k: int| 0 <= k < value.len() implies ' ' <= #[trigger] value[k] <= '~'
            || value[k] == '\t' by {
            assert(text[pairs[0].0.len() + 1 + k] == value[k]);
        }
        assert(is_visible_text(value));
        if pairs.len() > 1 {
            let rest = pairs.skip(1);
            let tail = written(rest);
            assert forall|k: int| 0 <= k < tail.len() implies ' ' <= #[trigger] tail[k] <= '~'
                || tail[k] == '\t' by {
                assert(text[head.len() + 2 + k] == tail[k]);
            }
            lemma_visible_values(rest);
            assert forall|i: int| 0 <= i < pairs.len() implies is_visible_text(
                (#[trigger] pairs[i]).1,
            ) by {
                if i > 0 {
                    assert(rest[i - 1] == pairs[i]);
                }
            }
        }
    }
}

/// The names of a cookie, without blanks before them, and the lengths of their values
/// in bytes.
pub open spec fn names_and_byte_lengths(pairs: Seq<(Seq<char>, Seq<char>)>) -> Seq<
    (Seq<char>, nat),
> {
    pairs.map_values(
        |pair: (Seq<char>, Seq<char>)| (trim_start(pair.0), encode_utf8(pair.1).len()),
    )
}

/// The shape of a visible cookie lists its names, each with its value's length in bytes.
pub proof fn visible_shape_lists_byte_lengths(pairs: Seq<(Seq<char>, Seq<char>)>)
    requires
        pairs.len() > 0,
        forall|i: int| 0 <= i < pairs.len() ==> is_writable(#[trigger] pairs[i]),
        is_visible_text(written(pairs)),
    ensures
        shape_of(written(pairs)) == shown_list(names_and_byte_lengths(pairs)),
{
    shape_lists_names_and_lengths(pairs);
    lemma_visible_values(pairs);
    assert forall|i: int| 0 <= i < pairs.len() implies encode_utf8((#[trigger] pairs[i]).1).len()
        == pairs[i].1.len() by {
        vstd::utf8::is_ascii_chars_encode_utf8(pairs[i].1);
    }
    assert(names_and_byte_lengths(pairs) =~= names_and_lengths(pairs));
}

/// What is known of the place of the first mark.
proof fn lemma_first_mark_place(text: Seq<char>, mark: char)
    ensures
        first_mark(text, mark) <= text.len(),
        forall|i: int| 0 <= i < first_mark(text, mark) ==> text[i] != mark,
        first_mark(text, mark) < text.len() ==> text[first_mark(text, mark) as int] == mark,
    decreases text.len(),
{
    if text.len() > 0 && text[0] != mark {
        let rest = text.skip(1);
        lemma_first_mark_place(rest, mark);
        assert forall|i: int| 0 <= i < first_mark(text, mark) implies text[i] != mark by {
            if i > 0 {
                assert(rest[i - 1] == text[i]);
            }
        }
    }
}

/// The parts of two texts with a semicolon between them are those of the one and of the other.
proof fn lemma_pieces_join(first: Seq<char>, second: Seq<char>)
    ensures
        pieces(first + seq![';'] + second) == pieces(first) + pieces(second),
        pieces(first).len() > 0,
    decreases first.len(),
{
    let whole = first + seq![';'] + second;
    let end = first_mark(first, ';') as int;
    lemma_first_mark_place(first, ';');
    assert forall|i: int| 0 <= i < end implies whole[i] != ';' by {
        assert(whole[i] == first[i]);
    }
    lemma_first_mark(whole, ';', end);
    assert(whole.take(end) =~= first.take(end));
    if end < first.len() {
        let rest = first.skip(end + 1);
        lemma_pieces_join(rest, second);
        assert(whole.skip(end + 1) =~= rest + seq![';'] + second);
        assert(pieces(whole) =~= pieces(first) + pieces(second));
    } else {
        assert(first.take(end) =~= first);
        assert(whole.skip(end + 1) =~= second);
        assert(pieces(whole) =~= pieces(first) + pieces(second));
    }
}

/// Two lists of parts are shown one after the other.
proof fn lemma_shown_list_join(first: Seq<(Seq<char>, nat)>, second: Seq<(Seq<char>, nat)>)
    requires
        first.len() > 0,
        second.len() > 0,
    ensures
        shown_list(first + second) == shown_list(first) + ", "@ + shown_list(second),
    decreases second.len(),
{
    let whole = first + second;
    assert(whole.drop_last() =~= first + second.drop_last());
    if second.len() == 1 {
        assert(whole.drop_last() =~= first);
    } else {
        lemma_shown_list_join(first, second.drop_last());
    }
    assert(shown_list(whole) =~= shown_list(first) + ", "@ + shown_list(second));
}

/// A text without a semicolon is its own only part.
proof fn lemma_one_piece(text: Seq<char>)
    requires
        !text.contains(';'),
    ensures
        shape_of(text) == shown(name_and_length(trimmed(text))),
{
    assert forall|i: int| 0 <= i < text.len() implies text[i] != ';' by {
        assert(text.contains(text[i]));
    }
    lemma_first_mark(text, ';', text.len() as int);
    assert(shown_parts(text) =~= seq![name_and_length(trimmed(text))]);
}

/// A blank after a text is trimmed.
proof fn lemma_trimmed_push(text: Seq<char>, blank: char)
    requires
        is_blank(blank),
    ensures
        trimmed(text.push(blank)) == trimmed(text),
    decreases text.len(),
{
    let whole = text.push(blank);
    if text.len() == 0 {
        assert(whole.skip(1) =~= text);
    } else if is_blank(text[0]) {
        assert(whole.skip(1) =~= text.skip(1).push(blank));
        lemma_trimmed_push(text.skip(1), blank);
    } else {
        assert(whole.drop_last() =~= text);
        assert(whole.last() == blank);
    }
}

/// The shape of two cookies with a semicolon between them is the shape of the one, a comma and a
/// space, and the shape of the other.
pub proof fn shapes_are_listed_with_commas(first: Seq<char>, second: Seq<char>)
    ensures
        shape_of(first + seq![';'] + second) == shape_of(first) + ", "@ + shape_of(second),
{
    lemma_pieces_join(first, second);
    lemma_pieces_join(second, first);
    let whole = first + seq![';'] + second;
    assert(shown_parts(whole) =~= shown_parts(first) + shown_parts(second));
    lemma_shown_list_join(shown_parts(first), shown_parts(second));
}

/// Spaces and tabs before and after a part of a cookie do not show in its shape.
pub proof fn shape_ignores_blanks_around_a_part(part: Seq<char>, blank: char)
    requires
        !part.contains(';'),
        blank == ' ' || blank == '\t',
    ensures
        shape_of(seq![blank] + part) == shape_of(part),
        shape_of(part.push(blank)) == shape_of(part),
{
    let before = seq![blank] + part;
    let behind = part.push(blank);
    assert(!before.contains(';')) by {
        if before.contains(';') {
            let i = choose|i: int| 0 <= i < before.len() && before[i] == ';';
            assert(part[i - 1] == ';');
        }
    }
    assert(!behind.contains(';')) by {
        if behind.contains(';') {
            let i = choose|i: int| 0 <= i < behind.len() && behind[i] == ';';
            assert(part[i] == ';');
        }
    }
    lemma_one_piece(part);
    lemma_one_piece(before);
    lemma_one_piece(behind);
    assert(before.skip(1) =~= part);
    lemma_trimmed_push(part, blank);
}

/// A part of a cookie is shown as its name, which ends at the first equals sign, with the length
/// of all that follows it, in decimal, and nothing else of the value.
pub proof fn part_is_shown_by_name_and_length(name: Seq<char>, value: Seq<char>)
    requires
        !name.contains(';') && !name.contains('='),
        !value.contains(';'),
        name.len() > 0 ==> name[0] != ' ' && name[0] != '\t',
        value.len() > 0 ==> value.last() != ' ' && value.last() != '\t',
    ensures
        shape_of(name + seq!['='] + value) == name + "(len="@ + decimal(value.len()) + ")"@,
{
    let pair = (name, value);
    let text = name + seq!['='] + value;
    lemma_written_pair(pair, Seq::empty());
    assert(Seq::<char>::empty() + written_pair(pair) =~= text);
    lemma_one_piece(text);
}

/// A part of a cookie without an equals sign is shown as it is, with a length of zero.
pub proof fn part_without_a_value_has_length_zero(part: Seq<char>)
    requires
        !part.contains(';') && !part.contains('='),
        part.len() > 0 ==> part[0] != ' ' && part[0] != '\t',
        part.len() > 0 ==> part.last() != ' ' && part.last() != '\t',
    ensures
        shape_of(part) == part + "(len=0)"@,
{
    lemma_one_piece(part);
    assert forall|i: int| 0 <= i < part.len() implies part[i] != '=' by {
        assert(part.contains(part[i]));
    }
    lemma_first_mark(part, '=', part.len() as int);
    assert(trimmed(part) == part);
    reveal_strlit("(len=");
    reveal_strlit(")");
    reveal_strlit("(len=0)");
    assert("(len="@ + decimal(0) + ")"@ =~= "(len=0)"@);
    assert(shape_of(part) =~= part + "(len=0)"@);
}

} // verus!
