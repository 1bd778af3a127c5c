//! Text helpers: joining names for humans, and filling in the `%s` placeholder.

use vstd::prelude::*;

verus! {

/// The separator between neighbouring names, all but the last pair.
pub open spec fn comma_sep() -> Seq<char> {
    seq![',', ' ']
}

/// The Norwegian "and" that stands before the last name.
pub open spec fn and_sep() -> Seq<char> {
    seq![' ', 'o', 'g', ' ']
}

/// `parts` with `sep` between each neighbouring pair.
pub open spec fn joined(parts: Seq<Seq<char>>, sep: Seq<char>) -> Seq<char>
    decreases parts.len(),
{
    if parts.len() == 0 {
        Seq::empty()
    } else if parts.len() == 1 {
        parts[0]
    } else {
        joined(parts.drop_last(), sep) + sep + parts.last()
    }
}

/// "a", "a og b", "a, b og c", ...: the names joined by commas, the last one by " og ".
pub open spec fn human_readable(parts: Seq<Seq<char>>) -> Seq<char> {
    if parts.len() == 0 {
        Seq::empty()
    } else if parts.len() == 1 {
        parts[0]
    } else {
        joined(parts.drop_last(), comma_sep()) + and_sep() + parts.last()
    }
}

/// The number of characters in all of `parts` together.
pub open spec fn total_length(parts: Seq<Seq<char>>) -> int
    decreases parts.len(),
{
    if parts.len() == 0 {
        0
    } else {
        total_length(parts.drop_last()) + parts.last().len()
    }
}

proof fn lemma_total_length_of_prefix(parts: Seq<Seq<char>>, k: int)
    requires
        0 <= k <= parts.len(),
    ensures
        0 <= total_length(parts.take(k)) <= total_length(parts),
        k < parts.len() ==> total_length(parts.take(k + 1)) == total_length(parts.take(k)) + parts[k].len(),
    decreases parts.len(),
{
    if k < parts.len() {
        assert(parts.take(k + 1).drop_last() =~= parts.take(k));
        lemma_total_length_of_prefix(parts.drop_last(), k);
        assert(parts.drop_last().take(k) =~= parts.take(k));
    } else {
        assert(parts.take(k) =~= parts);
    }
    if parts.len() > 0 {
        lemma_total_length_of_prefix(parts.drop_last(), 0);
        assert(parts.drop_last().take(0) =~= parts.take(0));
    } else {
        assert(parts.take(k) =~= parts);
    }
}

/// Where `parts` joined by ", " puts each part: after all earlier parts and one separator
/// for each of them.
proof fn lemma_joined_positions(parts: Seq<Seq<char>>)
    requires
        parts.len() >= 1,
    ensures
        joined(parts, comma_sep()).len() == total_length(parts) + 2 * (parts.len() - 1),
        forall|i: int| #![trigger parts[i]] 0 <= i < parts.len() ==> joined(parts, comma_sep()).subrange(
            total_length(parts.take(i)) + 2 * i,
            total_length(parts.take(i)) + 2 * i + parts[i].len(),
        ) == parts[i],
    decreases parts.len(),
{
    let n = parts.len();
    if n == 1 {
        assert(parts.drop_last().len() == 0);
        assert(total_length(parts.drop_last()) == 0);
        assert(total_length(parts) == parts[0].len());
        assert(parts.take(0).len() == 0);
        assert(joined(parts, comma_sep()).subrange(0, parts[0].len() as int) =~= parts[0]);
    } else {
        let earlier = parts.drop_last();
        lemma_joined_positions(earlier);
        let head = joined(earlier, comma_sep());
        let whole = joined(parts, comma_sep());
        assert(whole == head + comma_sep() + parts.last());
        assert(total_length(parts) == total_length(earlier) + parts.last().len());
        assert(whole.len() == head.len() + 2 + parts.last().len());
        assert forall|i: int| #![trigger parts[i]] 0 <= i < n implies whole.subrange(
            total_length(parts.take(i)) + 2 * i,
            total_length(parts.take(i)) + 2 * i + parts[i].len(),
        ) == parts[i] by {
            lemma_total_length_of_prefix(parts, i);
            if i < n - 1 {
                assert(earlier.take(i) =~= parts.take(i));
                assert(earlier[i] == parts[i]);
                lemma_total_length_of_prefix(earlier, i);
                lemma_total_length_of_prefix(earlier, i + 1);
                assert(earlier.take(i + 1) =~= parts.take(i + 1));
                let start = total_length(parts.take(i)) + 2 * i;
                assert(start + parts[i].len() <= head.len());
                assert(whole.subrange(start, start + parts[i].len()) =~= head.subrange(start, start + parts[i].len()));
            } else {
                assert(parts.take(i) =~= earlier);
                let start = head.len() as int + 2;
                assert(whole.subrange(start, start + parts[i].len() as int) =~= parts[i]);
            }
        }
    }
}

/// A name before the last stands in the joined text where all earlier names and their
/// separators end.
proof fn lemma_name_in_human_readable(parts: Seq<Seq<char>>, i: int)
    requires
        parts.len() >= 2,
        0 <= i < parts.len() - 1,
    ensures
        human_readable(parts).subrange(
            total_length(parts.take(i)) + 2 * i,
            total_length(parts.take(i)) + 2 * i + parts[i].len(),
        ) == parts[i],
{
    let earlier = parts.drop_last();
    lemma_joined_positions(earlier);
    let head = joined(earlier, comma_sep());
    let whole = human_readable(parts);
    assert(whole == head + and_sep() + parts.last());
    assert(earlier.take(i) =~= parts.take(i));
    assert(earlier[i] == parts[i]);
    lemma_total_length_of_prefix(earlier, i);
    lemma_total_length_of_prefix(earlier, i + 1);
    let start = total_length(parts.take(i)) + 2 * i;
    assert(head.subrange(start, start + parts[i].len()) == parts[i]);
    assert(start + parts[i].len() <= head.len());
    assert(whole.subrange(start, start + parts[i].len()) =~= head.subrange(start, start + parts[i].len()));
}

/// Joining names for people keeps every name whole and in order: with two or more names,
/// each name but the last stands after all earlier names and a two-character ", " for each
/// of them, the last after those and " og ", and nothing else is added; one name is itself;
/// no names give nothing.
pub proof fn law_human_readable_keeps_every_name(parts: Seq<Seq<char>>)
    ensures
        parts.len() == 0 ==> human_readable(parts).len() == 0,
        parts.len() == 1 ==> human_readable(parts) == parts[0],
        parts.len() >= 2 ==> human_readable(parts).len() == total_length(parts) + 2 * (parts.len() - 2) + 4,
        parts.len() >= 2 ==> forall|i: int| #![trigger parts[i]] 0 <= i < parts.len() - 1
            ==> human_readable(parts).subrange(
                total_length(parts.take(i)) + 2 * i,
                total_length(parts.take(i)) + 2 * i + parts[i].len(),
            ) == parts[i],
        parts.len() >= 2 ==> human_readable(parts).subrange(
            total_length(parts.drop_last()) + 2 * (parts.len() - 2),
            total_length(parts.drop_last()) + 2 * (parts.len() - 2) + 4,
        ) == seq![' ', 'o', 'g', ' '],
        parts.len() >= 2 ==> human_readable(parts).subrange(
            total_length(parts.drop_last()) + 2 * (parts.len() - 2) + 4,
            human_readable(parts).len() as int,
        ) == parts.last(),
{
    let n = parts.len();
    if n >= 2 {
        let earlier = parts.drop_last();
        lemma_joined_positions(earlier);
        let head = joined(earlier, comma_sep());
        let whole = human_readable(parts);
        assert(whole == head + and_sep() + parts.last());
        assert(total_length(parts) == total_length(earlier) + parts.last().len());
        assert forall|i: int| #![trigger parts[i]] 0 <= i < n - 1 implies whole.subrange(
            total_length(parts.take(i)) + 2 * i,
            total_length(parts.take(i)) + 2 * i + parts[i].len(),
        ) == parts[i] by {
            lemma_name_in_human_readable(parts, i);
        }
        assert(whole.subrange(head.len() as int, head.len() as int + 4) =~= seq![' ', 'o', 'g', ' ']);
        assert(whole.subrange(head.len() as int + 4, whole.len() as int) =~= parts.last());
    }
}

/// The character sequences of a list of strings.
pub open spec fn string_views(items: Seq<String>) -> Seq<Seq<char>> {
    items.map_values(|s: String| s@)
}

/// Joins names the way a person would list them: "a", "a og b", "a, b og c".
pub fn join_human_readable(items: &Vec<String>) -> (joined_text: String)
    ensures
        joined_text@ == human_readable(string_views(items@)),
{
    let n = items.len();
    if n == 0 {
        return String::new();
    }
    if n == 1 {
        return items[0].clone();
    }
    let ghost views = string_views(items@);
    let mut out = items[0].clone();
    proof {
        reveal_strlit(", ");
        reveal_strlit(" og ");
        assert(views.take(1) =~= seq![views[0]]);
    }
    let mut i: usize = 1;
    while i < n - 1
        invariant
            1 <= i <= n - 1,
            n == items.len(),
            views == string_views(items@),
            out@ == joined(views.take(i as int), comma_sep()),
        decreases n - 1 - i,
    {
        out.append(", ");
        out.append(items[i].as_str());
        proof {
            reveal_strlit(", ");
            assert(views.take(i + 1).drop_last() =~= views.take(i as int));
            assert(", "@ =~= comma_sep());
        }
        i = i + 1;
    }
    out.append(" og ");
    out.append(items[n - 1].as_str());
    proof {
        assert(views.take((n - 1) as int) =~= views.drop_last());
        assert(" og "@ =~= and_sep());
    }
    out
}

/// The placeholder that a reminder text holds where the mentions go.
pub open spec fn placeholder() -> Seq<char> {
    seq!['%', 's']
}

/// `template` with every `%s`, read left to right without overlap, replaced by `value`.
pub open spec fn filled_template(template: Seq<char>, value: Seq<char>) -> Seq<char>
    decreases template.len(),
{
    if template.len() == 0 {
        Seq::empty()
    } else if template.len() >= 2 && template[0] == '%' && template[1] == 's' {
        value + filled_template(template.skip(2), value)
    } else {
        seq![template[0]] + filled_template(template.skip(1), value)
    }
}

/// Whether `%s` occurs in `template`.
pub open spec fn has_placeholder(template: Seq<char>) -> bool {
    exists|i: int| 0 <= i < template.len() - 1 && #[trigger] template[i] == '%' && template[i + 1] == 's'
}

/// A template without `%s` is left as it is.
pub proof fn law_fill_without_placeholder(template: Seq<char>, value: Seq<char>)
    requires
        !has_placeholder(template),
    ensures
        filled_template(template, value) == template,
    decreases template.len(),
{
    if template.len() > 0 {
        let rest = template.skip(1);
        assert(!has_placeholder(rest)) by {
            if has_placeholder(rest) {
                let i = choose|i: int| 0 <= i < rest.len() - 1 && #[trigger] rest[i] == '%' && rest[i + 1] == 's';
                assert(template[i + 1] == '%' && template[i + 2] == 's');
            }
        }
        law_fill_without_placeholder(rest, value);
        assert(seq![template[0]] + rest =~= template);
    }
}

/// `String::push`: appends one character.
#[verifier::external_body]
fn push_char(s: &mut String, c: char)
    ensures
        final(s)@ == old(s)@.push(c),
{
    s.push(c);
}

/// Replaces every `%s` in `template` by `value`, as `str::replace("%s", value)` does.
pub fn fill_placeholder(template: &str, value: &str) -> (filled: String)
    ensures
        filled@ == filled_template(template@, value@),
{
    let n = template.unicode_len();
    let mut out = String::new();
    let mut i: usize = 0;
    proof {
        assert(template@.skip(0) =~= template@);
    }
    while i < n
        invariant
            i <= n,
            n == template@.len(),
            filled_template(template@, value@) == out@ + filled_template(template@.skip(i as int), value@),
        decreases n - i,
    {
        let ghost rest = template@.skip(i as int);
        let c = template.get_char(i);
        if c == '%' && i + 1 < n && template.get_char(i + 1) == 's' {
            let ghost before = out@;
            out.append(value);
            proof {
                assert(rest.skip(2) =~= template@.skip(i + 2));
                assert(filled_template(rest, value@) == value@ + filled_template(rest.skip(2), value@));
                assert(before + (value@ + filled_template(rest.skip(2), value@))
                    =~= out@ + filled_template(template@.skip(i + 2), value@));
            }
            i = i + 2;
        } else {
            let ghost before = out@;
            push_char(&mut out, c);
            proof {
                assert(rest.skip(1) =~= template@.skip(i + 1));
                assert(filled_template(rest, value@) == seq![c] + filled_template(rest.skip(1), value@));
                assert(before + (seq![c] + filled_template(rest.skip(1), value@))
                    =~= out@ + filled_template(template@.skip(i + 1), value@));
            }
            i = i + 1;
        }
    }
    proof {
        assert(template@.skip(n as int) =~= Seq::<char>::empty());
        assert(out@ + Seq::<char>::empty() =~= out@);
    }
    out
}

/// The character of a decimal digit.
pub open spec fn digit_char(d: nat) -> char {
    if d == 0 { '0' }
    else if d == 1 { '1' }
    else if d == 2 { '2' }
    else if d == 3 { '3' }
    else if d == 4 { '4' }
    else if d == 5 { '5' }
    else if d == 6 { '6' }
    else if d == 7 { '7' }
    else if d == 8 { '8' }
    else { '9' }
}

/// The decimal notation of `n`, without leading zeros.
pub open spec fn decimal_digits(n: nat) -> Seq<char>
    decreases n,
{
    if n < 10 {
        seq![digit_char(n)]
    } else {
        decimal_digits(n / 10).push(digit_char(n % 10))
    }
}

fn digit(d: u32) -> (c: char)
    requires
        d < 10,
    ensures
        c == digit_char(d as nat),
{
    if d == 0 { '0' }
    else if d == 1 { '1' }
    else if d == 2 { '2' }
    else if d == 3 { '3' }
    else if d == 4 { '4' }
    else if d == 5 { '5' }
    else if d == 6 { '6' }
    else if d == 7 { '7' }
    else if d == 8 { '8' }
    else { '9' }
}

/// The decimal notation of `n`, as `n.to_string()` writes it.
pub fn decimal(n: u32) -> (text: String)
    ensures
        text@ == decimal_digits(n as nat),
{
    let mut rest = n;
    let mut low: Vec<char> = Vec::new();
    while rest >= 10
        invariant
            decimal_digits(n as nat) == decimal_digits(rest as nat) + low@,
        decreases rest,
    {
        let d = rest % 10;
        let ghost before = low@;
        low.insert(0, digit(d));
        proof {
            assert(decimal_digits(rest as nat) == decimal_digits((rest / 10) as nat).push(digit_char(d as nat)));
            assert(decimal_digits((rest / 10) as nat).push(digit_char(d as nat)) + before
                =~= decimal_digits((rest / 10) as nat) + low@);
        }
        rest = rest / 10;
    }
    let mut text = String::new();
    push_char(&mut text, digit(rest));
    let mut i: usize = 0;
    while i < low.len()
        invariant
            i <= low@.len(),
            text@ == seq![digit_char(rest as nat)] + low@.take(i as int),
            rest < 10,
        decreases low.len() - i,
    {
        let ghost before = text@;
        push_char(&mut text, low[i]);
        proof {
            assert(low@.take(i + 1) =~= low@.take(i as int).push(low@[i as int]));
            assert(text@ =~= seq![digit_char(rest as nat)] + low@.take(i + 1));
        }
        i = i + 1;
    }
    proof {
        assert(low@.take(low@.len() as int) =~= low@);
    }
    text
}

} // verus!
