use vstd::prelude::*;
use vstd::std_specs::iter::IteratorSpec;

verus! {

/// Unicode's `White_Space` property.
pub open spec fn is_white_space(c: char) -> bool {
    ('\u{9}' <= c && c <= '\u{d}') || c == ' ' || c == '\u{85}' || c == '\u{a0}' || c
        == '\u{1680}' || ('\u{2000}' <= c && c <= '\u{200a}') || c == '\u{2028}' || c
        == '\u{2029}' || c == '\u{202f}' || c == '\u{205f}' || c == '\u{3000}'
}

/// Executable form of `is_white_space`.
pub fn is_white_space_char(c: char) -> (r: bool)
    ensures
        r == is_white_space(c),
{
    ('\u{9}' <= c && c <= '\u{d}') || c == ' ' || c == '\u{85}' || c == '\u{a0}' || c
        == '\u{1680}' || ('\u{2000}' <= c && c <= '\u{200a}') || c == '\u{2028}' || c
        == '\u{2029}' || c == '\u{202f}' || c == '\u{205f}' || c == '\u{3000}'
}

/// `s` with every backslash (the line-continuation escape) removed.
pub open spec fn strip_escapes(s: Seq<char>) -> Seq<char>
    decreases s.len(),
{
    if s.len() == 0 {
        s
    } else if s.last() == '\\' {
        strip_escapes(s.drop_last())
    } else {
        strip_escapes(s.drop_last()).push(s.last())
    }
}

/// The whitespace-separated words of `s`, where `cur` holds the characters
/// of a word already begun before `s`.
pub open spec fn split_words(s: Seq<char>, cur: Seq<char>) -> Seq<Seq<char>>
    decreases s.len(),
{
    if s.len() == 0 {
        if cur.len() > 0 {
            seq![cur]
        } else {
            seq![]
        }
    } else if is_white_space(s[0]) {
        (if cur.len() > 0 {
            seq![cur]
        } else {
            seq![]
        }) + split_words(s.drop_first(), seq![])
    } else {
        split_words(s.drop_first(), cur.push(s[0]))
    }
}

/// The maximal runs of non-whitespace characters of `s`, in order.
pub open spec fn words(s: Seq<char>) -> Seq<Seq<char>> {
    split_words(s, seq![])
}

/// The dependencies that a Makefile-style record lists: its words once
/// escapes are removed, less the first (the rule's target).
pub open spec fn make_dependency_list(text: Seq<char>) -> Seq<Seq<char>> {
    let w = words(strip_escapes(text));
    if w.len() == 0 {
        w
    } else {
        w.drop_first()
    }
}

/// Relies on `String: FromIterator<char>`: the string of the given characters, in order.
#[verifier::external_body]
fn string_from_chars(chars: &Vec<char>) -> (r: String)
    ensures
        r@ == chars@,
{
    chars.iter().collect()
}

/// The characters of `s`, in order.
pub fn chars_of(s: &str) -> (r: Vec<char>)
    ensures
        r@ == s@,
{
    broadcast use vstd::string::group_string_axioms;

    let mut it = s.chars();
    let mut out: Vec<char> = Vec::new();
    loop
        invariant
            out@ + it.remaining() == s@,
            it.obeys_prophetic_iter_laws(),
            it.decrease() is Some,
        ensures
            out@ == s@,
        decreases it.decrease()->0,
    {
        match it.next() {
            Some(c) => {
                out.push(c);
            },
            None => {
                assert(out@ + it.remaining() =~= out@);
                break;
            },
        }
    }
    out
}

/// `text` with every backslash removed.
pub fn remove_escapes(text: &Vec<char>) -> (r: Vec<char>)
    ensures
        r@ == strip_escapes(text@),
{
    let mut out: Vec<char> = Vec::new();
    let mut i: usize = 0;
    while i < text.len()
        invariant
            i <= text.len(),
            out@ == strip_escapes(text@.subrange(0, i as int)),
        decreases text.len() - i,
    {
        let c = text[i];
        assert(text@.subrange(0, i + 1).drop_last() =~= text@.subrange(0, i as int));
        if c != '\\' {
            out.push(c);
        }
        i = i + 1;
    }
    assert(text@.subrange(0, text.len() as int) =~= text@);
    out
}

/// The whitespace-separated words of `text`, in order.
pub fn split_into_words(text: &Vec<char>) -> (r: Vec<String>)
    ensures
        r.deep_view() == words(text@),
{
    let mut out: Vec<String> = Vec::new();
    let mut cur: Vec<char> = Vec::new();
    let mut i: usize = 0;
    assert(text@.subrange(0, text.len() as int) =~= text@);
    while i < text.len()
        invariant
            i <= text.len(),
            out.deep_view() + split_words(text@.subrange(i as int, text.len() as int), cur@)
                == words(text@),
        decreases text.len() - i,
    {
        let c = text[i];
        let ghost rest = text@.subrange(i as int, text.len() as int);
        assert(rest.drop_first() =~= text@.subrange(i + 1, text.len() as int));
        assert(rest[0] == c);
        if is_white_space_char(c) {
            if cur.len() > 0 {
                let ghost before = out.deep_view();
                let w = string_from_chars(&cur);
                out.push(w);
                assert(out.deep_view() =~= before + seq![cur@]);
                assert(before + seq![cur@] + split_words(rest.drop_first(), seq![]) =~= before
                    + (seq![cur@] + split_words(rest.drop_first(), seq![])));
            } else {
                assert(seq![] + split_words(rest.drop_first(), seq![]) =~= split_words(
                    rest.drop_first(),
                    seq![],
                ));
            }
            cur = Vec::new();
            assert(cur@ =~= seq![]);
        } else {
            cur.push(c);
        }
        i = i + 1;
    }
    assert(text@.subrange(i as int, text.len() as int) =~= seq![]);
    if cur.len() > 0 {
        let ghost before = out.deep_view();
        let w = string_from_chars(&cur);
        out.push(w);
        assert(out.deep_view() =~= before + seq![cur@]);
    } else {
        assert(out.deep_view() + seq![] =~= out.deep_view());
    }
    out
}

/// Reads a Makefile-style dependency record (`target: dep1 dep2 \`): removes
/// the continuation escapes, splits on whitespace and drops the first word,
/// the rule's target. Any text yields a list, possibly empty.
pub fn make_dependencies(text: &str) -> (r: Vec<String>)
    ensures
        r.deep_view() == make_dependency_list(text@),
{
    let chars = chars_of(text);
    let stripped = remove_escapes(&chars);
    let mut all = split_into_words(&stripped);
    if all.len() > 0 {
        let ghost before = all.deep_view();
        all.remove(0);
        assert(all.deep_view() =~= before.drop_first());
    }
    all
}

} // verus!
