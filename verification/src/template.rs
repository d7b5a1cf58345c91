//! Positional substitution of arguments for the placeholder `{}`.

use vstd::prelude::*;

verus! {

/// Whether the two characters `{` and `}` stand at positions `i` and `i + 1` of `s`.
pub open spec fn placeholder_at(s: Seq<char>, i: int) -> bool {
    0 <= i && i + 1 < s.len() && s[i] == '{' && s[i + 1] == '}'
}

/// Whether `s` holds a placeholder anywhere.
pub open spec fn has_placeholder(s: Seq<char>) -> bool {
    exists|i: int| placeholder_at(s, i)
}

/// Whether the leftmost placeholder of `s` stands at `i`.
pub open spec fn is_first_placeholder(s: Seq<char>, i: int) -> bool {
    placeholder_at(s, i) && forall|j: int| 0 <= j < i ==> !placeholder_at(s, j)
}

/// Position of the leftmost placeholder of `s`, for `s` that holds one.
pub open spec fn first_placeholder(s: Seq<char>) -> int
    recommends
        has_placeholder(s),
{
    choose|i: int| is_first_placeholder(s, i)
}

/// The text of each argument.
pub open spec fn arg_texts(args: Seq<&str>) -> Seq<Seq<char>> {
    Seq::new(args.len(), |i: int| args[i]@)
}

/// `template` with its placeholders replaced from left to right by
/// successive elements of `args`.
///
/// Each argument takes the place of the leftmost placeholder in what is
/// left of the template; the scan goes on behind that placeholder, so text
/// that came from an argument is never scanned. Placeholders beyond the
/// last argument stay as they are, and arguments beyond the last
/// placeholder are dropped.
pub open spec fn substituted(template: Seq<char>, args: Seq<Seq<char>>) -> Seq<char>
    decreases args.len(),
{
    if args.len() == 0 || !has_placeholder(template) {
        template
    } else {
        let at = first_placeholder(template);
        template.subrange(0, at) + args[0] + substituted(
            template.subrange(at + 2, template.len() as int),
            args.drop_first(),
        )
    }
}

/// The leftmost placeholder is unique: a position that qualifies is the one
/// that `first_placeholder` names.
pub proof fn lemma_first_placeholder(s: Seq<char>, i: int)
    requires
        is_first_placeholder(s, i),
    ensures
        has_placeholder(s),
        first_placeholder(s) == i,
{
    let chosen = first_placeholder(s);
    assert(is_first_placeholder(s, chosen));
    if chosen < i {
        assert(!placeholder_at(s, chosen));
    } else if i < chosen {
        assert(!placeholder_at(s, i));
    }
}

/// One step of substitution: with the leftmost placeholder at `at`, the
/// first argument stands between what precedes the placeholder and the
/// substitution of the other arguments into what follows it.
pub proof fn lemma_substituted_step(template: Seq<char>, args: Seq<Seq<char>>, at: int)
    requires
        args.len() > 0,
        is_first_placeholder(template, at),
    ensures
        substituted(template, args) == template.subrange(0, at) + args[0] + substituted(
            template.subrange(at + 2, template.len() as int),
            args.drop_first(),
        ),
{
    lemma_first_placeholder(template, at);
}

/// Arguments go to placeholders by position: where a placeholder follows a
/// prefix that holds none, the first argument stands right behind that
/// prefix, and the other arguments go, in their order, into what follows
/// the placeholder.
pub proof fn lemma_substituted_in_order(
    prefix: Seq<char>,
    rest: Seq<char>,
    arg: Seq<char>,
    others: Seq<Seq<char>>,
)
    requires
        !has_placeholder(prefix),
    ensures
        substituted(prefix + seq!['{', '}'] + rest, seq![arg] + others) == prefix + arg
            + substituted(rest, others),
{
    let template = prefix + seq!['{', '}'] + rest;
    let at = prefix.len() as int;
    assert forall|j: int| 0 <= j < at implies !placeholder_at(template, j) by {
        if j + 1 < at {
            assert(!placeholder_at(prefix, j));
            assert(template[j] == prefix[j] && template[j + 1] == prefix[j + 1]);
        }
    }
    assert(placeholder_at(template, at));
    lemma_substituted_step(template, seq![arg] + others, at);
    assert(template.subrange(0, at) =~= prefix);
    assert(template.subrange(at + 2, template.len() as int) =~= rest);
    assert((seq![arg] + others).drop_first() =~= others);
}

/// Arguments beyond the last placeholder are dropped: a template without a
/// placeholder stays as it is, whatever the arguments.
pub proof fn lemma_substituted_without_placeholder(template: Seq<char>, args: Seq<Seq<char>>)
    requires
        !has_placeholder(template),
    ensures
        substituted(template, args) == template,
{
}

/// Placeholders beyond the last argument stay: without arguments the
/// template stays as it is, whatever it holds.
pub proof fn lemma_substituted_without_arguments(template: Seq<char>)
    ensures
        substituted(template, Seq::<Seq<char>>::empty()) == template,
{
}

/// Finds the leftmost placeholder of `s`.
pub fn find_placeholder(s: &str) -> (found: Option<usize>)
    ensures
        match found {
            Some(at) => is_first_placeholder(s@, at as int),
            None => !has_placeholder(s@),
        },
{
    let n: usize = s.unicode_len();
    let mut index: usize = 0;
    let mut after_open: bool = false;
    for ch in it: s.chars()
        invariant
            it.seq() == s@,
            n == s@.len(),
            index == it.index(),
            after_open <==> (index > 0 && s@[index - 1] == '{'),
            forall|j: int| 0 <= j && j + 1 < index ==> !placeholder_at(s@, j),
    {
        if after_open && ch == '}' {
            return Some(index - 1);
        }
        after_open = ch == '{';
        index += 1;
    }
    None
}

/// Replaces successive placeholders of `template` by successive `args`.
pub fn substitute(template: &str, args: &[&str]) -> (out: String)
    ensures
        out@ == substituted(template@, arg_texts(args@)),
{
    let ghost texts = arg_texts(args@);
    let mut out: String = String::new();
    let mut rest: &str = template;
    let mut used: usize = 0;
    let mut exhausted: bool = false;
    assert(texts.skip(0) =~= texts);
    assert(out@ + substituted(rest@, texts.skip(0)) =~= substituted(template@, texts));
    while used < args.len() && !exhausted
        invariant
            texts == arg_texts(args@),
            used <= args@.len(),
            exhausted ==> !has_placeholder(rest@),
            out@ + substituted(rest@, texts.skip(used as int)) == substituted(template@, texts),
        decreases args@.len() - used + (if exhausted { 0int } else { 1int }),
    {
        match find_placeholder(rest) {
            None => {
                exhausted = true;
            },
            Some(at) => {
                let n: usize = rest.unicode_len();
                let ghost left = texts.skip(used as int);
                let ghost tail = rest@.subrange(at + 2, n as int);
                proof {
                    lemma_substituted_step(rest@, left, at as int);
                    assert(left[0] == args@[used as int]@);
                    assert(left.drop_first() =~= texts.skip(used + 1));
                    assert(out@ + (rest@.subrange(0, at as int) + left[0] + substituted(
                        tail,
                        texts.skip(used + 1),
                    )) =~= (out@ + rest@.subrange(0, at as int) + left[0]) + substituted(
                        tail,
                        texts.skip(used + 1),
                    ));
                }
                out.append(rest.substring_char(0, at));
                out.append(args[used]);
                rest = rest.substring_char(at + 2, n);
                used += 1;
            },
        }
    }
    out.append(rest);
    out
}

} // verus!
