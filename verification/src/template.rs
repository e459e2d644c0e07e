//! Substituting texts for the placeholders of a message template.
//!
//! In a template, `{}` is a placeholder, `{{` stands for `{` and `}}` for `}`.
//! Every other character stands for itself. The placeholders take the
//! arguments in order, one each. A brace in any other place is a failure,
//! and so is a number of placeholders other than the number of arguments.

use vstd::prelude::*;
use vstd::string::StringExecFns;
use crate::error::FormatFailure;
use crate::text::characters;

verus! {

/// `text` with `c` put before it.
pub open spec fn preceded(c: char, text: Option<Seq<char>>) -> Option<Seq<char>> {
    match text {
        Some(rest) => Some(seq![c] + rest),
        None => None,
    }
}

/// `text` with `head` put before it.
pub open spec fn prefixed(head: Seq<char>, text: Option<Seq<char>>) -> Option<Seq<char>> {
    match text {
        Some(rest) => Some(head + rest),
        None => None,
    }
}

/// The text that `template` gives with `args` in the place of its
/// placeholders; nothing where the template is malformed or does not have
/// one placeholder for each argument.
pub open spec fn substitute(template: Seq<char>, args: Seq<Seq<char>>) -> Option<Seq<char>>
    decreases template.len(),
{
    if template.len() == 0 {
        if args.len() == 0 {
            Some(Seq::empty())
        } else {
            None
        }
    } else if template[0] == '{' {
        if template.len() >= 2 && template[1] == '{' {
            preceded('{', substitute(template.skip(2), args))
        } else if template.len() >= 2 && template[1] == '}' && args.len() > 0 {
            prefixed(args[0], substitute(template.skip(2), args.skip(1)))
        } else {
            None
        }
    } else if template[0] == '}' {
        if template.len() >= 2 && template[1] == '}' {
            preceded('}', substitute(template.skip(2), args))
        } else {
            None
        }
    } else {
        preceded(template[0], substitute(template.skip(1), args))
    }
}

/// Whether a text holds no brace.
pub open spec fn brace_free(text: Seq<char>) -> bool {
    forall|i: int| 0 <= i < text.len() ==> #[trigger] text[i] != '{' && text[i] != '}'
}

/// The texts that a list of strings holds.
pub open spec fn texts(items: Seq<String>) -> Seq<Seq<char>> {
    items.map_values(|s: String| s@)
}

/// A stretch without braces at the start of a template is copied, and the
/// arguments go to what follows it.
pub proof fn lemma_substitute_plain_prefix(head: Seq<char>, tail: Seq<char>, args: Seq<Seq<char>>)
    requires
        brace_free(head),
    ensures
        substitute(head + tail, args) == prefixed(head, substitute(tail, args)),
    decreases head.len(),
{
    if head.len() > 0 {
        assert((head + tail).skip(1) == head.skip(1) + tail);
        assert(brace_free(head.skip(1)));
        lemma_substitute_plain_prefix(head.skip(1), tail, args);
    }
}

/// A template without braces and without arguments gives itself.
pub proof fn lemma_substitute_plain(template: Seq<char>)
    requires
        brace_free(template),
    ensures
        substitute(template, Seq::empty()) == Some(template),
{
    lemma_substitute_plain_prefix(template, Seq::empty(), Seq::empty());
}

/// Without arguments, a template that gives a text gives one no longer than
/// itself, and one as long as itself only where it holds no brace. So among
/// the templates without arguments, only those without braces give
/// themselves.
pub proof fn lemma_substitute_shortens(template: Seq<char>)
    ensures
        substitute(template, Seq::empty()) matches Some(text) ==> text.len() <= template.len() && (
        text.len() == template.len() ==> brace_free(template)),
    decreases template.len(),
{
    let none = Seq::<Seq<char>>::empty();
    if template.len() > 0 {
        if template[0] == '{' || template[0] == '}' {
            if template.len() >= 2 {
                lemma_substitute_shortens(template.skip(2));
            }
        } else {
            lemma_substitute_shortens(template.skip(1));
            if substitute(template, none) matches Some(text) && text.len() == template.len() {
                assert forall|i: int| 0 <= i < template.len() implies #[trigger] template[i] != '{'
                    && template[i] != '}' by {
                    if i > 0 {
                        assert(template[i] == template.skip(1)[i - 1]);
                    }
                }
            }
        }
    }
}

/// The first placeholder takes the first argument, and the other arguments
/// go, in their order, to what follows it.
pub proof fn lemma_substitute_first_placeholder(
    head: Seq<char>,
    tail: Seq<char>,
    args: Seq<Seq<char>>,
)
    requires
        brace_free(head),
        args.len() > 0,
    ensures
        substitute(head + seq!['{', '}'] + tail, args) == prefixed(
            head + args[0],
            substitute(tail, args.skip(1)),
        ),
{
    let after = seq!['{', '}'] + tail;
    assert(head + seq!['{', '}'] + tail == head + after);
    lemma_substitute_plain_prefix(head, after, args);
    assert(after.skip(2) == tail);
}

/// Puts `args` in the place of the placeholders of `template`.
pub fn fill(template: &str, args: &Vec<String>) -> (formatted: Result<String, FormatFailure>)
    ensures
        match formatted {
            Ok(text) => substitute(template@, texts(args@)) == Some(text@),
            Err(_) => substitute(template@, texts(args@)) is None,
        },
{
    let letters = characters(template);
    let ghost all = texts(args@);
    let mut out = String::new();
    let mut i: usize = 0;
    let mut k: usize = 0;
    assert(letters@.skip(0) == letters@);
    assert(all.skip(0) == all);
    while i < letters.len()
        invariant
            i <= letters.len(),
            k <= args.len(),
            letters@ == template@,
            all == texts(args@),
            substitute(template@, all) == prefixed(
                out@,
                substitute(letters@.skip(i as int), all.skip(k as int)),
            ),
        decreases letters.len() - i,
    {
        let ghost rest = letters@.skip(i as int);
        let ghost left = all.skip(k as int);
        let ghost before = out@;
        let c = letters[i];
        if c == '{' {
            if i + 1 < letters.len() && letters[i + 1] == '{' {
                out.push('{');
                i += 2;
                proof {
                    assert(rest.skip(2) == letters@.skip(i as int));
                    lemma_prefixed_step(before, seq!['{'], substitute(rest.skip(2), left));
                }
            } else if i + 1 < letters.len() && letters[i + 1] == '}' && k < args.len() {
                out.append(args[k].as_str());
                i += 2;
                k += 1;
                proof {
                    assert(rest.skip(2) == letters@.skip(i as int));
                    assert(left.skip(1) == all.skip(k as int));
                    lemma_prefixed_step(before, left[0], substitute(rest.skip(2), left.skip(1)));
                }
            } else {
                return Err(FormatFailure);
            }
        } else if c == '}' {
            if i + 1 < letters.len() && letters[i + 1] == '}' {
                out.push('}');
                i += 2;
                proof {
                    assert(rest.skip(2) == letters@.skip(i as int));
                    lemma_prefixed_step(before, seq!['}'], substitute(rest.skip(2), left));
                }
            } else {
                return Err(FormatFailure);
            }
        } else {
            out.push(c);
            i += 1;
            proof {
                assert(rest.skip(1) == letters@.skip(i as int));
                lemma_prefixed_step(before, seq![c], substitute(rest.skip(1), left));
            }
        }
    }
    if k == args.len() {
        Ok(out)
    } else {
        Err(FormatFailure)
    }
}

proof fn lemma_prefixed_step(before: Seq<char>, piece: Seq<char>, text: Option<Seq<char>>)
    ensures
        prefixed(before, prefixed(piece, text)) == prefixed(before + piece, text),
{
}

} // verus!
