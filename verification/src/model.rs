//! The mathematical model of the tokenizer.
//!
//! `opts_of` gives, for any finite sequence of raw tokens, the exact sequence
//! of events the tokenizer produces. It is defined through `emit`, which
//! describes the remaining output of a tokenizer in an arbitrary state:
//! pending stacked flags, an unresolved pending name, the drain mode entered
//! at the `--` terminator, and the exhaustion flag.

use vstd::prelude::*;

use crate::event::OptView;

verus! {

/// True of the end-of-options terminator token `--`.
pub open spec fn is_terminator(tok: Seq<char>) -> bool {
    tok.len() == 2 && tok[0] == '-' && tok[1] == '-'
}

/// The candidate option name a token offers: the text after `--` for a long
/// option, the single character after `-` for a short option, and empty for
/// every other token (including a stacked group and the bare `-`).
pub open spec fn cand_name(tok: Seq<char>) -> Seq<char> {
    if tok.len() >= 2 && tok[0] == '-' && tok[1] == '-' {
        tok.skip(2)
    } else if 1 <= tok.len() <= 2 && tok[0] == '-' {
        tok.skip(1)
    } else {
        Seq::empty()
    }
}

/// The characters a stacked short-flag token queues, in left-to-right order:
/// the text after `-` when more than one character follows it, and empty for
/// every other token.
pub open spec fn stacked_flags(tok: Seq<char>) -> Seq<char> {
    if tok.len() > 2 && tok[0] == '-' && tok[1] != '-' {
        tok.skip(1)
    } else {
        Seq::empty()
    }
}

/// The events still to come from a tokenizer whose unread tokens are `args`,
/// whose queued stacked-flag characters are `flags` (in emission order),
/// whose pending unresolved name is `name` (empty when there is none), and
/// whose drain mode and exhaustion flag are `raw` and `done`.
///
/// Queued flags are emitted first; then each token is pulled in turn. A
/// pending name resolves as a `Flag` when the next token offers a name or a
/// stacked group, as `Named` when the next token is an ordinary value, and as
/// a trailing `Flag` when the input ends. In drain mode every token comes
/// back as `Raw`.
pub open spec fn emit(
    args: Seq<Seq<char>>,
    flags: Seq<char>,
    name: Seq<char>,
    raw: bool,
    done: bool,
) -> Seq<OptView>
    decreases args.len(), flags.len(),
{
    if done {
        Seq::empty()
    } else if flags.len() > 0 {
        seq![OptView::Flag(seq![flags[0]])] + emit(args, flags.drop_first(), name, raw, done)
    } else if args.len() == 0 {
        if name.len() > 0 {
            seq![OptView::Flag(name)]
        } else {
            Seq::empty()
        }
    } else {
        let tok = args[0];
        let rest = args.drop_first();
        if raw {
            seq![OptView::Raw(tok)] + emit(rest, flags, name, raw, done)
        } else if is_terminator(tok) {
            emit(rest, flags, name, true, done)
        } else {
            let n = cand_name(tok);
            let f = stacked_flags(tok);
            if name.len() > 0 {
                if n.len() > 0 {
                    seq![OptView::Flag(name)] + emit(rest, flags, n, raw, done)
                } else if f.len() > 0 {
                    seq![OptView::Flag(name)] + emit(rest, f, Seq::empty(), raw, done)
                } else {
                    seq![OptView::Named(name, tok)] + emit(rest, flags, Seq::empty(), raw, done)
                }
            } else {
                if n.len() > 0 {
                    emit(rest, flags, n, raw, done)
                } else if f.len() > 0 {
                    emit(rest, f, name, raw, done)
                } else {
                    seq![OptView::Ordinal(tok)] + emit(rest, flags, name, raw, done)
                }
            }
        }
    }
}

/// The full classification of an argument list: the events a fresh tokenizer
/// over `args` produces, from the first pull to exhaustion.
pub open spec fn opts_of(args: Seq<Seq<char>>) -> Seq<OptView> {
    emit(args, Seq::empty(), Seq::empty(), false, false)
}

/// Queued stacked flags always drain fully, in their left-to-right order,
/// before any further token of the input contributes an event.
pub proof fn lemma_flags_drain_first(
    args: Seq<Seq<char>>,
    flags: Seq<char>,
    name: Seq<char>,
    raw: bool,
)
    ensures
        emit(args, flags, name, raw, false) == Seq::new(
            flags.len(),
            |i: int| OptView::Flag(seq![flags[i]]),
        ) + emit(args, Seq::empty(), name, raw, false),
    decreases flags.len(),
{
    let flag_events = Seq::new(flags.len(), |i: int| OptView::Flag(seq![flags[i]]));
    let tail = emit(args, Seq::<char>::empty(), name, raw, false);
    if flags.len() == 0 {
        assert(flags =~= Seq::<char>::empty());
        assert(flag_events + tail =~= tail);
    } else {
        let rest = flags.drop_first();
        lemma_flags_drain_first(args, rest, name, raw);
        let rest_events = Seq::new(rest.len(), |i: int| OptView::Flag(seq![rest[i]]));
        assert(flag_events =~= seq![OptView::Flag(seq![flags[0]])] + rest_events);
        assert((seq![OptView::Flag(seq![flags[0]])] + rest_events) + tail =~= seq![
            OptView::Flag(seq![flags[0]]),
        ] + (rest_events + tail));
    }
}

} // verus!
