//! The stateful tokenizer: a pull-based classifier over a list of raw
//! argument strings.

use vstd::prelude::*;
use vstd::string::StrSliceExecFns;

use crate::event::Opt;
use crate::event::OptView;
use crate::model::cand_name;
use crate::model::emit;
use crate::model::opts_of;
use crate::model::stacked_flags;

verus! {

/// Relies on char::to_string: a string holding exactly the one character.
#[verifier::external_body]
fn char_to_string(c: char) -> (r: String)
    ensures
        r@ == seq![c],
{
    c.to_string()
}

/// A tokenizer over a list of raw argument strings. Each call of `next_opt`
/// yields the next classified event, or `None` once the input is exhausted.
pub struct OptIter {
    args: Vec<String>,
    pos: usize,
    flags: Vec<char>,
    name: String,
    raw: bool,
    done: bool,
}

impl OptIter {
    /// The tokens not yet pulled from the input.
    pub closed spec fn rest_tokens(self) -> Seq<Seq<char>> {
        if self.pos <= self.args@.len() {
            self.args.deep_view().skip(self.pos as int)
        } else {
            Seq::empty()
        }
    }

    /// The events this tokenizer will still produce, in order.
    pub closed spec fn remaining(self) -> Seq<OptView> {
        emit(self.rest_tokens(), self.flags@, self.name@, self.raw, self.done)
    }

    /// True once the tokenizer has signaled the end of its output.
    pub closed spec fn exhausted(self) -> bool {
        self.done
    }

    /// Produces the next event, or `None` once the input is exhausted.
    ///
    /// Exhaustion is idempotent: `None` comes exactly when no event remains,
    /// the remaining output stays empty afterwards, and once the exhaustion
    /// flag is set a further call changes nothing.
    pub fn next_opt(&mut self) -> (r: Option<Opt>)
        ensures
            old(self).remaining().len() == 0 ==> r is None && final(self).remaining().len() == 0,
            old(self).remaining().len() > 0 ==> r is Some && r.unwrap()@ == old(
                self,
            ).remaining()[0] && final(self).remaining() == old(self).remaining().drop_first(),
            r is None ==> final(self).exhausted(),
            old(self).exhausted() ==> *final(self) == *old(self),
    {
        loop
            invariant
                self.remaining() == old(self).remaining(),
                old(self).done ==> self == old(self),
            decreases self.args@.len() - self.pos,
        {
            let ghost pre = *self;

            // Exhaustion already signaled: keep signaling it.
            if self.done {
                return None;
            }
            // Drain queued stacked flags before pulling any new token.
            if self.flags.len() > 0 {
                let c = self.flags.remove(0);
                proof {
                    assert(self.flags@ =~= pre.flags@.drop_first());
                    assert(pre.remaining() == seq![OptView::Flag(seq![c])] + self.remaining());
                }
                return Some(Opt::Flag(char_to_string(c)));
            }
            // Pull the next raw token.
            if self.pos >= self.args.len() {
                self.done = true;
                if !self.name.as_str().is_empty() {
                    // Trailing-flag resolution: the pending name had no
                    // following token, so it was a flag.
                    let prev = self.name.clone();
                    self.name = String::new();
                    proof {
                        assert(pre.remaining() =~= seq![OptView::Flag(pre.name@)]);
                    }
                    return Some(Opt::Flag(prev));
                }
                return None;
            }
            let ghost rest0 = pre.rest_tokens();
            let arg = self.args[self.pos].clone();
            let ghost tok = arg@;
            self.pos = self.pos + 1;
            proof {
                assert(self.rest_tokens() =~= rest0.drop_first());
            }
            // Drain mode: pass the token through unchanged.
            if self.raw {
                proof {
                    assert(pre.remaining() == seq![OptView::Raw(tok)] + self.remaining());
                }
                return Some(Opt::Raw(arg));
            }
            let s = arg.as_str();
            let n_chars: usize = s.unicode_len();
            // The terminator switches to drain mode and emits nothing.
            if n_chars == 2 && s.get_char(0) == '-' && s.get_char(1) == '-' {
                self.raw = true;
                continue;
            }
            // Classify the token: extract a candidate name, or queue the
            // characters of a stacked short-flag group.
            let mut name_new = String::new();
            if n_chars > 2 && s.get_char(0) == '-' && s.get_char(1) == '-' {
                name_new = s.substring_char(2, n_chars).to_owned();
            } else if n_chars >= 1 && s.get_char(0) == '-' {
                if n_chars > 2 {
                    let mut fl: Vec<char> = Vec::new();
                    let mut i: usize = 1;
                    while i < n_chars
                        invariant
                            1 <= i <= n_chars,
                            fl@ == tok.subrange(1, i as int),
                        decreases n_chars - i,
                    {
                        proof {
                            assert(tok.subrange(1, i + 1 as int) =~= tok.subrange(1, i as int).push(
                                tok[i as int],
                            ));
                        }
                        fl.push(s.get_char(i));
                        i = i + 1;
                    }
                    self.flags = fl;
                } else if n_chars == 2 {
                    name_new = s.substring_char(1, 2).to_owned();
                }
            }
            proof {
                assert(name_new@ == cand_name(tok));
                assert(self.flags@ == stacked_flags(tok));
            }
            // Resolve the pending name against what this token offered.
            if !self.name.as_str().is_empty() {
                if !name_new.as_str().is_empty() {
                    // The previous pending name resolves as a flag; the new
                    // name becomes the pending candidate.
                    let prev = self.name.clone();
                    self.name = name_new;
                    proof {
                        assert(pre.remaining() == seq![OptView::Flag(prev@)] + self.remaining());
                    }
                    return Some(Opt::Flag(prev));
                } else if self.flags.len() > 0 {
                    // The previous pending name resolves as a flag; the
                    // queued stacked flags follow on later pulls.
                    let prev = self.name.clone();
                    self.name = String::new();
                    proof {
                        assert(pre.remaining() == seq![OptView::Flag(prev@)] + self.remaining());
                    }
                    return Some(Opt::Flag(prev));
                } else {
                    // An ordinary value follows the pending name: a named
                    // option.
                    let prev = self.name.clone();
                    self.name = String::new();
                    proof {
                        assert(pre.remaining() == seq![OptView::Named(prev@, tok)]
                            + self.remaining());
                    }
                    return Some(Opt::Named(prev, arg));
                }
            } else if !name_new.as_str().is_empty() {
                // No pending name yet: the candidate waits for the next pull.
                self.name = name_new;
            } else if self.flags.len() > 0 {
                // The queued stacked flags drain on the next pulls.
            } else {
                // An ordinary token with no pending name: a positional value.
                proof {
                    assert(pre.remaining() == seq![OptView::Ordinal(tok)] + self.remaining());
                }
                return Some(Opt::Ordinal(arg));
            }
        }
    }
}

/// Makes a tokenizer over the given list of raw argument strings, with no
/// queued flags, no pending name, and drain mode off.
pub fn parse(values: Vec<String>) -> (r: OptIter)
    ensures
        r.remaining() == opts_of(values.deep_view()),
{
    let ghost vs = values.deep_view();
    let r = OptIter {
        args: values,
        pos: 0,
        flags: Vec::new(),
        name: String::new(),
        raw: false,
        done: false,
    };
    proof {
        assert(r.rest_tokens() =~= vs);
    }
    r
}

/// Classifies a whole argument list at once: the eagerly collected output of
/// a fresh tokenizer over `values`.
pub fn parse_all(values: Vec<String>) -> (r: Vec<Opt>)
    ensures
        r.deep_view() == opts_of(values.deep_view()),
{
    let ghost all = opts_of(values.deep_view());
    let mut it = parse(values);
    let mut out: Vec<Opt> = Vec::new();
    proof {
        assert(out.deep_view() + it.remaining() =~= all);
    }
    loop
        invariant
            out.deep_view() + it.remaining() == all,
        decreases it.remaining().len(),
    {
        let ghost out0 = out.deep_view();
        let ghost rem0 = it.remaining();
        match it.next_opt() {
            Some(o) => {
                out.push(o);
                proof {
                    assert(out.deep_view() =~= out0.push(rem0[0]));
                    assert(out.deep_view() + it.remaining() =~= out0 + rem0);
                }
            },
            None => {
                proof {
                    assert(out.deep_view() =~= all);
                }
                return out;
            },
        }
    }
}

} // verus!
