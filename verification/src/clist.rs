//! Parsing of one capability object and the streaming fold over a
//! signer's capability list.
//!
//! A capability is the object `{"args": [...], "name": "..."}`, fields in
//! that order.  The list of capabilities is folded element by element:
//! only the running tally, the all-safely-scoped flag and the current
//! element's parse state are held; each capability's prompt is shown as
//! the element resolves, in stream order.

use vstd::prelude::*;
use vstd::string::StrSliceExecFns;
use vstd::string::StringSliceAdditionalSpecFns;
use crate::argbuf::{args_accepts, args_finished, args_nth, args_state_inv, args_text_ok, ArgsOut,
    KadenaCapabilityArgsInterp, KadenaCapabilityArgsInterpState};
use crate::base::{Prompter, StepOutcome};
use crate::capability::{classify_capability, spec_cap_prompt, spec_classify};
use crate::coverage::{merge_cap_count, CapCountData};
use crate::token::{Token, TokenV};


verus! {

/// Longest accepted capability name, in bytes.
pub const MAX_CAP_NAME: usize = 128;

/// Phase of the capability-object parser.
#[derive(Clone, Copy, Debug, PartialEq, Eq, Structural)]
pub enum CapPhase {
    CStart,
    CKeyArgs,
    CColonArgs,
    CArgs,
    CSepArgs,
    CKeyName,
    CColonName,
    CNameVal,
    CEnd,
}

/// Resumable parser for one capability object.
pub struct CapParser {
    pub state: CapPhase,
    pub args_state: KadenaCapabilityArgsInterpState,
    pub args_dest: Option<ArgsOut>,
    pub name: Vec<u8>,
}

/// Invariant of the capability parser: while the argument array is being
/// parsed its own invariant holds, and afterwards the destination is a
/// finished encoding (or `None` for an undisplayable list).
pub open spec fn cap_inv(c: CapParser) -> bool {
    match c.state {
        CapPhase::CArgs => args_state_inv(c.args_state, c.args_dest),
        CapPhase::CSepArgs | CapPhase::CKeyName | CapPhase::CColonName | CapPhase::CNameVal => match c
            .args_dest {
            Some(a) => args_finished(a),
            None => true,
        },
        CapPhase::CEnd => c.name@.len() <= MAX_CAP_NAME && match c.args_dest {
            Some(a) => args_finished(a),
            None => true,
        },
        _ => true,
    }
}

/// Whether the capability parser accepts this token in its current
/// phase: exactly its transition table.
pub open spec fn cap_accepts(c: CapParser, t: TokenV) -> bool {
    match c.state {
        CapPhase::CStart => t is BeginObject,
        CapPhase::CKeyArgs => t matches TokenV::Str(k) && k == "args".spec_bytes(),
        CapPhase::CColonArgs => t is NameSeparator,
        CapPhase::CArgs => args_accepts(c.args_state, t),
        CapPhase::CSepArgs => t is ValueSeparator,
        CapPhase::CKeyName => t matches TokenV::Str(k) && k == "name".spec_bytes(),
        CapPhase::CColonName => t is NameSeparator,
        CapPhase::CNameVal => t matches TokenV::Str(n) && n.len() <= MAX_CAP_NAME
            && crate::base::is_utf8(n),
        CapPhase::CEnd => t is EndObject,
    }
}

impl CapParser {
    /// A parser before the capability's opening brace.
    pub fn new() -> (r: CapParser)
        ensures
            r.state == CapPhase::CStart,
            cap_inv(r),
    {
        CapParser {
            state: CapPhase::CStart,
            args_state: KadenaCapabilityArgsInterp::init(),
            args_dest: None,
            name: Vec::new(),
        }
    }

    /// Feeds one token of the capability object.  On `Done` the parser
    /// holds the argument encoding and the capability's name.
    pub fn step(&mut self, t: &Token) -> (r: StepOutcome)
        requires
            cap_inv(*old(self)),
        ensures
            r != StepOutcome::Fatal ==> cap_inv(*final(self)),
            r == StepOutcome::Done ==> match final(self).args_dest {
                Some(a) => args_finished(a),
                None => true,
            } && final(self).name@.len() <= MAX_CAP_NAME,
            r == StepOutcome::Done ==> *final(self) == *old(self),
            (r == StepOutcome::Done) == (old(self).state == CapPhase::CEnd && t@ is EndObject),
            (r == StepOutcome::Fatal) == !cap_accepts(*old(self), t@),
    {
        match self.state {
            CapPhase::CStart => {
                match t {
                    Token::BeginObject => {
                        self.state = CapPhase::CKeyArgs;
                        StepOutcome::NeedMoreInput
                    }
                    _ => StepOutcome::Fatal,
                }
            }
            CapPhase::CKeyArgs => {
                match t {
                    Token::Str(k) => {
                        if crate::base::bytes_eq(k, &"args".as_bytes_vec()) {
                            self.state = CapPhase::CColonArgs;
                            StepOutcome::NeedMoreInput
                        } else {
                            StepOutcome::Fatal
                        }
                    }
                    _ => StepOutcome::Fatal,
                }
            }
            CapPhase::CColonArgs => {
                match t {
                    Token::NameSeparator => {
                        self.state = CapPhase::CArgs;
                        self.args_state = KadenaCapabilityArgsInterp::init();
                        self.args_dest = None;
                        StepOutcome::NeedMoreInput
                    }
                    _ => StepOutcome::Fatal,
                }
            }
            CapPhase::CArgs => {
                let r = KadenaCapabilityArgsInterp::parse(
                    &mut self.args_state,
                    t,
                    &mut self.args_dest,
                );
                match r {
                    StepOutcome::Fatal => StepOutcome::Fatal,
                    StepOutcome::NeedMoreInput => StepOutcome::NeedMoreInput,
                    StepOutcome::Done => {
                        self.state = CapPhase::CSepArgs;
                        StepOutcome::NeedMoreInput
                    }
                }
            }
            CapPhase::CSepArgs => {
                match t {
                    Token::ValueSeparator => {
                        self.state = CapPhase::CKeyName;
                        StepOutcome::NeedMoreInput
                    }
                    _ => StepOutcome::Fatal,
                }
            }
            CapPhase::CKeyName => {
                match t {
                    Token::Str(k) => {
                        if crate::base::bytes_eq(k, &"name".as_bytes_vec()) {
                            self.state = CapPhase::CColonName;
                            StepOutcome::NeedMoreInput
                        } else {
                            StepOutcome::Fatal
                        }
                    }
                    _ => StepOutcome::Fatal,
                }
            }
            CapPhase::CColonName => {
                match t {
                    Token::NameSeparator => {
                        self.state = CapPhase::CNameVal;
                        StepOutcome::NeedMoreInput
                    }
                    _ => StepOutcome::Fatal,
                }
            }
            CapPhase::CNameVal => {
                match t {
                    Token::Str(s) => {
                        if s.len() <= MAX_CAP_NAME && crate::base::check_utf8(s) {
                            self.name = s.clone();
                            self.state = CapPhase::CEnd;
                            StepOutcome::NeedMoreInput
                        } else {
                            StepOutcome::Fatal
                        }
                    }
                    _ => StepOutcome::Fatal,
                }
            }
            CapPhase::CEnd => {
                match t {
                    Token::EndObject => StepOutcome::Done,
                    _ => StepOutcome::Fatal,
                }
            }
        }
    }
}

/// What folding a sequence of classified capabilities yields: the tally
/// under `merge_cap_count`, and the conjunction of the safely-scoped
/// flags, from the identity (zero tally, `true`).
pub open spec fn fold_caps(cs: Seq<(CapCountData, bool)>) -> (CapCountData, bool)
    decreases cs.len(),
{
    if cs.len() == 0 {
        (CapCountData::CapCount { total_caps: 0, total_transfers: 0, total_unknown: 0 }, true)
    } else {
        let prev = fold_caps(cs.drop_last());
        (merge_cap_count(prev.0, cs.last().0), prev.1 && cs.last().1)
    }
}

/// Whether the capability-list fold accepts this token in its current
/// phase.
pub open spec fn clist_accepts(f: ClistFold, t: TokenV) -> bool {
    match f.phase {
        ClistPhase::ClStart => t is BeginArray,
        ClistPhase::ClFirst => t is EndArray || t is BeginObject,
        ClistPhase::ClElem => cap_accepts(f.elem, t),
        ClistPhase::ClSep => t is ValueSeparator || t is EndArray,
        ClistPhase::ClDone => false,
    }
}

/// Whether this token makes the fold owe the holder a prompt: exactly
/// when a capability closes and its screen is shown.
pub open spec fn clist_owes_prompt(f: ClistFold, t: TokenV) -> bool {
    f.phase is ClElem && f.elem.state == CapPhase::CEnd && t is EndObject
}

/// Whether the closing capability carries an argument text that is not
/// well-formed UTF-8 and therefore cannot be shown: the command aborts.
pub open spec fn clist_rejects_text(f: ClistFold, t: TokenV) -> bool {
    clist_owes_prompt(f, t) && !args_text_ok(f.elem.args_dest)
}

/// Phase of the capability-list fold.
#[derive(Clone, Copy, Debug, PartialEq, Eq, Structural)]
pub enum ClistPhase {
    ClStart,
    ClFirst,
    ClElem,
    ClSep,
    ClDone,
}

/// Streaming fold over a capability list: only the accumulator and the
/// current element's parse state are retained; the ghost `contribs`
/// records each element's classified contribution.
pub struct ClistFold {
    pub phase: ClistPhase,
    pub elem: CapParser,
    pub acc_counts: CapCountData,
    pub all_safe: bool,
    pub contribs: Ghost<Seq<(CapCountData, bool)>>,
}

/// Invariant of the fold: the accumulator pair is exactly the fold of
/// the contributions recorded so far.
pub open spec fn clist_inv(f: ClistFold) -> bool {
    &&& (f.acc_counts, f.all_safe) == fold_caps(f.contribs@)
    &&& f.acc_counts is CapCount
    &&& (f.phase == ClistPhase::ClElem ==> cap_inv(f.elem))
}

impl ClistFold {
    /// A fold before the list's opening bracket, at the identity
    /// accumulator.
    pub fn new() -> (r: ClistFold)
        ensures
            clist_inv(r),
            r.phase == ClistPhase::ClStart,
            r.contribs@ == Seq::<(CapCountData, bool)>::empty(),
    {
        ClistFold {
            phase: ClistPhase::ClStart,
            elem: CapParser::new(),
            acc_counts: CapCountData::zero(),
            all_safe: true,
            contribs: Ghost(Seq::empty()),
        }
    }

    /// Feeds one token of the capability list.  As each capability
    /// resolves, its prompt is shown and its contribution folded in; a
    /// rejected prompt is fatal.  On `Done` the accumulator is the fold
    /// of every capability's contribution.
    pub fn step(&mut self, t: &Token, prompter: &mut Prompter) -> (r: StepOutcome)
        requires
            clist_inv(*old(self)),
            old(self).phase != ClistPhase::ClDone,
        ensures
            r != StepOutcome::Fatal ==> clist_inv(*final(self)),
            r == StepOutcome::Done ==> final(self).phase == ClistPhase::ClDone && (
            final(self).acc_counts, final(self).all_safe) == fold_caps(final(self).contribs@),
            r == StepOutcome::NeedMoreInput ==> final(self).phase != ClistPhase::ClDone,
            old(prompter).log().is_prefix_of(final(prompter).log()),
            old(self).phase == ClistPhase::ClElem && old(self).elem.state == CapPhase::CEnd && t@
                is EndObject && r == StepOutcome::NeedMoreInput ==> {
                let name = old(self).elem.name@;
                let args = old(self).elem.args_dest;
                let tally = old(self).acc_counts;
                &&& final(prompter).log() == old(prompter).log().push(
                    crate::base::scroller(
                        spec_cap_prompt(name, args, tally).0,
                        spec_cap_prompt(name, args, tally).1,
                    ),
                )
                &&& final(self).contribs@ == old(self).contribs@.push(
                    spec_classify(name, args, tally),
                )
            },
            (r == StepOutcome::Fatal) == (!clist_accepts(*old(self), t@) || clist_rejects_text(
                *old(self),
                t@,
            ) || (clist_owes_prompt(*old(self), t@) && old(prompter).accepts_left == 0)),
            (r == StepOutcome::Done) == ((old(self).phase is ClFirst || old(self).phase is ClSep)
                && t@ is EndArray),
    {
        match self.phase {
            ClistPhase::ClStart => {
                match t {
                    Token::BeginArray => {
                        self.phase = ClistPhase::ClFirst;
                        StepOutcome::NeedMoreInput
                    }
                    _ => StepOutcome::Fatal,
                }
            }
            ClistPhase::ClFirst => {
                match t {
                    Token::EndArray => {
                        self.phase = ClistPhase::ClDone;
                        StepOutcome::Done
                    }
                    _ => {
                        self.elem = CapParser::new();
                        self.phase = ClistPhase::ClElem;
                        self.elem_feed(t, prompter)
                    }
                }
            }
            ClistPhase::ClElem => self.elem_feed(t, prompter),
            ClistPhase::ClSep => {
                match t {
                    Token::ValueSeparator => {
                        self.elem = CapParser::new();
                        self.phase = ClistPhase::ClElem;
                        StepOutcome::NeedMoreInput
                    }
                    Token::EndArray => {
                        self.phase = ClistPhase::ClDone;
                        StepOutcome::Done
                    }
                    _ => StepOutcome::Fatal,
                }
            }
            ClistPhase::ClDone => StepOutcome::Fatal,
        }
    }

    /// Feeds one token to the current capability; when it completes, the
    /// capability is classified, prompted and folded in.
    fn elem_feed(&mut self, t: &Token, prompter: &mut Prompter) -> (r: StepOutcome)
        requires
            clist_inv(*old(self)),
            old(self).phase == ClistPhase::ClElem,
        ensures
            r != StepOutcome::Fatal ==> clist_inv(*final(self)),
            r != StepOutcome::Done,
            r == StepOutcome::NeedMoreInput ==> final(self).phase != ClistPhase::ClDone,
            old(prompter).log().is_prefix_of(final(prompter).log()),
            (r == StepOutcome::Fatal) == (!cap_accepts(old(self).elem, t@) || (old(self).elem.state
                == CapPhase::CEnd && t@ is EndObject && (!args_text_ok(old(self).elem.args_dest)
                || old(prompter).accepts_left == 0))),
            old(self).elem.state == CapPhase::CEnd && t@ is EndObject && r
                == StepOutcome::NeedMoreInput ==> {
                let name = old(self).elem.name@;
                let args = old(self).elem.args_dest;
                let tally = old(self).acc_counts;
                &&& final(prompter).log() == old(prompter).log().push(
                    crate::base::scroller(
                        spec_cap_prompt(name, args, tally).0,
                        spec_cap_prompt(name, args, tally).1,
                    ),
                )
                &&& final(self).contribs@ == old(self).contribs@.push(
                    spec_classify(name, args, tally),
                )
            },
    {
        let r = self.elem.step(t);
        match r {
            StepOutcome::Fatal => StepOutcome::Fatal,
            StepOutcome::NeedMoreInput => StepOutcome::NeedMoreInput,
            StepOutcome::Done => {
                match &self.elem.args_dest {
                    Some(a) => {
                        let mut i: usize = 0;
                        #[verifier::loop_isolation(false)]
                        while i < a.count
                            invariant
                                i <= a.count,
                                args_finished(*a),
                                forall|j: int| 0 <= j < i ==> crate::base::is_utf8(
                                    #[trigger] a.rendered@[j],
                                ),
                            decreases a.count - i,
                        {
                            let arg = args_nth(a, i);
                            if !crate::base::check_utf8(&arg) {
                                return StepOutcome::Fatal;
                            }
                            i = i + 1;
                        }
                    }
                    None => {}
                }
                let (contribution, safe, title, body) = classify_capability(
                    &self.elem.name,
                    &self.elem.args_dest,
                    &self.acc_counts,
                );
                if !prompter.show(title, body) {
                    return StepOutcome::Fatal;
                }
                let ghost contribs0 = self.contribs@;
                self.acc_counts.add_and_set(&contribution);
                self.all_safe = self.all_safe && safe;
                self.contribs = Ghost(self.contribs@.push((contribution, safe)));
                proof {
                    assert(self.contribs@.drop_last() =~= contribs0);
                }
                self.phase = ClistPhase::ClSep;
                StepOutcome::NeedMoreInput
            }
        }
    }
}

} // verus!
