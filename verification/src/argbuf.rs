//! Bounded argument buffer encoder for a capability's argument array.
//!
//! The arguments of one capability are rendered back-to-back into a
//! single fixed-capacity byte buffer; a small fixed-size index table
//! records where one argument's text ends and the next begins.  The
//! policy is all-or-nothing: if the arguments cannot all be rendered
//! whole (the buffer would overflow, or there are more arguments than
//! index slots allow), the entire argument list degrades to "cannot be
//! displayed" — never to a truncated or misleading prefix — while the
//! remaining elements are still consumed and syntactically validated.

use vstd::prelude::*;
use vstd::seq_lib::*;
use crate::anyval::{scan_accepts, scan_completes, scan_next, scan_wf, step_text, token_text,
    Expect, ValueScan};
use crate::base::StepOutcome;
use crate::token::{Token, TokenV};

verus! {

/// Capacity of the shared argument text buffer, in bytes.
pub const ARG_ARRAY_SIZE: usize = 184;

/// Most arguments one capability may display.
pub const MAX_ARG_COUNT: usize = 5;

/// The encoder's result for one capability whose arguments all fit: the
/// packed buffer, the boundary table, and the number of arguments.  The
/// ghost `rendered` holds each argument's rendered text; the buffer is
/// exactly their concatenation.
pub struct ArgsOut {
    pub buf: Vec<u8>,
    pub ends: Vec<usize>,
    pub count: usize,
    pub rendered: Ghost<Seq<Seq<u8>>>,
}

/// Sum of the lengths of the first `n` rendered arguments: the buffer
/// offset where argument `n` begins.
pub open spec fn psum(ss: Seq<Seq<u8>>, n: int) -> int
    decreases n,
{
    if n <= 0 {
        0
    } else {
        psum(ss, n - 1) + ss[n - 1].len()
    }
}

/// Well-formedness of a finished encoder result: the buffer is exactly
/// the concatenation of the rendered argument texts, and every interior
/// boundary entry is the corresponding partial sum of their lengths (the
/// last argument's end is implicitly the buffer's length).
pub open spec fn args_finished(a: ArgsOut) -> bool {
    &&& a.ends@.len() == MAX_ARG_COUNT - 1
    &&& a.count == a.rendered@.len()
    &&& a.count <= MAX_ARG_COUNT
    &&& a.buf@ == a.rendered@.flatten()
    &&& a.buf@.len() <= ARG_ARRAY_SIZE
    &&& forall|i: int| 0 <= i < a.count - 1 ==> a.ends@[i] as int == psum(a.rendered@, i + 1)
}

/// Well-formedness while an argument is still being rendered: the texts
/// recorded so far are a prefix of the buffer, and one more boundary
/// entry is already in place.
pub open spec fn args_partial(a: ArgsOut) -> bool {
    &&& a.ends@.len() == MAX_ARG_COUNT - 1
    &&& a.count == a.rendered@.len()
    &&& a.count < MAX_ARG_COUNT
    &&& a.rendered@.flatten().is_prefix_of(a.buf@)
    &&& a.buf@.len() <= ARG_ARRAY_SIZE
    &&& forall|i: int| 0 <= i < a.count ==> a.ends@[i] as int == psum(a.rendered@, i + 1)
}

/// The argument-array interpreter.  Its state machine walks
/// `Start → Begin → {Argument, ValueSep}*`, and switches permanently to
/// the `FallbackValue ⇄ FallbackValueSep` path once the buffer or the
/// count limit has been exceeded.
pub struct KadenaCapabilityArgsInterp;

/// Resumable state of the argument-array interpreter.
#[derive(Debug)]
pub enum KadenaCapabilityArgsInterpState {
    Start,
    Begin,
    Argument(ValueScan),
    ValueSep,
    FallbackValue(ValueScan),
    FallbackValueSep,
}

/// The invariant tying the interpreter's state to its destination slot.
/// `None` in the destination means "the arguments cannot be displayed"
/// (or that parsing has not begun).
pub open spec fn args_state_inv(s: KadenaCapabilityArgsInterpState, dest: Option<ArgsOut>) -> bool {
    match s {
        KadenaCapabilityArgsInterpState::Start => dest is None,
        KadenaCapabilityArgsInterpState::Begin => match dest {
            Some(a) => args_finished(a) && a.count == 0 && a.buf@.len() == 0 && a.ends@ == seq![
                0usize,
                0,
                0,
                0,
            ],
            None => false,
        },
        KadenaCapabilityArgsInterpState::Argument(scan) => match dest {
            Some(a) => args_partial(a) && scan.render && scan_wf(scan),
            None => false,
        },
        KadenaCapabilityArgsInterpState::ValueSep => match dest {
            Some(a) => args_finished(a) && a.count >= 1,
            None => true,
        },
        KadenaCapabilityArgsInterpState::FallbackValue(scan) => dest is None && !scan.render
            && scan_wf(scan),
        KadenaCapabilityArgsInterpState::FallbackValueSep => dest is None,
    }
}

/// Whether the interpreter accepts this token in its current state:
/// exactly the transition table of the bounded-buffer state machine.
pub open spec fn args_accepts(s: KadenaCapabilityArgsInterpState, t: TokenV) -> bool {
    match s {
        KadenaCapabilityArgsInterpState::Start => t is BeginArray,
        KadenaCapabilityArgsInterpState::Begin => t is EndArray || t is Str || t is Num
            || t is True || t is False || t is Null || t is BeginArray || t is BeginObject,
        KadenaCapabilityArgsInterpState::Argument(scan) => scan_accepts(scan, t),
        KadenaCapabilityArgsInterpState::ValueSep => t is ValueSeparator || t is EndArray,
        KadenaCapabilityArgsInterpState::FallbackValue(scan) => scan_accepts(scan, t),
        KadenaCapabilityArgsInterpState::FallbackValueSep => t is ValueSeparator || t is EndArray,
    }
}

/// Whether this token closes the whole argument array.
pub open spec fn args_completes(s: KadenaCapabilityArgsInterpState, t: TokenV) -> bool {
    (s is Begin || s is ValueSep || s is FallbackValueSep) && t is EndArray
}

/// Whether every recorded argument text is well-formed UTF-8 — the
/// precondition for showing them.  An undisplayable list shows no
/// argument, so it passes vacuously.
pub open spec fn args_text_ok(d: Option<ArgsOut>) -> bool {
    match d {
        Some(a) => forall|i: int| 0 <= i < a.count ==> crate::base::is_utf8(
            #[trigger] a.rendered@[i],
        ),
        None => true,
    }
}

/// Whether the interpreter has switched to the fallback path: the
/// destination is discarded and will never be rebuilt.
pub open spec fn args_in_fallback(s: KadenaCapabilityArgsInterpState, dest: Option<ArgsOut>) -> bool {
    dest is None && (s is ValueSep || s is FallbackValue || s is FallbackValueSep)
}

impl KadenaCapabilityArgsInterp {
    /// The starting state, before the opening bracket.
    pub fn init() -> (r: KadenaCapabilityArgsInterpState)
        ensures
            r is Start,
    {
        KadenaCapabilityArgsInterpState::Start
    }

    /// Feeds one token of the argument array.  On `Done` the destination
    /// holds either a finished, exact encoding of every argument, or
    /// `None` when the list could not be displayed whole.
    pub fn parse(
        state: &mut KadenaCapabilityArgsInterpState,
        token: &Token,
        destination: &mut Option<ArgsOut>,
    ) -> (r: StepOutcome)
        requires
            args_state_inv(*old(state), *old(destination)),
        ensures
            r != StepOutcome::Fatal ==> args_state_inv(*final(state), *final(destination)),
            r == StepOutcome::Done ==> match *final(destination) {
                Some(a) => args_finished(a),
                None => true,
            },
            r == StepOutcome::Done && *old(state) is Begin ==> match *final(destination) {
                Some(a) => a.count == 0,
                None => false,
            },
            (r == StepOutcome::Fatal) == !args_accepts(*old(state), token@),
            (r == StepOutcome::Done) == args_completes(*old(state), token@),
            r == StepOutcome::Done ==> *final(destination) == *old(destination),
            *old(state) is Start && r != StepOutcome::Fatal ==> *final(state) is Begin && (
            *final(destination) matches Some(a) && a.count == 0 && a.buf@.len() == 0
                && a.rendered@ == Seq::<Seq<u8>>::empty() && a.ends@ == seq![0usize, 0, 0, 0]),
            args_in_fallback(*old(state), *old(destination)) && r != StepOutcome::Fatal
                ==> args_in_fallback(*final(state), *final(destination)),
            *old(state) matches KadenaCapabilityArgsInterpState::FallbackValue(sc) ==> r
                == StepOutcome::NeedMoreInput ==> {
                &&& (scan_completes(sc, token@) ==> *final(state) is FallbackValueSep)
                &&& (!scan_completes(sc, token@) ==> (*final(state)
                    matches KadenaCapabilityArgsInterpState::FallbackValue(sc2) && sc2.expect
                    == scan_next(sc, token@).0 && sc2.stack@ == scan_next(sc, token@).1
                    && sc2.render == sc.render && sc2.overflow == sc.overflow))
            },
            *old(state) is FallbackValueSep && token@ is ValueSeparator && r != StepOutcome::Fatal
                ==> (*final(state) matches KadenaCapabilityArgsInterpState::FallbackValue(sc2)
                && sc2.expect == Expect::Value && sc2.stack@.len() == 0 && !sc2.render
                && !sc2.overflow),
            *old(state) is Begin && r == StepOutcome::NeedMoreInput ==> *final(state) is Argument
                || *final(state) is ValueSep,
            *old(state) is Argument && r == StepOutcome::NeedMoreInput ==> *final(state)
                is Argument || *final(state) is ValueSep,
            *old(state) matches KadenaCapabilityArgsInterpState::Argument(sc) ==> r
                == StepOutcome::NeedMoreInput ==> {
                let a = old(destination)->Some_0;
                let over = sc.overflow || a.buf@.len() + step_text(sc, token@).len()
                    > ARG_ARRAY_SIZE;
                &&& (scan_completes(sc, token@) ==> *final(state) is ValueSep && (if over {
                    *final(destination) is None
                } else {
                    *final(destination) matches Some(b) && b.count == a.count + 1 && b.ends@
                        == a.ends@ && b.buf@ == a.buf@ + step_text(sc, token@) && b.rendered@
                        == a.rendered@.push(
                        b.buf@.subrange(a.rendered@.flatten().len() as int, b.buf@.len() as int),
                    )
                }))
                &&& (!scan_completes(sc, token@) ==> (*final(state)
                    matches KadenaCapabilityArgsInterpState::Argument(sc2) && sc2.expect
                    == scan_next(sc, token@).0 && sc2.stack@ == scan_next(
                    sc,
                    token@,
                ).1 && sc2.overflow == over) && (*final(destination) matches Some(b) && b.count
                    == a.count && b.rendered@ == a.rendered@ && b.ends@ == a.ends@ && b.buf@ == (
                if over {
                    a.buf@
                } else {
                    a.buf@ + step_text(sc, token@)
                })))
            },
            *old(state) is Begin && r == StepOutcome::NeedMoreInput && (token@ is BeginArray
                || token@ is BeginObject) ==> (*final(state)
                matches KadenaCapabilityArgsInterpState::Argument(sc2) && sc2.expect == (
            if token@ is BeginArray {
                Expect::ArrFirst
            } else {
                Expect::ObjFirst
            }) && sc2.stack@ == seq![token@ is BeginObject] && !sc2.overflow
                && (*final(destination) matches Some(b) && b.count == 0 && b.rendered@
                == Seq::<Seq<u8>>::empty() && b.buf@ == token_text(token@, true))),
            *old(state) is Begin && r == StepOutcome::NeedMoreInput && !(token@ is BeginArray
                || token@ is BeginObject || token@ is EndArray) ==> *final(state) is ValueSep && (
            if token_text(token@, true).len() <= ARG_ARRAY_SIZE {
                *final(destination) matches Some(b) && b.count == 1 && b.buf@ == token_text(
                    token@,
                    true,
                ) && b.rendered@ == seq![token_text(token@, true)] && b.ends@ == seq![
                    0usize,
                    0,
                    0,
                    0,
                ]
            } else {
                *final(destination) is None
            }),
            *old(state) is ValueSep && token@ is ValueSeparator && r != StepOutcome::Fatal ==> {
                ||| (*old(destination) matches Some(a) && a.count < MAX_ARG_COUNT && *final(state)
                    is Argument && (*final(destination) matches Some(b) && b.count == a.count
                    && b.rendered@ == a.rendered@ && b.buf@ == a.buf@ && b.ends@ == a.ends@.update(
                    a.count - 1,
                    a.buf@.len() as usize,
                )))
                ||| ((*old(destination) is None || (*old(destination) matches Some(a) && a.count
                    >= MAX_ARG_COUNT)) && (*final(state)
                    matches KadenaCapabilityArgsInterpState::FallbackValue(sc2) && sc2.expect
                    == Expect::Value && sc2.stack@.len() == 0 && !sc2.render && !sc2.overflow)
                    && *final(destination) is None)
            },
    {
        let mut cur = KadenaCapabilityArgsInterpState::Start;
        core::mem::swap(state, &mut cur);
        match cur {
            KadenaCapabilityArgsInterpState::Start => {
                match token {
                    Token::BeginArray => {
                        let mut ends: Vec<usize> = Vec::new();
                        ends.push(0);
                        ends.push(0);
                        ends.push(0);
                        ends.push(0);
                        proof {
                            assert(ends@ =~= seq![0usize, 0, 0, 0]);
                        }
                        let a = ArgsOut {
                            buf: Vec::new(),
                            ends,
                            count: 0,
                            rendered: Ghost(Seq::empty()),
                        };
                        proof {
                            assert(a.rendered@.flatten() =~= Seq::<u8>::empty());
                        }
                        *destination = Some(a);
                        *state = KadenaCapabilityArgsInterpState::Begin;
                        StepOutcome::NeedMoreInput
                    }
                    _ => StepOutcome::Fatal,
                }
            }
            KadenaCapabilityArgsInterpState::Begin => {
                match token {
                    Token::EndArray => {
                        *state = KadenaCapabilityArgsInterpState::Begin;
                        StepOutcome::Done
                    }
                    _ => {
                        let mut scan = ValueScan::new(true);
                        let ghost sc0 = scan;
                        let ghost a0 = old(destination)->Some_0;
                        let r = Self::argument_feed(&mut scan, token, destination);
                        proof {
                            assert(step_text(sc0, token@) == token_text(token@, true));
                            assert(a0.buf@ =~= Seq::<u8>::empty());
                            assert(a0.rendered@ =~= Seq::<Seq<u8>>::empty());
                            if r == StepOutcome::NeedMoreInput {
                                let b = final(destination)->Some_0;
                                assert(Seq::<u8>::empty() + step_text(sc0, token@) =~= step_text(
                                    sc0,
                                    token@,
                                ));
                                assert(Seq::<bool>::empty().push(false) =~= seq![false]);
                                assert(Seq::<bool>::empty().push(true) =~= seq![true]);
                            }
                            if r == StepOutcome::Done && !(sc0.overflow || a0.buf@.len()
                                + step_text(sc0, token@).len() > ARG_ARRAY_SIZE) {
                                let b = final(destination)->Some_0;
                                assert(a0.rendered@.flatten() =~= Seq::<u8>::empty());
                                assert(b.buf@.subrange(0, b.buf@.len() as int) =~= b.buf@);
                                assert(a0.rendered@.push(b.buf@) =~= seq![b.buf@]);
                            }
                        }
                        if !(r == StepOutcome::Fatal) {
                            match r {
                                StepOutcome::NeedMoreInput => {
                                    *state = KadenaCapabilityArgsInterpState::Argument(scan);
                                }
                                _ => {
                                    *state = KadenaCapabilityArgsInterpState::ValueSep;
                                }
                            }
                        }
                        if r == StepOutcome::Fatal {
                            StepOutcome::Fatal
                        } else {
                            StepOutcome::NeedMoreInput
                        }
                    }
                }
            }
            KadenaCapabilityArgsInterpState::Argument(mut scan) => {
                let r = Self::argument_feed(&mut scan, token, destination);
                if !(r == StepOutcome::Fatal) {
                    match r {
                        StepOutcome::NeedMoreInput => {
                            *state = KadenaCapabilityArgsInterpState::Argument(scan);
                        }
                        _ => {
                            *state = KadenaCapabilityArgsInterpState::ValueSep;
                        }
                    }
                }
                if r == StepOutcome::Fatal {
                    StepOutcome::Fatal
                } else {
                    StepOutcome::NeedMoreInput
                }
            }
            KadenaCapabilityArgsInterpState::ValueSep => {
                match token {
                    Token::ValueSeparator => {
                        let displayable_and_room = match destination {
                            Some(a) => a.count < MAX_ARG_COUNT,
                            None => false,
                        };
                        if displayable_and_room {
                            match destination {
                                Some(a) => {
                                    let c = a.count;
                                    let end = a.buf.len();
                                    proof {
                                        lemma_flatten_slices(a.rendered@);
                                    }
                                    a.ends[c - 1] = end;
                                    assert(a.ends@[c - 1] as int == psum(a.rendered@, c as int));
                                    assert(a.rendered@.flatten().is_prefix_of(a.buf@));
                                }
                                None => {}
                            }
                            *state = KadenaCapabilityArgsInterpState::Argument(
                                ValueScan::new(true),
                            );
                        } else {
                            *destination = None;
                            *state = KadenaCapabilityArgsInterpState::FallbackValue(
                                ValueScan::new(false),
                            );
                        }
                        StepOutcome::NeedMoreInput
                    }
                    Token::EndArray => {
                        *state = KadenaCapabilityArgsInterpState::ValueSep;
                        StepOutcome::Done
                    }
                    _ => StepOutcome::Fatal,
                }
            }
            KadenaCapabilityArgsInterpState::FallbackValue(mut scan) => {
                let mut sink: Vec<u8> = Vec::new();
                let r = scan.step(token, &mut sink, ARG_ARRAY_SIZE);
                match r {
                    StepOutcome::Fatal => StepOutcome::Fatal,
                    StepOutcome::NeedMoreInput => {
                        *state = KadenaCapabilityArgsInterpState::FallbackValue(scan);
                        StepOutcome::NeedMoreInput
                    }
                    StepOutcome::Done => {
                        *state = KadenaCapabilityArgsInterpState::FallbackValueSep;
                        StepOutcome::NeedMoreInput
                    }
                }
            }
            KadenaCapabilityArgsInterpState::FallbackValueSep => {
                match token {
                    Token::ValueSeparator => {
                        *state = KadenaCapabilityArgsInterpState::FallbackValue(
                            ValueScan::new(false),
                        );
                        StepOutcome::NeedMoreInput
                    }
                    Token::EndArray => {
                        *state = KadenaCapabilityArgsInterpState::FallbackValueSep;
                        StepOutcome::Done
                    }
                    _ => StepOutcome::Fatal,
                }
            }
        }
    }

    /// Feeds one token to the current argument's renderer.  On `Done` the
    /// finished argument is recorded — or, if its text overflowed the
    /// buffer, the whole destination is discarded.
    fn argument_feed(
        scan: &mut ValueScan,
        token: &Token,
        destination: &mut Option<ArgsOut>,
    ) -> (r: StepOutcome)
        requires
            old(scan).render,
            scan_wf(*old(scan)),
            match *old(destination) {
                Some(a) => args_partial(a),
                None => false,
            },
        ensures
            r == StepOutcome::NeedMoreInput ==> final(scan).render && scan_wf(*final(scan))
                && match *final(destination) {
                Some(a) => args_partial(a),
                None => false,
            },
            r == StepOutcome::Done ==> match *final(destination) {
                Some(a) => args_finished(a) && a.count >= 1,
                None => true,
            },
            (r == StepOutcome::Fatal) == !scan_accepts(*old(scan), token@),
            r != StepOutcome::Done ==> r == StepOutcome::NeedMoreInput || r
                == StepOutcome::Fatal,
            (r == StepOutcome::Done) == scan_completes(*old(scan), token@),
            r == StepOutcome::NeedMoreInput ==> {
                let sc = *old(scan);
                let a = old(destination)->Some_0;
                let over = sc.overflow || a.buf@.len() + step_text(sc, token@).len()
                    > ARG_ARRAY_SIZE;
                &&& final(scan).expect == scan_next(sc, token@).0
                &&& final(scan).stack@ == scan_next(sc, token@).1
                &&& final(scan).overflow == over
                &&& (*final(destination) matches Some(b) && b.count == a.count && b.rendered@
                    == a.rendered@ && b.ends@ == a.ends@ && b.buf@ == (if over {
                    a.buf@
                } else {
                    a.buf@ + step_text(sc, token@)
                }))
            },
            r == StepOutcome::Done ==> {
                let sc = *old(scan);
                let a = old(destination)->Some_0;
                let over = sc.overflow || a.buf@.len() + step_text(sc, token@).len()
                    > ARG_ARRAY_SIZE;
                if over {
                    *final(destination) is None
                } else {
                    *final(destination) matches Some(b) && b.count == a.count + 1 && b.ends@
                        == a.ends@ && b.buf@ == a.buf@ + step_text(sc, token@) && b.rendered@
                        == a.rendered@.push(
                        b.buf@.subrange(a.rendered@.flatten().len() as int, b.buf@.len() as int),
                    )
                }
            },
    {
        match destination {
            Some(a) => {
                let ghost flat = a.rendered@.flatten();
                let r = scan.step(token, &mut a.buf, ARG_ARRAY_SIZE);
                proof {
                    assert(flat.is_prefix_of(a.buf@));
                }
                match r {
                    StepOutcome::Fatal => StepOutcome::Fatal,
                    StepOutcome::NeedMoreInput => StepOutcome::NeedMoreInput,
                    StepOutcome::Done => {
                        if scan.overflow {
                            *destination = None;
                            StepOutcome::Done
                        } else {
                            let ghost rendered0 = a.rendered@;
                            let ghost part = a.buf@.skip(flat.len() as int);
                            proof {
                                a.rendered@.lemma_flatten_push(part);
                                assert(flat + part =~= a.buf@);
                            }
                            a.rendered = Ghost(a.rendered@.push(part));
                            a.count = a.count + 1;
                            proof {
                                assert(a.rendered@.flatten() == flat + part);
                                assert(a.buf@ == a.rendered@.flatten());
                                assert(a.rendered@.drop_last() =~= rendered0);
                                assert forall|i: int| 0 <= i < a.count - 1 implies a.ends@[i]
                                    as int == psum(a.rendered@, i + 1) by {
                                    lemma_psum_drop_last(a.rendered@, i + 1);
                                }
                            }
                            StepOutcome::Done
                        }
                    }
                }
            }
            None => StepOutcome::Fatal,
        }
    }
}

/// `psum` over the first `n` entries ignores the last element.
proof fn lemma_psum_drop_last(ss: Seq<Seq<u8>>, n: int)
    requires
        0 <= n < ss.len(),
    ensures
        psum(ss, n) == psum(ss.drop_last(), n),
    decreases n,
{
    if n > 0 {
        lemma_psum_drop_last(ss, n - 1);
    }
}

/// `psum` of two sequences agrees while they agree.
proof fn lemma_psum_agree(ss: Seq<Seq<u8>>, tt: Seq<Seq<u8>>, n: int)
    requires
        0 <= n <= ss.len(),
        n <= tt.len(),
        forall|i: int| 0 <= i < n ==> ss[i] == tt[i],
    ensures
        psum(ss, n) == psum(tt, n),
    decreases n,
{
    if n > 0 {
        lemma_psum_agree(ss, tt, n - 1);
    }
}

/// The partial sums of the rendered texts locate each one inside their
/// concatenation: the bytes from `psum(ss, i)` to `psum(ss, i + 1)` are
/// exactly the `i`-th text, and `psum` over all of them is the total
/// length.
pub proof fn lemma_flatten_slices(ss: Seq<Seq<u8>>)
    ensures
        psum(ss, ss.len() as int) == ss.flatten().len(),
        forall|i: int|
            0 <= i < ss.len() ==> 0 <= #[trigger] psum(ss, i) && psum(ss, i) + ss[i].len() == psum(
                ss,
                i + 1,
            ) <= ss.flatten().len(),
        forall|i: int|
            0 <= i < ss.len() ==> ss.flatten().subrange(
                #[trigger] psum(ss, i),
                psum(ss, i) + ss[i].len(),
            ) == ss[i],
    decreases ss.len(),
{
    if ss.len() == 0 {
    } else {
        let dl = ss.drop_last();
        let last = ss.last();
        lemma_flatten_slices(dl);
        dl.lemma_flatten_push(last);
        assert(dl.push(last) =~= ss);
        assert(ss.flatten() == dl.flatten() + last);
        assert(psum(ss, ss.len() - 1) == psum(dl, ss.len() - 1)) by {
            lemma_psum_agree(ss, dl, ss.len() - 1);
        }
        assert forall|i: int| 0 <= i < ss.len() implies 0 <= #[trigger] psum(ss, i) && psum(ss, i)
            + ss[i].len() == psum(ss, i + 1) <= ss.flatten().len() by {
            lemma_psum_agree(ss, dl, i);
            if i + 1 < ss.len() {
                lemma_psum_agree(ss, dl, i + 1);
            }
        }
        assert forall|i: int| 0 <= i < ss.len() implies ss.flatten().subrange(
            #[trigger] psum(ss, i),
            psum(ss, i) + ss[i].len(),
        ) == ss[i] by {
            lemma_psum_agree(ss, dl, i);
            if i < ss.len() - 1 {
                assert(dl.flatten().subrange(psum(dl, i), psum(dl, i) + dl[i].len()) == dl[i]);
                assert(psum(dl, i) + dl[i].len() <= dl.flatten().len());
                assert(ss.flatten().subrange(psum(ss, i), psum(ss, i) + ss[i].len()) =~= dl
                    .flatten().subrange(psum(dl, i), psum(dl, i) + dl[i].len()));
            } else {
                assert(psum(ss, i) == dl.flatten().len() as int);
                assert(ss.flatten().subrange(psum(ss, i), psum(ss, i) + ss[i].len()) =~= last);
            }
        }
    }
}

/// The bytes of argument `i`: from its recorded start boundary to its
/// recorded end (the buffer's end for the last argument).
pub open spec fn arg_range(a: ArgsOut, i: int) -> (int, int) {
    let start = if i == 0 {
        0
    } else {
        a.ends@[i - 1] as int
    };
    let end = if i == a.count - 1 {
        a.buf@.len() as int
    } else {
        a.ends@[i] as int
    };
    (start, end)
}

/// Splitting the packed buffer along the index table reproduces each
/// rendered argument text exactly: the encoder loses nothing and
/// truncates nothing.
pub proof fn lemma_args_round_trip(a: ArgsOut, i: int)
    requires
        args_finished(a),
        0 <= i < a.count,
    ensures
        0 <= arg_range(a, i).0 <= arg_range(a, i).1 <= a.buf@.len(),
        a.buf@.subrange(arg_range(a, i).0, arg_range(a, i).1) == a.rendered@[i],
{
    lemma_flatten_slices(a.rendered@);
    assert(arg_range(a, i).0 == psum(a.rendered@, i));
    assert(arg_range(a, i).1 == psum(a.rendered@, i) + a.rendered@[i].len());
}

/// Extracts the text of argument `i` from a finished encoding.
pub fn args_nth(a: &ArgsOut, i: usize) -> (r: Vec<u8>)
    requires
        args_finished(*a),
        i < a.count,
    ensures
        r@ == a.rendered@[i as int],
{
    proof {
        lemma_args_round_trip(*a, i as int);
    }
    let start: usize = if i == 0 {
        0
    } else {
        a.ends[i - 1]
    };
    let end: usize = if i == a.count - 1 {
        a.buf.len()
    } else {
        a.ends[i]
    };
    let mut r: Vec<u8> = Vec::new();
    let mut j: usize = start;
    while j < end
        invariant
            start <= j <= end,
            end <= a.buf@.len(),
            r@ == a.buf@.subrange(start as int, j as int),
        decreases end - j,
    {
        r.push(a.buf[j]);
        assert(r@ =~= a.buf@.subrange(start as int, j + 1));
        j = j + 1;
    }
    assert(r@ == a.buf@.subrange(start as int, end as int));
    r
}

} // verus!
