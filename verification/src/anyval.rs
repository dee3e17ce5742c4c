//! Resumable scanner for one arbitrary JSON value at the token level.
//!
//! The scanner validates the token-level grammar of a single value of any
//! shape (scalar, array, object, nested).  It either merely skips the
//! value, or additionally renders the value's text into a bounded byte
//! buffer: a bare string renders as its content, everything else as its
//! JSON text.  Rendering degrades, never truncates: once the buffer's
//! capacity would be exceeded the scanner stops writing and raises its
//! overflow flag, while still validating the remaining tokens.

use vstd::prelude::*;
use vstd::string::StrSliceExecFns;
use vstd::string::StringSliceAdditionalSpecFns;
use crate::base::StepOutcome;
use crate::token::{Token, TokenV};

verus! {

/// Position of the scanner inside the value.
#[derive(Clone, Copy, Debug, PartialEq, Eq, Structural)]
pub enum Expect {
    /// A value must come next (start of the element, after `,` in an
    /// array, after `:` in an object).
    Value,
    /// Just after `[`: a value or an immediate `]`.
    ArrFirst,
    /// After a value inside an array: `,` or `]`.
    ArrSep,
    /// Just after `{`: a key string or an immediate `}`.
    ObjFirst,
    /// After `,` inside an object: a key string.
    ObjKey,
    /// After a key: `:`.
    ObjColon,
    /// After a value inside an object: `,` or `}`.
    ObjSep,
}

/// Resumable state of the scanner: the stack of open containers (`true`
/// is an object frame, `false` an array frame), the position, whether the
/// value's text is rendered, and whether rendering has overflowed.
#[derive(Debug)]
pub struct ValueScan {
    pub stack: Vec<bool>,
    pub expect: Expect,
    pub render: bool,
    pub overflow: bool,
}

/// The text one token contributes to the rendered form of a value.  A
/// string that is itself the whole value renders unquoted.
pub open spec fn token_text(t: TokenV, top: bool) -> Seq<u8> {
    match t {
        TokenV::BeginObject => seq![123u8],
        TokenV::EndObject => seq![125u8],
        TokenV::BeginArray => seq![91u8],
        TokenV::EndArray => seq![93u8],
        TokenV::NameSeparator => seq![58u8],
        TokenV::ValueSeparator => seq![44u8],
        TokenV::Str(s) => if top {
            s
        } else {
            seq![34u8] + s + seq![34u8]
        },
        TokenV::Num(s) => s,
        TokenV::True => "true".spec_bytes(),
        TokenV::False => "false".spec_bytes(),
        TokenV::Null => "null".spec_bytes(),
    }
}

/// The text the scanner appends for one token in its current position:
/// object keys render quoted, and a string that is the whole value
/// renders bare.
pub open spec fn step_text(s: ValueScan, t: TokenV) -> Seq<u8> {
    if (s.expect is ObjFirst || s.expect is ObjKey) && t is Str {
        seq![34u8] + (t->Str_0) + seq![34u8]
    } else {
        token_text(t, s.stack@.len() == 0 && s.expect is Value)
    }
}

/// A one-byte vector.
fn byte1(b: u8) -> (r: Vec<u8>)
    ensures
        r@ =~= seq![b],
{
    let mut v: Vec<u8> = Vec::new();
    v.push(b);
    assert(v@ =~= seq![b]);
    v
}

/// Well-formedness of the scanner: any position inside a container has
/// that container on the stack.
pub open spec fn scan_wf(s: ValueScan) -> bool {
    match s.expect {
        Expect::Value => true,
        Expect::ArrFirst | Expect::ArrSep => s.stack@.len() >= 1 && s.stack@.last() == false,
        Expect::ObjFirst | Expect::ObjKey | Expect::ObjColon | Expect::ObjSep => s.stack@.len()
            >= 1 && s.stack@.last() == true,
    }
}

/// Whether the scanner accepts this token in its current position: the
/// token-level grammar of a single JSON value.
pub open spec fn scan_accepts(s: ValueScan, t: TokenV) -> bool {
    match s.expect {
        Expect::Value => t is Str || t is Num || t is True || t is False || t is Null
            || t is BeginArray || t is BeginObject,
        Expect::ArrFirst => t is Str || t is Num || t is True || t is False || t is Null
            || t is BeginArray || t is BeginObject || t is EndArray,
        Expect::ArrSep => t is ValueSeparator || t is EndArray,
        Expect::ObjFirst => t is Str || t is EndObject,
        Expect::ObjKey => t is Str,
        Expect::ObjColon => t is NameSeparator,
        Expect::ObjSep => t is ValueSeparator || t is EndObject,
    }
}

/// The position after a value inside a container completes: back to the
/// enclosing container's separator position.
pub open spec fn after_value(stack: Seq<bool>, fallback: Expect) -> Expect {
    if stack.len() == 0 {
        fallback
    } else if stack.last() {
        Expect::ObjSep
    } else {
        Expect::ArrSep
    }
}

/// The scanner's successor position and stack for an accepted token.
pub open spec fn scan_next(s: ValueScan, t: TokenV) -> (Expect, Seq<bool>) {
    match s.expect {
        Expect::Value | Expect::ArrFirst => match t {
            TokenV::BeginArray => (Expect::ArrFirst, s.stack@.push(false)),
            TokenV::BeginObject => (Expect::ObjFirst, s.stack@.push(true)),
            TokenV::EndArray => (
                after_value(s.stack@.drop_last(), s.expect),
                s.stack@.drop_last(),
            ),
            _ => (after_value(s.stack@, s.expect), s.stack@),
        },
        Expect::ArrSep => match t {
            TokenV::ValueSeparator => (Expect::Value, s.stack@),
            _ => (after_value(s.stack@.drop_last(), s.expect), s.stack@.drop_last()),
        },
        Expect::ObjFirst => match t {
            TokenV::Str(_) => (Expect::ObjColon, s.stack@),
            _ => (after_value(s.stack@.drop_last(), s.expect), s.stack@.drop_last()),
        },
        Expect::ObjKey => (Expect::ObjColon, s.stack@),
        Expect::ObjColon => (Expect::Value, s.stack@),
        Expect::ObjSep => match t {
            TokenV::ValueSeparator => (Expect::ObjKey, s.stack@),
            _ => (after_value(s.stack@.drop_last(), s.expect), s.stack@.drop_last()),
        },
    }
}

/// Whether this token closes the whole value: a scalar standing alone,
/// or the bracket that empties the container stack.
pub open spec fn scan_completes(s: ValueScan, t: TokenV) -> bool {
    match s.expect {
        Expect::Value => (t is Str || t is Num || t is True || t is False || t is Null)
            && s.stack@.len() == 0,
        Expect::ArrFirst => t is EndArray && s.stack@.len() == 1,
        Expect::ArrSep => t is EndArray && s.stack@.len() == 1,
        Expect::ObjFirst | Expect::ObjSep => t is EndObject && s.stack@.len() == 1,
        _ => false,
    }
}

impl ValueScan {
    /// A scanner at the start of a value.
    pub fn new(render: bool) -> (r: ValueScan)
        ensures
            r.stack@.len() == 0,
            r.expect == Expect::Value,
            r.render == render,
            !r.overflow,
            scan_wf(r),
    {
        ValueScan { stack: Vec::new(), expect: Expect::Value, render, overflow: false }
    }

    /// Feeds one token.  `buf` is the shared render target with capacity
    /// `cap`; when the scanner does not render, `buf` is never touched.
    /// Appending is all-or-nothing per token: either the whole token text
    /// fits, or nothing is written and the overflow flag rises for good.
    pub fn step(&mut self, t: &Token, buf: &mut Vec<u8>, cap: usize) -> (r: StepOutcome)
        requires
            old(buf)@.len() <= cap,
            scan_wf(*old(self)),
        ensures
            r == StepOutcome::NeedMoreInput ==> scan_wf(*final(self)),
            final(self).render == old(self).render,
            final(buf)@.len() <= cap,
            !old(self).render ==> final(buf)@ == old(buf)@ && final(self).overflow == old(self).overflow,
            r == StepOutcome::Fatal ==> final(buf)@ == old(buf)@,
            old(self).render && old(self).overflow && r != StepOutcome::Fatal ==> final(buf)@ == old(buf)@ && final(self).overflow,
            old(self).render && !old(self).overflow && r != StepOutcome::Fatal ==> {
                let d = step_text(*old(self), t@);
                if old(buf)@.len() + d.len() <= cap {
                    final(buf)@ == old(buf)@ + d && !final(self).overflow
                } else {
                    final(buf)@ == old(buf)@ && final(self).overflow
                }
            },
            (r == StepOutcome::Fatal) == !scan_accepts(*old(self), t@),
            (r == StepOutcome::Done) == scan_completes(*old(self), t@),
            r != StepOutcome::Fatal ==> final(self).expect == scan_next(*old(self), t@).0
                && final(self).stack@ == scan_next(*old(self), t@).1,
    {
        match self.expect {
            Expect::Value | Expect::ArrFirst => {
                match t {
                    Token::Str(_) | Token::Num(_) | Token::True | Token::False | Token::Null => {
                        self.append_token(t, buf, cap);
                        self.complete_value()
                    }
                    Token::BeginArray => {
                        self.append_token(t, buf, cap);
                        self.stack.push(false);
                        self.expect = Expect::ArrFirst;
                        StepOutcome::NeedMoreInput
                    }
                    Token::BeginObject => {
                        self.append_token(t, buf, cap);
                        self.stack.push(true);
                        self.expect = Expect::ObjFirst;
                        StepOutcome::NeedMoreInput
                    }
                    Token::EndArray => {
                        if self.expect == Expect::ArrFirst {
                            self.append_token(t, buf, cap);
                            self.stack.pop();
                            self.complete_value()
                        } else {
                            StepOutcome::Fatal
                        }
                    }
                    _ => StepOutcome::Fatal,
                }
            }
            Expect::ArrSep => {
                match t {
                    Token::ValueSeparator => {
                        self.append_token(t, buf, cap);
                        self.expect = Expect::Value;
                        StepOutcome::NeedMoreInput
                    }
                    Token::EndArray => {
                        self.append_token(t, buf, cap);
                        self.stack.pop();
                        self.complete_value()
                    }
                    _ => StepOutcome::Fatal,
                }
            }
            Expect::ObjFirst | Expect::ObjKey => {
                match t {
                    Token::Str(_) => {
                        self.append_token(t, buf, cap);
                        self.expect = Expect::ObjColon;
                        StepOutcome::NeedMoreInput
                    }
                    Token::EndObject => {
                        if self.expect == Expect::ObjFirst {
                            self.append_token(t, buf, cap);
                            self.stack.pop();
                            self.complete_value()
                        } else {
                            StepOutcome::Fatal
                        }
                    }
                    _ => StepOutcome::Fatal,
                }
            }
            Expect::ObjColon => {
                match t {
                    Token::NameSeparator => {
                        self.append_token(t, buf, cap);
                        self.expect = Expect::Value;
                        StepOutcome::NeedMoreInput
                    }
                    _ => StepOutcome::Fatal,
                }
            }
            Expect::ObjSep => {
                match t {
                    Token::ValueSeparator => {
                        self.append_token(t, buf, cap);
                        self.expect = Expect::ObjKey;
                        StepOutcome::NeedMoreInput
                    }
                    Token::EndObject => {
                        self.append_token(t, buf, cap);
                        self.stack.pop();
                        self.complete_value()
                    }
                    _ => StepOutcome::Fatal,
                }
            }
        }
    }

    /// After a full value closed: done at depth zero, otherwise back to
    /// the enclosing container's separator position.
    fn complete_value(&mut self) -> (r: StepOutcome)
        ensures
            final(self).render == old(self).render,
            final(self).overflow == old(self).overflow,
            final(self).stack == old(self).stack,
            (r == StepOutcome::Done) == (old(self).stack@.len() == 0),
            r == StepOutcome::Done || r == StepOutcome::NeedMoreInput,
            old(self).stack@.len() > 0 ==> final(self).expect == (if old(self).stack@.last() {
                Expect::ObjSep
            } else {
                Expect::ArrSep
            }),
            old(self).stack@.len() == 0 ==> final(self).expect == old(self).expect,
    {
        if self.stack.len() == 0 {
            StepOutcome::Done
        } else {
            let top = self.stack[self.stack.len() - 1];
            self.expect = if top {
                Expect::ObjSep
            } else {
                Expect::ArrSep
            };
            StepOutcome::NeedMoreInput
        }
    }

    /// Appends this token's text to the render target, or raises the
    /// overflow flag if it cannot fit whole.
    fn append_token(&mut self, t: &Token, buf: &mut Vec<u8>, cap: usize)
        requires
            old(buf)@.len() <= cap,
        ensures
            final(self).render == old(self).render,
            final(self).expect == old(self).expect,
            final(self).stack == old(self).stack,
            final(buf)@.len() <= cap,
            !old(self).render ==> final(buf)@ == old(buf)@ && final(self).overflow == old(self).overflow,
            old(self).render && old(self).overflow ==> final(buf)@ == old(buf)@ && final(self).overflow,
            old(self).render && !old(self).overflow ==> {
                let d = step_text(*old(self), t@);
                if old(buf)@.len() + d.len() <= cap {
                    final(buf)@ == old(buf)@ + d && !final(self).overflow
                } else {
                    final(buf)@ == old(buf)@ && final(self).overflow
                }
            },
    {
        if !self.render || self.overflow {
            return ;
        }
        let quoted_key = (self.expect == Expect::ObjFirst || self.expect == Expect::ObjKey)
            && matches!(t, Token::Str(_));
        let top = self.stack.len() == 0 && self.expect == Expect::Value;
        let add: Vec<u8> = match t {
            Token::BeginObject => byte1(123),
            Token::EndObject => byte1(125),
            Token::BeginArray => byte1(91),
            Token::EndArray => byte1(93),
            Token::NameSeparator => byte1(58),
            Token::ValueSeparator => byte1(44),
            Token::Str(s) => {
                if quoted_key || !top {
                    let mut v: Vec<u8> = Vec::new();
                    v.push(34);
                    crate::base::extend_bytes(&mut v, s);
                    v.push(34);
                    assert(v@ =~= seq![34u8] + s@ + seq![34u8]);
                    v
                } else {
                    s.clone()
                }
            }
            Token::Num(s) => s.clone(),
            Token::True => "true".as_bytes_vec(),
            Token::False => "false".as_bytes_vec(),
            Token::Null => "null".as_bytes_vec(),
        };
        assert(add@ == step_text(*old(self), t@));
        if add.len() > cap - buf.len() {
            self.overflow = true;
        } else {
            crate::base::extend_bytes(buf, &add);
        }
    }
}

} // verus!
