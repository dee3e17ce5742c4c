//! Resumable JSON tokenizer: turns the raw byte stream into lexical
//! tokens, one byte per step, so that chunk boundaries can fall anywhere.
//!
//! String tokens carry the raw bytes between the quotes, escape sequences
//! kept verbatim; number tokens carry the literal text.  The tokenizer
//! validates only the lexical shape; the token-level interpreters reject
//! structural nonsense.

use vstd::prelude::*;
use vstd::string::StringSliceAdditionalSpecFns;

verus! {

/// One lexical token of the JSON stream.
#[derive(Debug)]
pub enum Token {
    BeginObject,
    EndObject,
    BeginArray,
    EndArray,
    NameSeparator,
    ValueSeparator,
    Str(Vec<u8>),
    Num(Vec<u8>),
    True,
    False,
    Null,
}

/// Mathematical image of a `Token`.
pub enum TokenV {
    BeginObject,
    EndObject,
    BeginArray,
    EndArray,
    NameSeparator,
    ValueSeparator,
    Str(Seq<u8>),
    Num(Seq<u8>),
    True,
    False,
    Null,
}

impl View for Token {
    type V = TokenV;

    open spec fn view(&self) -> TokenV {
        match self {
            Token::BeginObject => TokenV::BeginObject,
            Token::EndObject => TokenV::EndObject,
            Token::BeginArray => TokenV::BeginArray,
            Token::EndArray => TokenV::EndArray,
            Token::NameSeparator => TokenV::NameSeparator,
            Token::ValueSeparator => TokenV::ValueSeparator,
            Token::Str(s) => TokenV::Str(s@),
            Token::Num(s) => TokenV::Num(s@),
            Token::True => TokenV::True,
            Token::False => TokenV::False,
            Token::Null => TokenV::Null,
        }
    }
}

impl DeepView for Token {
    type V = TokenV;

    open spec fn deep_view(&self) -> TokenV {
        self.view()
    }
}

/// Tokenizer state between two bytes.
#[derive(Debug)]
pub enum TokState {
    Ready,
    InString { content: Vec<u8>, escaped: bool },
    InNumber { text: Vec<u8> },
    InWord { text: Vec<u8> },
}

/// Mathematical image of a `TokState`.
pub enum TokStateV {
    Ready,
    InString { content: Seq<u8>, escaped: bool },
    InNumber { text: Seq<u8> },
    InWord { text: Seq<u8> },
}

impl View for TokState {
    type V = TokStateV;

    open spec fn view(&self) -> TokStateV {
        match self {
            TokState::Ready => TokStateV::Ready,
            TokState::InString { content, escaped } => TokStateV::InString {
                content: content@,
                escaped: *escaped,
            },
            TokState::InNumber { text } => TokStateV::InNumber { text: text@ },
            TokState::InWord { text } => TokStateV::InWord { text: text@ },
        }
    }
}

pub open spec fn is_ws(b: u8) -> bool {
    b == 32 || b == 9 || b == 10 || b == 13
}

pub open spec fn is_digit(b: u8) -> bool {
    48 <= b <= 57
}

/// Bytes that may continue a number literal.
pub open spec fn is_num_byte(b: u8) -> bool {
    is_digit(b) || b == 45 || b == 43 || b == 46 || b == 101 || b == 69
}

/// Bytes that may continue a bare word (`true`, `false`, `null`).
pub open spec fn is_word_byte(b: u8) -> bool {
    97 <= b <= 122
}

/// The token of a single structural byte, if it is one.
pub open spec fn structural_token(b: u8) -> Option<TokenV> {
    if b == 123 {
        Some(TokenV::BeginObject)
    } else if b == 125 {
        Some(TokenV::EndObject)
    } else if b == 91 {
        Some(TokenV::BeginArray)
    } else if b == 93 {
        Some(TokenV::EndArray)
    } else if b == 58 {
        Some(TokenV::NameSeparator)
    } else if b == 44 {
        Some(TokenV::ValueSeparator)
    } else {
        None
    }
}

/// The token of a completed bare word, if the word is one of the three
/// JSON literals.
pub open spec fn word_token(text: Seq<u8>) -> Option<TokenV> {
    if text == "true".spec_bytes() {
        Some(TokenV::True)
    } else if text == "false".spec_bytes() {
        Some(TokenV::False)
    } else if text == "null".spec_bytes() {
        Some(TokenV::Null)
    } else {
        None
    }
}

/// What one byte does when the tokenizer stands between tokens: the next
/// state and the tokens emitted, or `None` for a lexically invalid byte.
pub open spec fn spec_ready_step(b: u8) -> Option<(TokStateV, Seq<TokenV>)> {
    if is_ws(b) {
        Some((TokStateV::Ready, Seq::empty()))
    } else if structural_token(b) is Some {
        Some((TokStateV::Ready, seq![structural_token(b)->Some_0]))
    } else if b == 34 {
        Some((TokStateV::InString { content: Seq::empty(), escaped: false }, Seq::empty()))
    } else if b == 45 || is_digit(b) {
        Some((TokStateV::InNumber { text: seq![b] }, Seq::empty()))
    } else if is_word_byte(b) {
        Some((TokStateV::InWord { text: seq![b] }, Seq::empty()))
    } else {
        None
    }
}

/// The tokenizer's full transition: one byte in, zero, one or two tokens
/// out, or `None` for a lexical error.
pub open spec fn spec_tok_step(s: TokStateV, b: u8) -> Option<(TokStateV, Seq<TokenV>)> {
    match s {
        TokStateV::Ready => spec_ready_step(b),
        TokStateV::InString { content, escaped } => {
            if escaped {
                Some((TokStateV::InString { content: content.push(b), escaped: false }, Seq::empty()))
            } else if b == 34 {
                Some((TokStateV::Ready, seq![TokenV::Str(content)]))
            } else if b == 92 {
                Some((TokStateV::InString { content: content.push(b), escaped: true }, Seq::empty()))
            } else {
                Some((TokStateV::InString { content: content.push(b), escaped: false }, Seq::empty()))
            }
        }
        TokStateV::InNumber { text } => {
            if is_num_byte(b) {
                Some((TokStateV::InNumber { text: text.push(b) }, Seq::empty()))
            } else {
                match spec_ready_step(b) {
                    Some((s2, toks)) => Some((s2, seq![TokenV::Num(text)] + toks)),
                    None => None,
                }
            }
        }
        TokStateV::InWord { text } => {
            if is_word_byte(b) {
                Some((TokStateV::InWord { text: text.push(b) }, Seq::empty()))
            } else {
                match word_token(text) {
                    Some(t) => match spec_ready_step(b) {
                        Some((s2, toks)) => Some((s2, seq![t] + toks)),
                        None => None,
                    },
                    None => None,
                }
            }
        }
    }
}

/// What the end of the byte region flushes out of the tokenizer: a pending
/// number or word token, or `None` when the region ends mid-string or on
/// an unfinished word.
pub open spec fn spec_tok_flush(s: TokStateV) -> Option<Seq<TokenV>> {
    match s {
        TokStateV::Ready => Some(Seq::empty()),
        TokStateV::InString { .. } => None,
        TokStateV::InNumber { text } => Some(seq![TokenV::Num(text)]),
        TokStateV::InWord { text } => match word_token(text) {
            Some(t) => Some(seq![t]),
            None => None,
        },
    }
}

/// Executes `spec_ready_step`, overwriting `state` and appending the
/// emitted tokens to `out`.
fn ready_step(b: u8, state: &mut TokState, out: &mut Vec<Token>) -> (ok: bool)
    ensures
        match spec_ready_step(b) {
            Some((s2, toks)) => ok && final(state)@ == s2 && final(out).deep_view() == old(
                out,
            ).deep_view() + toks,
            None => !ok,
        },
{
    let ghost out0 = out.deep_view();
    if b == 32 || b == 9 || b == 10 || b == 13 {
        *state = TokState::Ready;
        assert(out.deep_view() =~= out0 + Seq::<TokenV>::empty());
        true
    } else if b == 123 || b == 125 || b == 91 || b == 93 || b == 58 || b == 44 {
        let t = if b == 123 {
            Token::BeginObject
        } else if b == 125 {
            Token::EndObject
        } else if b == 91 {
            Token::BeginArray
        } else if b == 93 {
            Token::EndArray
        } else if b == 58 {
            Token::NameSeparator
        } else {
            Token::ValueSeparator
        };
        let ghost tv = t@;
        out.push(t);
        *state = TokState::Ready;
        assert(out.deep_view() =~= out0 + seq![tv]);
        true
    } else if b == 34 {
        *state = TokState::InString { content: Vec::new(), escaped: false };
        assert(out.deep_view() =~= out0 + Seq::<TokenV>::empty());
        true
    } else if b == 45 || (48 <= b && b <= 57) {
        let mut text: Vec<u8> = Vec::new();
        text.push(b);
        assert(text@ =~= seq![b]);
        *state = TokState::InNumber { text };
        assert(out.deep_view() =~= out0 + Seq::<TokenV>::empty());
        true
    } else if 97 <= b && b <= 122 {
        let mut text: Vec<u8> = Vec::new();
        text.push(b);
        assert(text@ =~= seq![b]);
        *state = TokState::InWord { text };
        assert(out.deep_view() =~= out0 + Seq::<TokenV>::empty());
        true
    } else {
        false
    }
}

/// Recognizes a completed bare word.
fn word_token_exec(text: &Vec<u8>) -> (r: Option<Token>)
    ensures
        match r {
            Some(t) => word_token(text@) == Some(t@),
            None => word_token(text@) is None,
        },
{
    if crate::base::bytes_eq(text, &"true".as_bytes_vec()) {
        Some(Token::True)
    } else if crate::base::bytes_eq(text, &"false".as_bytes_vec()) {
        Some(Token::False)
    } else if crate::base::bytes_eq(text, &"null".as_bytes_vec()) {
        Some(Token::Null)
    } else {
        None
    }
}

/// Feeds one byte to the tokenizer, appending any completed tokens to
/// `out`.  Returns `false` exactly on a lexical error, after which the
/// state is meaningless.
pub fn tok_step(state: &mut TokState, b: u8, out: &mut Vec<Token>) -> (ok: bool)
    ensures
        match spec_tok_step(old(state)@, b) {
            Some((s2, toks)) => ok && final(state)@ == s2 && final(out).deep_view() == old(
                out,
            ).deep_view() + toks,
            None => !ok,
        },
{
    let ghost out0 = out.deep_view();
    let mut cur = TokState::Ready;
    core::mem::swap(state, &mut cur);
    match cur {
        TokState::Ready => ready_step(b, state, out),
        TokState::InString { mut content, escaped } => {
            if escaped {
                content.push(b);
                *state = TokState::InString { content, escaped: false };
                assert(out.deep_view() =~= out0 + Seq::<TokenV>::empty());
                true
            } else if b == 34 {
                let ghost cv = content@;
                out.push(Token::Str(content));
                *state = TokState::Ready;
                assert(out.deep_view() =~= out0 + seq![TokenV::Str(cv)]);
                true
            } else {
                let esc = b == 92;
                content.push(b);
                *state = TokState::InString { content, escaped: esc };
                assert(out.deep_view() =~= out0 + Seq::<TokenV>::empty());
                true
            }
        }
        TokState::InNumber { mut text } => {
            if (48 <= b && b <= 57) || b == 45 || b == 43 || b == 46 || b == 101 || b == 69 {
                text.push(b);
                *state = TokState::InNumber { text };
                assert(out.deep_view() =~= out0 + Seq::<TokenV>::empty());
                true
            } else {
                let ghost tv = text@;
                out.push(Token::Num(text));
                let ghost out1 = out.deep_view();
                assert(out1 =~= out0 + seq![TokenV::Num(tv)]);
                let ok = ready_step(b, state, out);
                proof {
                    if spec_ready_step(b) is Some {
                        let toks = spec_ready_step(b)->Some_0.1;
                        assert(out.deep_view() =~= out0 + (seq![TokenV::Num(tv)] + toks));
                    }
                }
                ok
            }
        }
        TokState::InWord { mut text } => {
            if 97 <= b && b <= 122 {
                text.push(b);
                *state = TokState::InWord { text };
                assert(out.deep_view() =~= out0 + Seq::<TokenV>::empty());
                true
            } else {
                match word_token_exec(&text) {
                    Some(t) => {
                        let ghost tv = t@;
                        out.push(t);
                        let ghost out1 = out.deep_view();
                        assert(out1 =~= out0 + seq![tv]);
                        let ok = ready_step(b, state, out);
                        proof {
                            if spec_ready_step(b) is Some {
                                let toks = spec_ready_step(b)->Some_0.1;
                                assert(out.deep_view() =~= out0 + (seq![tv] + toks));
                            }
                        }
                        ok
                    }
                    None => false,
                }
            }
        }
    }
}

/// Flushes the tokenizer at the end of the byte region.
pub fn tok_flush(state: &mut TokState, out: &mut Vec<Token>) -> (ok: bool)
    ensures
        match spec_tok_flush(old(state)@) {
            Some(toks) => ok && final(out).deep_view() == old(out).deep_view() + toks,
            None => !ok,
        },
{
    let ghost out0 = out.deep_view();
    let mut cur = TokState::Ready;
    core::mem::swap(state, &mut cur);
    match cur {
        TokState::Ready => {
            assert(out.deep_view() =~= out0 + Seq::<TokenV>::empty());
            true
        }
        TokState::InString { .. } => false,
        TokState::InNumber { text } => {
            let ghost tv = text@;
            out.push(Token::Num(text));
            assert(out.deep_view() =~= out0 + seq![TokenV::Num(tv)]);
            true
        }
        TokState::InWord { text } => {
            match word_token_exec(&text) {
                Some(t) => {
                    let ghost tv = t@;
                    out.push(t);
                    assert(out.deep_view() =~= out0 + seq![tv]);
                    true
                }
                None => false,
            }
        }
    }
}

} // verus!
