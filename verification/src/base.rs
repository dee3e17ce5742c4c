//! Shared ground types of the parsing core: step outcomes, user
//! interactions, the recording prompt/confirm sink, and byte helpers.

use vstd::prelude::*;

verus! {

/// Outcome of feeding one unit of input (a byte or a token) to a resumable
/// parsing unit.  `NeedMoreInput` is not an error: it is the normal
/// suspension at a chunk boundary.  `Fatal` aborts the whole in-flight
/// command; no further promises are made about any destination value.
#[derive(Clone, Copy, Debug, PartialEq, Eq, Structural)]
pub enum StepOutcome {
    Done,
    NeedMoreInput,
    Fatal,
}

/// One user interaction: either a paged title+body screen, or the final
/// yes/no confirmation gate with its lines.
#[derive(Debug)]
pub enum Interaction {
    Scroller { title: Vec<u8>, body: Vec<u8> },
    Confirmation { lines: Vec<Vec<u8>> },
}

/// Mathematical image of an `Interaction`.
pub enum InteractionV {
    Scroller { title: Seq<u8>, body: Seq<u8> },
    Confirmation { lines: Seq<Seq<u8>> },
}

impl DeepView for Interaction {
    type V = InteractionV;

    open spec fn deep_view(&self) -> InteractionV {
        self.view()
    }
}

impl View for Interaction {
    type V = InteractionV;

    open spec fn view(&self) -> InteractionV {
        match self {
            Interaction::Scroller { title, body } => InteractionV::Scroller {
                title: title@,
                body: body@,
            },
            Interaction::Confirmation { lines } => InteractionV::Confirmation {
                lines: lines.deep_view(),
            },
        }
    }
}

/// A scroller interaction at the view level.
pub open spec fn scroller(title: Seq<u8>, body: Seq<u8>) -> InteractionV {
    InteractionV::Scroller { title, body }
}

/// The display and confirmation sink.  The core only decides *what* is
/// shown; rendering is the device's affair, so the sink records every
/// interaction in order.  Titles and bodies are byte strings whose
/// exact content the contracts pin; every transaction-derived text is
/// checked to be well-formed UTF-8 (`is_utf8`) before it reaches a
/// screen, and invalid text aborts the command, so the holder is never
/// shown a lossy rendering of what is signed.  Device-derived texts (an
/// address form, the digest stand-in) are passed through as the device
/// gave them.  The holder's replies are scripted ahead of time: the next
/// `accepts_left` interactions are accepted, and the one after that is
/// rejected.  A rejection is fatal for the whole command.
pub struct Prompter {
    pub shown: Vec<Interaction>,
    pub accepts_left: usize,
}

impl Prompter {
    /// What has been shown so far, in order.
    pub open spec fn log(&self) -> Seq<InteractionV> {
        self.shown.deep_view()
    }

    /// A sink whose holder will accept the next `accepts` interactions.
    pub fn new(accepts: usize) -> (r: Prompter)
        ensures
            r.log() == Seq::<InteractionV>::empty(),
            r.accepts_left == accepts,
    {
        Prompter { shown: Vec::new(), accepts_left: accepts }
    }

    /// Shows one title+body screen.  Returns `true` iff the holder paged
    /// through and accepted it; on rejection nothing is recorded.
    pub fn show(&mut self, title: Vec<u8>, body: Vec<u8>) -> (r: bool)
        ensures
            r == (old(self).accepts_left > 0),
            r ==> final(self).log() == old(self).log().push(scroller(title@, body@))
                && final(self).accepts_left == old(self).accepts_left - 1,
            !r ==> *final(self) == *old(self),
    {
        if self.accepts_left > 0 {
            self.accepts_left = self.accepts_left - 1;
            let i = Interaction::Scroller { title, body };
            self.shown.push(i);
            assert(self.shown.deep_view() =~= old(self).shown.deep_view().push(
                scroller(title@, body@),
            ));
            true
        } else {
            false
        }
    }

    /// Poses the final yes/no confirmation.  Returns `true` iff the holder
    /// confirmed; on rejection nothing is recorded.
    pub fn confirm(&mut self, lines: Vec<Vec<u8>>) -> (r: bool)
        ensures
            r == (old(self).accepts_left > 0),
            r ==> final(self).log() == old(self).log().push(
                InteractionV::Confirmation { lines: lines.deep_view() },
            ) && final(self).accepts_left == old(self).accepts_left - 1,
            !r ==> *final(self) == *old(self),
    {
        if self.accepts_left > 0 {
            self.accepts_left = self.accepts_left - 1;
            let l = Ghost(lines.deep_view());
            let i = Interaction::Confirmation { lines };
            self.shown.push(i);
            assert(self.shown.deep_view() =~= old(self).shown.deep_view().push(
                InteractionV::Confirmation { lines: l@ },
            ));
            true
        } else {
            false
        }
    }
}

/// Whether `b` continues a multi-byte character.
pub open spec fn is_cont(b: u8) -> bool {
    0x80 <= b <= 0xBF
}

/// Whether `s` is well-formed UTF-8: every character is encoded in its
/// shortest form, surrogates and values past the last code point are
/// excluded.
pub open spec fn is_utf8(s: Seq<u8>) -> bool
    decreases s.len(),
{
    if s.len() == 0 {
        true
    } else {
        let b0 = s[0];
        if b0 < 0x80 {
            is_utf8(s.skip(1))
        } else if 0xC2 <= b0 && b0 <= 0xDF {
            s.len() >= 2 && is_cont(s[1]) && is_utf8(s.skip(2))
        } else if b0 == 0xE0 {
            s.len() >= 3 && 0xA0 <= s[1] && s[1] <= 0xBF && is_cont(s[2]) && is_utf8(s.skip(3))
        } else if 0xE1 <= b0 && b0 <= 0xEC || b0 == 0xEE || b0 == 0xEF {
            s.len() >= 3 && is_cont(s[1]) && is_cont(s[2]) && is_utf8(s.skip(3))
        } else if b0 == 0xED {
            s.len() >= 3 && 0x80 <= s[1] && s[1] <= 0x9F && is_cont(s[2]) && is_utf8(s.skip(3))
        } else if b0 == 0xF0 {
            s.len() >= 4 && 0x90 <= s[1] && s[1] <= 0xBF && is_cont(s[2]) && is_cont(s[3])
                && is_utf8(s.skip(4))
        } else if 0xF1 <= b0 && b0 <= 0xF3 {
            s.len() >= 4 && is_cont(s[1]) && is_cont(s[2]) && is_cont(s[3]) && is_utf8(s.skip(4))
        } else if b0 == 0xF4 {
            s.len() >= 4 && 0x80 <= s[1] && s[1] <= 0x8F && is_cont(s[2]) && is_cont(s[3])
                && is_utf8(s.skip(4))
        } else {
            false
        }
    }
}

/// Checks that `v` is well-formed UTF-8.
pub fn check_utf8(v: &Vec<u8>) -> (r: bool)
    ensures
        r == is_utf8(v@),
{
    let n = v.len();
    proof {
        assert(v@.skip(0) =~= v@);
    }
    let mut i: usize = 0;
    while i < n
        invariant
            i <= n,
            n == v@.len(),
            is_utf8(v@) == is_utf8(v@.skip(i as int)),
        decreases n - i,
    {
        let ghost s = v@.skip(i as int);
        let b0 = v[i];
        proof {
            assert(s[0] == v@[i as int]);
        }
        let step: usize = if b0 < 0x80 {
            1
        } else if 0xC2 <= b0 && b0 <= 0xDF {
            if n - i < 2 || !(0x80 <= v[i + 1] && v[i + 1] <= 0xBF) {
                proof {
                    assert(i + 1 < n ==> s[1] == v@[i + 1]);
                }
                return false;
            }
            2
        } else if b0 == 0xE0 {
            if n - i < 3 || !(0xA0 <= v[i + 1] && v[i + 1] <= 0xBF) || !(0x80 <= v[i + 2] && v[i
                + 2] <= 0xBF) {
                proof {
                    assert(i + 1 < n ==> s[1] == v@[i + 1]);
                    assert(i + 2 < n ==> s[2] == v@[i + 2]);
                }
                return false;
            }
            3
        } else if (0xE1 <= b0 && b0 <= 0xEC) || b0 == 0xEE || b0 == 0xEF {
            if n - i < 3 || !(0x80 <= v[i + 1] && v[i + 1] <= 0xBF) || !(0x80 <= v[i + 2] && v[i
                + 2] <= 0xBF) {
                proof {
                    assert(i + 1 < n ==> s[1] == v@[i + 1]);
                    assert(i + 2 < n ==> s[2] == v@[i + 2]);
                }
                return false;
            }
            3
        } else if b0 == 0xED {
            if n - i < 3 || !(0x80 <= v[i + 1] && v[i + 1] <= 0x9F) || !(0x80 <= v[i + 2] && v[i
                + 2] <= 0xBF) {
                proof {
                    assert(i + 1 < n ==> s[1] == v@[i + 1]);
                    assert(i + 2 < n ==> s[2] == v@[i + 2]);
                }
                return false;
            }
            3
        } else if b0 == 0xF0 {
            if n - i < 4 || !(0x90 <= v[i + 1] && v[i + 1] <= 0xBF) || !(0x80 <= v[i + 2] && v[i
                + 2] <= 0xBF) || !(0x80 <= v[i + 3] && v[i + 3] <= 0xBF) {
                proof {
                    assert(i + 1 < n ==> s[1] == v@[i + 1]);
                    assert(i + 2 < n ==> s[2] == v@[i + 2]);
                    assert(i + 3 < n ==> s[3] == v@[i + 3]);
                }
                return false;
            }
            4
        } else if 0xF1 <= b0 && b0 <= 0xF3 {
            if n - i < 4 || !(0x80 <= v[i + 1] && v[i + 1] <= 0xBF) || !(0x80 <= v[i + 2] && v[i
                + 2] <= 0xBF) || !(0x80 <= v[i + 3] && v[i + 3] <= 0xBF) {
                proof {
                    assert(i + 1 < n ==> s[1] == v@[i + 1]);
                    assert(i + 2 < n ==> s[2] == v@[i + 2]);
                    assert(i + 3 < n ==> s[3] == v@[i + 3]);
                }
                return false;
            }
            4
        } else if b0 == 0xF4 {
            if n - i < 4 || !(0x80 <= v[i + 1] && v[i + 1] <= 0x8F) || !(0x80 <= v[i + 2] && v[i
                + 2] <= 0xBF) || !(0x80 <= v[i + 3] && v[i + 3] <= 0xBF) {
                proof {
                    assert(i + 1 < n ==> s[1] == v@[i + 1]);
                    assert(i + 2 < n ==> s[2] == v@[i + 2]);
                    assert(i + 3 < n ==> s[3] == v@[i + 3]);
                }
                return false;
            }
            4
        } else {
            return false;
        };
        proof {
            assert(forall|j: int| 0 <= j < s.len() - 0 && j < 4 ==> s[j] == v@[i + j]);
            assert(s.skip(step as int) =~= v@.skip(i + step));
        }
        i = i + step;
    }
    proof {
        assert(v@.skip(n as int) =~= Seq::<u8>::empty());
    }
    true
}

/// The character of one hexadecimal digit, lower case.
pub open spec fn hex_digit(n: u8) -> u8 {
    if n < 10 {
        (48 + n) as u8
    } else {
        (87 + n) as u8
    }
}

/// The lower-case hexadecimal text of a byte string, two digits per
/// byte, most significant digit first.
pub open spec fn hex_of(s: Seq<u8>) -> Seq<u8> {
    Seq::new(
        s.len() * 2,
        |i: int|
            if i % 2 == 0 {
                hex_digit(s[i / 2] / 16)
            } else {
                hex_digit(s[i / 2] % 16)
            },
    )
}

/// Writes a byte string in lower-case hexadecimal.
pub fn to_hex(v: &Vec<u8>) -> (r: Vec<u8>)
    ensures
        r@ == hex_of(v@),
{
    let mut out: Vec<u8> = Vec::new();
    let mut i: usize = 0;
    while i < v.len()
        invariant
            i <= v@.len(),
            out@.len() == 2 * i,
            forall|j: int| 0 <= j < 2 * i ==> out@[j] == hex_of(v@)[j],
        decreases v@.len() - i,
    {
        let b = v[i];
        let hi = b / 16;
        let lo = b % 16;
        out.push(
            if hi < 10 {
                48 + hi
            } else {
                87 + hi
            },
        );
        out.push(
            if lo < 10 {
                48 + lo
            } else {
                87 + lo
            },
        );
        i = i + 1;
    }
    proof {
        assert(out@ =~= hex_of(v@));
    }
    out
}

/// Byte-wise equality of two byte vectors.
pub fn bytes_eq(a: &Vec<u8>, b: &Vec<u8>) -> (r: bool)
    ensures
        r == (a@ =~= b@),
{
    if a.len() != b.len() {
        return false;
    }
    let mut i: usize = 0;
    while i < a.len()
        invariant
            i <= a.len(),
            a.len() == b.len(),
            forall|j: int| 0 <= j < i ==> a@[j] == b@[j],
        decreases a.len() - i,
    {
        if a[i] != b[i] {
            return false;
        }
        i = i + 1;
    }
    assert(a@ =~= b@);
    true
}

/// Appends all of `src` to `dst`.
pub fn extend_bytes(dst: &mut Vec<u8>, src: &Vec<u8>)
    ensures
        final(dst)@ == old(dst)@ + src@,
{
    let mut i: usize = 0;
    while i < src.len()
        invariant
            i <= src.len(),
            dst@ == old(dst)@ + src@.take(i as int),
        decreases src.len() - i,
    {
        dst.push(src[i]);
        assert(old(dst)@ + src@.take(i as int) + seq![src@[i as int]] =~= old(dst)@ + src@.take(
            i + 1,
        ));
        i = i + 1;
    }
    assert(dst@ =~= old(dst)@ + src@);
}

} // verus!
