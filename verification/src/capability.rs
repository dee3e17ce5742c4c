//! Classification of one capability by its name and argument shape.
//!
//! A small fixed set of well-understood capability names, each with an
//! expected argument count, is recognized as safely scoping the
//! transaction; everything else is an unknown capability.  The
//! classification also fixes exactly which prompt the device holder sees
//! for the capability, ordinals included.

use vstd::prelude::*;
use vstd::string::StrSliceExecFns;
use vstd::string::StringSliceAdditionalSpecFns;
use crate::argbuf::{args_finished, args_nth, ArgsOut};
use crate::base::extend_bytes;
use crate::coverage::CapCountData;

verus! {

/// Decimal representation of a number, most significant digit first.
pub open spec fn dec_rep(n: nat) -> Seq<u8>
    decreases n,
{
    if n < 10 {
        seq![(48 + n) as u8]
    } else {
        dec_rep(n / 10).push((48 + n % 10) as u8)
    }
}

/// Writes a number in decimal.
pub fn u32_dec(n: u32) -> (r: Vec<u8>)
    ensures
        r@ == dec_rep(n as nat),
    decreases n,
{
    if n < 10 {
        let mut v: Vec<u8> = Vec::new();
        v.push(48 + (n as u8));
        assert(v@ =~= seq![(48 + n) as u8]);
        v
    } else {
        let mut v = u32_dec(n / 10);
        v.push(48 + ((n % 10) as u8));
        v
    }
}

/// Body of the prompt for a recognized transfer:
/// `<amount> from <sender> to <receiver>`.
pub open spec fn transfer_body(from: Seq<u8>, to: Seq<u8>, amount: Seq<u8>) -> Seq<u8> {
    amount + " from ".spec_bytes() + from + " to ".spec_bytes() + to
}

/// Body of the prompt for a recognized cross-chain transfer.
pub open spec fn xchain_body(from: Seq<u8>, to: Seq<u8>, amount: Seq<u8>, chain: Seq<u8>) -> Seq<
    u8,
> {
    "Cross-chain ".spec_bytes() + amount + " from ".spec_bytes() + from + " to ".spec_bytes() + to
        + " to chain ".spec_bytes() + chain
}

/// The `, arg 1: …, arg 2: …` listing of an unknown capability's
/// arguments, from index `i` on.
pub open spec fn args_listing(ss: Seq<Seq<u8>>, i: int) -> Seq<u8>
    decreases ss.len() - i,
{
    if i < 0 || i >= ss.len() {
        Seq::empty()
    } else {
        ", arg ".spec_bytes() + dec_rep((i + 1) as nat) + ": ".spec_bytes() + ss[i] + args_listing(
            ss,
            i + 1,
        )
    }
}

/// Body of the prompt for an unknown but displayable capability.
pub open spec fn unknown_body(name: Seq<u8>, ss: Seq<Seq<u8>>) -> Seq<u8> {
    "name: ".spec_bytes() + name + if ss.len() == 0 {
        ", no args".spec_bytes()
    } else {
        args_listing(ss, 0)
    }
}

/// Body of the prompt when the arguments overflowed the buffer.
pub open spec fn undisplayable_body(name: Seq<u8>) -> Seq<u8> {
    "name: ".spec_bytes() + name + ", args cannot be displayed".spec_bytes()
}

/// Title carrying a running ordinal, such as `Transfer 2`.
pub open spec fn ordinal_title(prefix: Seq<u8>, n: nat) -> Seq<u8> {
    prefix + dec_rep(n)
}

/// What one classified capability amounts to: its tally contribution, and
/// whether it safely scopes the transaction.
pub open spec fn spec_classify(name: Seq<u8>, args: Option<ArgsOut>, tally: CapCountData) -> (
    CapCountData,
    bool,
) {
    match args {
        Some(a) => {
            if a.count == 0 && name == "coin.GAS".spec_bytes() {
                (CapCountData::CapCount { total_caps: 0, total_transfers: 0, total_unknown: 0 }, true)
            } else if a.count == 1 && name == "coin.ROTATE".spec_bytes() {
                (CapCountData::CapCount { total_caps: 0, total_transfers: 0, total_unknown: 0 }, true)
            } else if a.count == 3 && name == "coin.TRANSFER".spec_bytes() {
                (CapCountData::IsTransfer, true)
            } else if a.count == 4 && name == "coin.TRANSFER_XCHAIN".spec_bytes() {
                (CapCountData::IsTransfer, true)
            } else {
                (CapCountData::IsUnknownCap, false)
            }
        }
        None => (CapCountData::IsUnknownCap, false),
    }
}

/// The exact prompt shown for one classified capability, as a
/// title/body pair, given the tally of capabilities already seen.
pub open spec fn spec_cap_prompt(name: Seq<u8>, args: Option<ArgsOut>, tally: CapCountData) -> (
    Seq<u8>,
    Seq<u8>,
) {
    let transfers = (tally->CapCount_total_transfers + 1) as nat;
    let unknown = (tally->CapCount_total_unknown + 1) as nat;
    match args {
        Some(a) => {
            if a.count == 0 && name == "coin.GAS".spec_bytes() {
                ("Paying Gas".spec_bytes(), " ".spec_bytes())
            } else if a.count == 1 && name == "coin.ROTATE".spec_bytes() {
                ("Rotate for account".spec_bytes(), a.rendered@[0])
            } else if a.count == 3 && name == "coin.TRANSFER".spec_bytes() {
                (
                    ordinal_title("Transfer ".spec_bytes(), transfers),
                    transfer_body(a.rendered@[0], a.rendered@[1], a.rendered@[2]),
                )
            } else if a.count == 4 && name == "coin.TRANSFER_XCHAIN".spec_bytes() {
                (
                    ordinal_title("Transfer ".spec_bytes(), transfers),
                    xchain_body(a.rendered@[0], a.rendered@[1], a.rendered@[2], a.rendered@[3]),
                )
            } else {
                (
                    ordinal_title("Unknown Capability ".spec_bytes(), unknown),
                    unknown_body(name, a.rendered@),
                )
            }
        }
        None => (
            ordinal_title("Unknown Capability ".spec_bytes(), unknown),
            undisplayable_body(name),
        ),
    }
}

/// Classifies one capability and assembles its prompt.  Returns the
/// tally contribution, the safely-scoped flag, and the prompt's title
/// and body.
pub fn classify_capability(name: &Vec<u8>, args: &Option<ArgsOut>, tally: &CapCountData) -> (r: (
    CapCountData,
    bool,
    Vec<u8>,
    Vec<u8>,
))
    requires
        tally is CapCount,
        match *args {
            Some(a) => args_finished(a),
            None => true,
        },
    ensures
        (r.0, r.1) == spec_classify(name@, *args, *tally),
        (r.2@, r.3@) == spec_cap_prompt(name@, *args, *tally),
{
    let transfers_now: u32 = match tally {
        CapCountData::CapCount { total_transfers, .. } => *total_transfers as u32,
        _ => 0,
    };
    let unknown_now: u32 = match tally {
        CapCountData::CapCount { total_unknown, .. } => *total_unknown as u32,
        _ => 0,
    };
    match args {
        Some(a) => {
            if a.count == 0 && crate::base::bytes_eq(name, &"coin.GAS".as_bytes_vec()) {
                let zero = CapCountData::CapCount {
                    total_caps: 0,
                    total_transfers: 0,
                    total_unknown: 0,
                };
                (zero, true, "Paying Gas".as_bytes_vec(), " ".as_bytes_vec())
            } else if a.count == 1 && crate::base::bytes_eq(name, &"coin.ROTATE".as_bytes_vec()) {
                let zero = CapCountData::CapCount {
                    total_caps: 0,
                    total_transfers: 0,
                    total_unknown: 0,
                };
                (zero, true, "Rotate for account".as_bytes_vec(), args_nth(a, 0))
            } else if a.count == 3 && crate::base::bytes_eq(name, &"coin.TRANSFER".as_bytes_vec()) {
                let mut title = "Transfer ".as_bytes_vec();
                let num = u32_dec(transfers_now + 1);
                extend_bytes(&mut title, &num);
                let mut body = args_nth(a, 2);
                extend_bytes(&mut body, &" from ".as_bytes_vec());
                let a0 = args_nth(a, 0);
                extend_bytes(&mut body, &a0);
                extend_bytes(&mut body, &" to ".as_bytes_vec());
                let a1 = args_nth(a, 1);
                extend_bytes(&mut body, &a1);
                (CapCountData::IsTransfer, true, title, body)
            } else if a.count == 4 && crate::base::bytes_eq(
                name,
                &"coin.TRANSFER_XCHAIN".as_bytes_vec(),
            ) {
                let mut title = "Transfer ".as_bytes_vec();
                let num = u32_dec(transfers_now + 1);
                extend_bytes(&mut title, &num);
                let mut body = "Cross-chain ".as_bytes_vec();
                let a2 = args_nth(a, 2);
                extend_bytes(&mut body, &a2);
                extend_bytes(&mut body, &" from ".as_bytes_vec());
                let a0 = args_nth(a, 0);
                extend_bytes(&mut body, &a0);
                extend_bytes(&mut body, &" to ".as_bytes_vec());
                let a1 = args_nth(a, 1);
                extend_bytes(&mut body, &a1);
                extend_bytes(&mut body, &" to chain ".as_bytes_vec());
                let a3 = args_nth(a, 3);
                extend_bytes(&mut body, &a3);
                (CapCountData::IsTransfer, true, title, body)
            } else {
                let mut title = "Unknown Capability ".as_bytes_vec();
                let num = u32_dec(unknown_now + 1);
                extend_bytes(&mut title, &num);
                let mut body = "name: ".as_bytes_vec();
                extend_bytes(&mut body, name);
                if a.count == 0 {
                    extend_bytes(&mut body, &", no args".as_bytes_vec());
                } else {
                    let ghost base = body@;
                    let mut i: usize = 0;
                    while i < a.count
                        invariant
                            0 <= i <= a.count,
                            args_finished(*a),
                            body@ + args_listing(a.rendered@, i as int) == base + args_listing(
                                a.rendered@,
                                0,
                            ),
                        decreases a.count - i,
                    {
                        let ghost body0 = body@;
                        proof {
                            lemma_args_listing_split(a.rendered@, i as int);
                        }
                        extend_bytes(&mut body, &", arg ".as_bytes_vec());
                        let num = u32_dec((i as u32) + 1);
                        extend_bytes(&mut body, &num);
                        extend_bytes(&mut body, &": ".as_bytes_vec());
                        let ai = args_nth(a, i);
                        extend_bytes(&mut body, &ai);
                        i = i + 1;
                        proof {
                            let ss = a.rendered@;
                            assert(body@ + args_listing(ss, i as int) =~= body0 + args_listing(
                                ss,
                                i - 1,
                            ));
                        }
                    }
                    proof {
                        assert(args_listing(a.rendered@, a.count as int) =~= Seq::<u8>::empty());
                        assert(body@ + args_listing(a.rendered@, a.count as int) =~= body@);
                        assert(body@ =~= base + args_listing(a.rendered@, 0));
                    }
                }
                (CapCountData::IsUnknownCap, false, title, body)
            }
        }
        None => {
            let mut title = "Unknown Capability ".as_bytes_vec();
            let num = u32_dec(unknown_now + 1);
            extend_bytes(&mut title, &num);
            let mut body = "name: ".as_bytes_vec();
            extend_bytes(&mut body, name);
            extend_bytes(&mut body, &", args cannot be displayed".as_bytes_vec());
            (CapCountData::IsUnknownCap, false, title, body)
        }
    }
}

/// One step of the argument listing is a prefix relation: the listing
/// from `i` is the `i`-th entry's text followed by the listing from
/// `i + 1`.
proof fn lemma_args_listing_split(ss: Seq<Seq<u8>>, i: int)
    requires
        0 <= i < ss.len(),
    ensures
        args_listing(ss, i) == ", arg ".spec_bytes() + dec_rep((i + 1) as nat) + ": ".spec_bytes()
            + ss[i] + args_listing(ss, i + 1),
        args_listing(ss, i + 1).len() <= args_listing(ss, i).len(),
        args_listing(ss, i).len() <= args_listing(ss, 0).len(),
{
    lemma_args_listing_len(ss, 0, i);
}

/// The listing from a later index is never longer.
proof fn lemma_args_listing_len(ss: Seq<Seq<u8>>, i: int, j: int)
    requires
        0 <= i <= j,
    ensures
        args_listing(ss, j).len() <= args_listing(ss, i).len(),
    decreases j - i,
{
    if i < j {
        lemma_args_listing_len(ss, i + 1, j);
    }
}

} // verus!
