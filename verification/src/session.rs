//! The batch orchestrator: a sequential state machine that drives every
//! transaction of the batch, in input order, through decoding, prevout
//! resolution and signing. The machine performs no outside work itself: each
//! step hands the driver the one command to run, and the driver hands back
//! the service's reply. A gateway failure on any call aborts the whole batch
//! with no output at all; the node reporting a queried transaction as
//! unknown, while a fetch is awaited, is absence, not failure — the input is
//! skipped and the batch goes on. A finished batch yields exactly one
//! outcome per transaction, in input order.
use vstd::prelude::*;

use crate::json;
use crate::json::json_of;
use crate::parse;
use crate::request;
use crate::types::Command;
use crate::types::GatewayReply;
use crate::types::PrevOut;
use crate::types::RunError;
use crate::types::SignOutcome;
use crate::types::SigningRequest;
use crate::types::TxInput;

verus! {

/// The smallest index at or after `from` of an input that does not yet
/// carry a witness, if any.
pub open spec fn first_unwitnessed(inputs: Seq<TxInput>, from: int) -> Option<int>
    decreases inputs.len() - from,
{
    if from < 0 || from >= inputs.len() {
        None
    } else if !inputs[from].has_witness {
        Some(from)
    } else {
        first_unwitnessed(inputs, from + 1)
    }
}

/// Law: resolution is planned only for inputs without a witness. The planned
/// index always names an unwitnessed input, and every input between the
/// search start and the planned index carries its witness already.
pub proof fn lemma_first_unwitnessed_sound(inputs: Seq<TxInput>, from: int)
    ensures
        first_unwitnessed(inputs, from) matches Some(j) ==> from <= j < inputs.len()
            && !inputs[j].has_witness && (forall|k: int|
            from <= k < j ==> inputs[k].has_witness),
    decreases inputs.len() - from,
{
    if from < 0 || from >= inputs.len() {
    } else if !inputs[from].has_witness {
    } else {
        lemma_first_unwitnessed_sound(inputs, from + 1);
    }
}

/// Law (passthrough): a transaction all of whose inputs already carry a
/// witness plans no resolver query at all, so it keeps its original hex.
pub proof fn lemma_all_witnessed_no_query(inputs: Seq<TxInput>, from: int)
    requires
        forall|k: int| 0 <= k < inputs.len() ==> inputs[k].has_witness,
    ensures
        first_unwitnessed(inputs, from) is None,
    decreases inputs.len() - from,
{
    if from < 0 || from >= inputs.len() {
    } else {
        lemma_all_witnessed_no_query(inputs, from + 1);
    }
}

/// Law (passthrough, the other direction): when no resolution is planned,
/// every input from the search start on already carries its witness — the
/// passthrough path is taken only for fully witnessed remainders.
pub proof fn lemma_no_query_all_witnessed(inputs: Seq<TxInput>, from: int)
    requires
        0 <= from,
    ensures
        first_unwitnessed(inputs, from) is None ==> forall|k: int|
            from <= k < inputs.len() ==> inputs[k].has_witness,
    decreases inputs.len() - from,
{
    if from < 0 || from >= inputs.len() {
    } else if !inputs[from].has_witness {
    } else {
        lemma_no_query_all_witnessed(inputs, from + 1);
    }
}

/// Law: witnessed inputs are never queried. Whatever command a sound
/// machine is entitled to issue while it waits on a fetch, that command
/// fetches the referenced transaction of an input without a witness.
pub proof fn lemma_no_fetch_for_witnessed(b: Batch, c: Command)
    requires
        b.wf(),
        b.expects(c),
    ensures
        b.phase matches Phase::AwaitFetch { inputs, next, .. } ==> (!inputs@[
            next as int].has_witness && request::is_fetch_cmd(c, inputs@[next as int].txid@)),
{
}

/// Finds the first input at or after `from` that still needs resolution.
pub fn find_unwitnessed(inputs: &Vec<TxInput>, from: usize) -> (r: Option<usize>)
    ensures
        r matches Some(j) ==> first_unwitnessed(inputs@, from as int) == Some(j as int),
        r is None ==> first_unwitnessed(inputs@, from as int) is None,
{
    let n = inputs.len();
    let mut i: usize = from;
    while i < n
        invariant
            n == inputs@.len(),
            from <= i,
            first_unwitnessed(inputs@, from as int) == first_unwitnessed(inputs@, i as int),
        decreases n - i,
    {
        if !inputs[i].has_witness {
            return Some(i);
        }
        i = i + 1;
    }
    None
}

/// Where the machine stands for the transaction now being processed.
pub enum Phase {
    /// The decode reply for the current transaction is awaited.
    AwaitDecode,
    /// The fetch reply for input `next` is awaited; the inputs before it are
    /// already handled, their resolved outputs collected in order.
    AwaitFetch { inputs: Vec<TxInput>, next: usize, prevouts: Vec<PrevOut> },
    /// The wallet's reply to the signing request is awaited.
    AwaitSign { request: SigningRequest },
    /// Nothing is awaited: the batch is finished or was aborted.
    Idle,
}

/// The one thing the driver must do next.
pub enum Step {
    /// Run this command against the node/wallet service and hand the reply
    /// back through `on_reply`.
    Call(Command),
    /// Every transaction is processed; `into_results` yields the output.
    Done,
    /// A fatal failure: the batch stops here and no output exists.
    Abort(RunError),
}

/// The batch orchestrator's state.
pub struct Batch {
    /// The raw transactions, in input order; never changed.
    pub txs: Vec<String>,
    /// One outcome per finished transaction, in the same order.
    pub results: Vec<String>,
    /// The signer's error records from incomplete signings, verbatim, for
    /// the driver to surface; they never change the control flow.
    pub warnings: Vec<String>,
    /// What the machine awaits.
    pub phase: Phase,
}

/// How the warning list grows on an incomplete signing: the old warnings
/// kept, and the reply's error-record texts appended in reply order.
pub open spec fn warnings_extended(w0: Seq<String>, w1: Seq<String>, texts: Seq<Seq<char>>) -> bool {
    &&& w1.len() == w0.len() + texts.len()
    &&& w1.subrange(0, w0.len() as int) == w0
    &&& (forall|k: int| 0 <= k < texts.len() ==> #[trigger] w1[w0.len() + k]@ == texts[k])
}

/// What skipping the awaited input looks like: the machine moves on without
/// adding a prevout — still carrying exactly what it had, or, when nothing
/// at all was resolved, recording the passthrough of the original hex.
pub open spec fn skipped_current(post: Batch, pre: Batch, p0: Seq<PrevOut>) -> bool {
    ||| (post.is_carrying() && post.carried_prevouts() == p0 && post.results@ == pre.results@)
    ||| (p0.len() == 0 && post.results@ == pre.results@.push(pre.txs@[pre.cur()]))
}

impl Batch {
    /// The index of the transaction being processed.
    pub open spec fn cur(self) -> int {
        self.results@.len() as int
    }

    /// Whether the machine still awaits a reply.
    pub open spec fn live(self) -> bool {
        !(self.phase is Idle)
    }

    /// Whether every transaction was processed, so the output is owed.
    pub open spec fn is_complete(self) -> bool {
        self.phase is Idle && self.results@.len() == self.txs@.len()
    }

    /// Whether the machine is mid-way through one transaction's resolution
    /// or signing, holding resolved prevouts.
    pub open spec fn is_carrying(self) -> bool {
        self.phase is AwaitFetch || self.phase is AwaitSign
    }

    /// The previous outputs resolved so far for the current transaction.
    pub open spec fn carried_prevouts(self) -> Seq<PrevOut>
        recommends
            self.is_carrying(),
    {
        match self.phase {
            Phase::AwaitFetch { prevouts, .. } => prevouts@,
            Phase::AwaitSign { request } => request.prevouts@,
            _ => Seq::empty(),
        }
    }

    /// The machine's soundness: at most one outcome per transaction, an
    /// outcome owed for the current one while the machine runs, and what
    /// each waiting phase claims of itself — a fetch always waits on an
    /// unwitnessed input, a signing always carries a non-empty request for
    /// the current transaction.
    pub open spec fn wf(self) -> bool {
        &&& self.results@.len() <= self.txs@.len()
        &&& (self.live() ==> self.results@.len() < self.txs@.len())
        &&& match self.phase {
            Phase::AwaitFetch { inputs, next, .. } => (next as int) < inputs@.len()
                && !inputs@[next as int].has_witness,
            Phase::AwaitSign { request } => request.prevouts@.len() > 0 && request.raw_tx@
                == self.txs@[self.cur()]@,
            _ => true,
        }
    }

    /// The command each phase is entitled to issue. The resolver is never
    /// pointed at an input that already carries a witness: a fetch command
    /// always names the unwitnessed input the machine waits on.
    pub open spec fn expects(self, c: Command) -> bool {
        match self.phase {
            Phase::AwaitDecode => request::is_decode_cmd(c, self.txs@[self.cur()]@),
            Phase::AwaitFetch { inputs, next, .. } => request::is_fetch_cmd(
                c,
                inputs@[next as int].txid@,
            ),
            Phase::AwaitSign { request } => request::is_sign_cmd(
                c,
                request.raw_tx@,
                request.prevouts@,
            ),
            Phase::Idle => false,
        }
    }

    /// Starts a batch: the machine and the first step. An empty batch is
    /// complete at once; otherwise the first transaction's decode command is
    /// issued.
    pub fn new(txs: Vec<String>) -> (r: (Batch, Step))
        ensures
            r.0.wf(),
            r.0.txs@ == txs@,
            r.0.results@.len() == 0,
            txs@.len() == 0 ==> (r.1 is Done && r.0.is_complete()),
            txs@.len() > 0 ==> (r.1 matches Step::Call(c) && r.0.expects(c) && r.0.live()),
    {
        if txs.len() == 0 {
            (
                Batch { txs, results: Vec::new(), warnings: Vec::new(), phase: Phase::Idle },
                Step::Done,
            )
        } else {
            let c = request::decode_command(&txs[0]);
            (
                Batch { txs, results: Vec::new(), warnings: Vec::new(), phase: Phase::AwaitDecode },
                Step::Call(c),
            )
        }
    }

    /// Records the outcome for the current transaction and moves on: the
    /// next transaction's decode command, or completion after the last one.
    fn finish_item(&mut self, hex: String) -> (step: Step)
        requires
            old(self).wf(),
            old(self).results@.len() < old(self).txs@.len(),
        ensures
            final(self).wf(),
            final(self).txs@ == old(self).txs@,
            final(self).warnings@ == old(self).warnings@,
            final(self).results@ == old(self).results@.push(hex),
            final(self).phase is AwaitDecode || final(self).phase is Idle,
            step matches Step::Call(c) ==> (final(self).live() && final(self).expects(c)),
            step is Done <==> final(self).is_complete(),
            !(step is Abort),
    {
        self.results.push(hex);
        if self.results.len() == self.txs.len() {
            self.phase = Phase::Idle;
            Step::Done
        } else {
            let c = request::decode_command(&self.txs[self.results.len()]);
            self.phase = Phase::AwaitDecode;
            Step::Call(c)
        }
    }

    /// Moves past the awaited input once it is handled: the next unwitnessed
    /// input's fetch, or — when none remains — the sign command for what was
    /// resolved, or the passthrough of the original hex when nothing was.
    fn continue_after_input(
        &mut self,
        inputs: Vec<TxInput>,
        next: usize,
        prevouts: Vec<PrevOut>,
    ) -> (step: Step)
        requires
            old(self).wf(),
            old(self).phase is Idle,
            old(self).results@.len() < old(self).txs@.len(),
            next < inputs@.len(),
        ensures
            final(self).wf(),
            final(self).txs@ == old(self).txs@,
            final(self).warnings@ == old(self).warnings@,
            !(step is Abort),
            step matches Step::Call(c) ==> (final(self).live() && final(self).expects(c)),
            step is Done <==> final(self).is_complete(),
            (final(self).is_carrying() && final(self).carried_prevouts() == prevouts@
                && final(self).results@ == old(self).results@) || (prevouts@.len() == 0
                && final(self).results@ == old(self).results@.push(
                old(self).txs@[old(self).cur()],
            )),
            final(self).phase matches Phase::AwaitFetch { inputs: in1, next: n1, .. } ==> (in1@
                == inputs@ && n1 > next),
            final(self).results@ == old(self).results@
                || final(self).results@ == old(self).results@.push(final(self).results@.last()),
    {
        let n = inputs.len();
        proof {
            assert(next < n);
        }
        match find_unwitnessed(&inputs, next + 1) {
            Some(j) => {
                proof {
                    lemma_first_unwitnessed_sound(inputs@, next as int + 1);
                }
                let c = request::fetch_command(&inputs[j].txid);
                self.phase = Phase::AwaitFetch { inputs, next: j, prevouts };
                Step::Call(c)
            },
            None => {
                let raw = self.txs[self.results.len()].clone();
                match request::build_signing_request(&raw, prevouts) {
                    None => self.finish_item(raw),
                    Some(req) => {
                        let c = request::sign_command(&req);
                        self.phase = Phase::AwaitSign { request: req };
                        Step::Call(c)
                    },
                }
            },
        }
    }

    /// Feeds the reply for the command last issued and returns what to do
    /// next. A gateway failure on any call aborts the whole batch at once,
    /// carrying the original diagnostic text, and leaves the recorded
    /// outcomes untouched — no output is ever produced from an aborted
    /// batch. The node reporting the queried item as unknown counts as
    /// absence while a fetch is awaited — the input is skipped — and as a
    /// failed call anywhere else. A reply that was read aborts only when it
    /// is malformed, with a parse error; a reply of the awaited shape always
    /// moves the batch on, as the shape-conditional clauses below state.
    pub fn on_reply(&mut self, reply: GatewayReply) -> (step: Step)
        requires
            old(self).wf(),
            old(self).live(),
        ensures
            final(self).wf(),
            final(self).txs@ == old(self).txs@,
            reply matches GatewayReply::Failure(d) ==> (step matches Step::Abort(e) && (
            e matches RunError::Gateway(m) && m@ == d@)),
            step is Abort ==> (!final(self).live() && !final(self).is_complete()
                && final(self).results@ == old(self).results@),
            step matches Step::Call(c) ==> (final(self).live() && final(self).expects(c)),
            step is Done <==> final(self).is_complete(),
            final(self).results@ == old(self).results@
                || final(self).results@ == old(self).results@.push(final(self).results@.last()),
            (!(old(self).phase is AwaitSign)
                && final(self).results@.len() > old(self).results@.len())
                ==> final(self).results@ == old(self).results@.push(
                old(self).txs@[old(self).cur()],
            ),
            old(self).phase matches Phase::AwaitFetch { inputs: in0, next: n0, .. }
                ==> (final(self).phase matches Phase::AwaitFetch { inputs: in1, next: n1, .. }
                ==> (in1@ == in0@ && n1 > n0)),
            old(self).phase is AwaitDecode ==> !(final(self).phase is AwaitSign),
            reply matches GatewayReply::Output(t) ==> (step matches Step::Abort(e) ==> e is Parse),
            reply matches GatewayReply::Output(t) ==> (!json::parses_as_json(t@) ==> step
                is Abort),
            !(old(self).phase is AwaitSign) ==> final(self).warnings@ == old(self).warnings@,
            old(self).phase is AwaitDecode ==> (reply matches GatewayReply::Output(t)
                ==> (!parse::decode_shape_ok(json_of(t@)) ==> step is Abort)),
            old(self).phase is AwaitFetch ==> (reply matches GatewayReply::Output(t)
                ==> (!parse::fetch_shape_ok(json_of(t@)) ==> step is Abort)),
            old(self).phase is AwaitSign ==> (reply matches GatewayReply::Output(t)
                ==> (!parse::sign_shape_ok(json_of(t@)) ==> step is Abort)),
            old(self).phase is AwaitDecode ==> (reply matches GatewayReply::Output(t) ==> ((
            json::parses_as_json(t@) && parse::decode_shape_ok(json_of(t@))) ==> (!(step
                is Abort) && (parse::vin_all_witnessed(json_of(t@)) ==> final(self).results@
                == old(self).results@.push(old(self).txs@[old(self).cur()]))))),
            old(self).phase matches Phase::AwaitFetch { inputs: in0, next: n0, prevouts: p0 } ==> (
            reply matches GatewayReply::Output(t) ==> ((json::parses_as_json(t@)
                && parse::fetch_shape_ok(json_of(t@))) ==> ({
                let entries = parse::vout_entries(json_of(t@));
                &&& !(step is Abort)
                &&& (if (in0@[n0 as int].vout as int) < entries.len() {
                    &&& final(self).is_carrying()
                    &&& final(self).carried_prevouts().len() == p0@.len() + 1
                    &&& final(self).carried_prevouts().subrange(0, p0@.len() as int) == p0@
                    &&& parse::prevout_of_input_entry(
                        final(self).carried_prevouts().last(),
                        in0@[n0 as int],
                        entries[in0@[n0 as int].vout as int],
                    )
                } else {
                    skipped_current(*final(self), *old(self), p0@)
                })
            }))),
            old(self).phase matches Phase::AwaitFetch { prevouts: p0, .. } ==> (
            reply matches GatewayReply::NotFound(d) ==> (!(step is Abort) && skipped_current(
                *final(self),
                *old(self),
                p0@,
            ))),
            reply matches GatewayReply::NotFound(d) ==> (!(old(self).phase is AwaitFetch) ==> (
            step matches Step::Abort(e) && (e matches RunError::Gateway(m) && m@ == d@))),
            old(self).phase is AwaitSign ==> (reply matches GatewayReply::Output(t) ==> ((
            json::parses_as_json(t@) && parse::sign_shape_ok(json_of(t@))) ==> ({
                let j = json_of(t@);
                &&& !(step is Abort)
                &&& final(self).results@.len() == old(self).results@.len() + 1
                &&& final(self).results@.last()@ == parse::sign_hex_of(j)
                &&& (if !parse::sign_complete_of(j) && parse::sign_errors_present(j) {
                    warnings_extended(
                        old(self).warnings@,
                        final(self).warnings@,
                        parse::sign_error_texts(j),
                    )
                } else {
                    final(self).warnings@ == old(self).warnings@
                })
            }))),
    {
        let text = match reply {
            GatewayReply::Failure(d) => {
                self.phase = Phase::Idle;
                return Step::Abort(RunError::Gateway(d));
            },
            GatewayReply::NotFound(d) => {
                let mut nf = Phase::Idle;
                core::mem::swap(&mut nf, &mut self.phase);
                match nf {
                    Phase::AwaitFetch { inputs, next, prevouts } => {
                        return self.continue_after_input(inputs, next, prevouts);
                    },
                    _ => {
                        return Step::Abort(RunError::Gateway(d));
                    },
                }
            },
            GatewayReply::Output(t) => t,
        };
        let mut ph = Phase::Idle;
        core::mem::swap(&mut ph, &mut self.phase);
        match ph {
            Phase::Idle => unreached(),
            Phase::AwaitDecode => {
                match parse::parse_decode_response(text.as_str()) {
                    Err(e) => Step::Abort(e),
                    Ok(inputs) => {
                        proof {
                            if parse::vin_all_witnessed(json_of(text@)) {
                                assert forall|k: int|
                                    0 <= k < inputs@.len() implies inputs@[k].has_witness by {
                                    assert(parse::input_of_entry(
                                        inputs@[k],
                                        parse::vin_entries(json_of(text@))[k],
                                    ));
                                    assert(parse::entry_witnessed(
                                        parse::vin_entries(json_of(text@))[k],
                                    ));
                                }
                                lemma_all_witnessed_no_query(inputs@, 0);
                            }
                        }
                        match find_unwitnessed(&inputs, 0) {
                            None => {
                                let hex = self.txs[self.results.len()].clone();
                                self.finish_item(hex)
                            },
                            Some(j) => {
                                proof {
                                    lemma_first_unwitnessed_sound(inputs@, 0);
                                }
                                let c = request::fetch_command(&inputs[j].txid);
                                self.phase = Phase::AwaitFetch {
                                    inputs,
                                    next: j,
                                    prevouts: Vec::new(),
                                };
                                Step::Call(c)
                            },
                        }
                    },
                }
            },
            Phase::AwaitFetch { inputs, next, mut prevouts } => {
                match parse::parse_fetch_response(text.as_str()) {
                    Err(e) => Step::Abort(e),
                    Ok(vouts) => {
                        let inp = &inputs[next];
                        let ghost p0 = prevouts@;
                        match parse::resolve_prevout(&inp.txid, inp.vout, &vouts) {
                            Some(p) => {
                                proof {
                                    assert(parse::voutinfo_of_entry(
                                        vouts@[inp.vout as int],
                                        parse::vout_entries(json_of(text@))[inp.vout as int],
                                    ));
                                    assert(parse::prevout_of_input_entry(
                                        p,
                                        inputs@[next as int],
                                        parse::vout_entries(json_of(text@))[inp.vout as int],
                                    ));
                                }
                                prevouts.push(p);
                                proof {
                                    assert(prevouts@.subrange(0, p0.len() as int) =~= p0);
                                }
                            },
                            None => {},
                        }
                        self.continue_after_input(inputs, next, prevouts)
                    },
                }
            },
            Phase::AwaitSign { request: _ } => {
                match parse::parse_sign_response(text.as_str()) {
                    Err(e) => Step::Abort(e),
                    Ok(outcome) => {
                        let ghost j = json_of(text@);
                        let SignOutcome { hex, complete, errors } = outcome;
                        if !complete {
                            match errors {
                                Some(mut es) => {
                                    let ghost w0 = self.warnings@;
                                    let ghost es0 = es@;
                                    self.warnings.append(&mut es);
                                    proof {
                                        assert(self.warnings@.subrange(0, w0.len() as int) =~= w0);
                                        assert forall|k: int|
                                            0 <= k < parse::sign_error_texts(j).len() implies #[trigger] self.warnings@[w0.len() as int
                                            + k]@ == parse::sign_error_texts(j)[k] by {
                                            assert(es0[k]@ == parse::sign_error_texts(j)[k]);
                                        }
                                    }
                                },
                                None => {},
                            }
                        }
                        self.finish_item(hex)
                    },
                }
            },
        }
    }

    /// Whether the batch is finished, so the output is owed.
    pub fn finished(&self) -> (b: bool)
        ensures
            b == self.is_complete(),
    {
        match &self.phase {
            Phase::Idle => self.results.len() == self.txs.len(),
            _ => false,
        }
    }

    /// The output list: one entry per input transaction, in input order —
    /// the wallet-produced hex, or the original hex where nothing needed
    /// signing. It exists only once the whole batch finished: an aborted
    /// batch yields nothing (all-or-nothing).
    pub fn into_results(self) -> (r: Vec<String>)
        requires
            self.is_complete(),
        ensures
            r@ == self.results@,
            r@.len() == self.txs@.len(),
    {
        self.results
    }
}

} // verus!
