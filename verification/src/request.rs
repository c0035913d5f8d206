//! Builds what the core hands to the node/wallet service: the three command
//! shapes it issues, and the serialized previous-output list the wallet
//! signer takes. The serialized text is pinned down character by character.
use vstd::prelude::*;
use vstd::string::*;

use crate::types::Command;
use crate::types::PrevOut;
use crate::types::SigningRequest;

verus! {

/// The sixteen hexadecimal digit characters; the first ten double as the
/// decimal digits.
pub open spec fn hex_digit(n: int) -> char {
    if n == 0 {
        '0'
    } else if n == 1 {
        '1'
    } else if n == 2 {
        '2'
    } else if n == 3 {
        '3'
    } else if n == 4 {
        '4'
    } else if n == 5 {
        '5'
    } else if n == 6 {
        '6'
    } else if n == 7 {
        '7'
    } else if n == 8 {
        '8'
    } else if n == 9 {
        '9'
    } else if n == 10 {
        'a'
    } else if n == 11 {
        'b'
    } else if n == 12 {
        'c'
    } else if n == 13 {
        'd'
    } else if n == 14 {
        'e'
    } else {
        'f'
    }
}

/// How one character stands inside a JSON string literal: quote and backslash
/// escaped, control characters written as a universal escape, every other
/// character unchanged.
pub open spec fn esc_char(c: char) -> Seq<char> {
    if c == '"' {
        seq!['\\', '"']
    } else if c == '\\' {
        seq!['\\', '\\']
    } else if (c as int) < 32 {
        seq!['\\', 'u', '0', '0', hex_digit(c as int / 16), hex_digit(c as int % 16)]
    } else {
        seq![c]
    }
}

/// A whole text escaped for a JSON string literal.
pub open spec fn esc_str(s: Seq<char>) -> Seq<char>
    decreases s.len(),
{
    if s.len() == 0 {
        Seq::empty()
    } else {
        esc_str(s.drop_last()) + esc_char(s.last())
    }
}

/// The decimal digits of a non-negative number, most significant first.
pub open spec fn dec_str(n: int) -> Seq<char>
    recommends
        n >= 0,
    decreases n,
{
    if n < 10 {
        seq![hex_digit(n)]
    } else {
        dec_str(n / 10) + seq![hex_digit(n % 10)]
    }
}

/// The serialized form of one previous output, exactly as the wallet command
/// expects it.
pub open spec fn spec_prevout_json(p: PrevOut) -> Seq<char> {
    "{\"txid\":\""@ + esc_str(p.txid@) + "\",\"vout\":"@ + dec_str(p.vout as int) + ",\"amount\":"@
        + p.amount@ + ",\"scriptPubKey\":\""@ + esc_str(p.script_pubkey@) + "\"}"@
}

/// The comma-separated serialized previous outputs, in list order.
pub open spec fn spec_prevouts_body(ps: Seq<PrevOut>) -> Seq<char>
    decreases ps.len(),
{
    if ps.len() == 0 {
        Seq::empty()
    } else if ps.len() == 1 {
        spec_prevout_json(ps[0])
    } else {
        spec_prevouts_body(ps.drop_last()) + ","@ + spec_prevout_json(ps.last())
    }
}

/// The serialized previous-output list handed to the wallet signer.
pub open spec fn spec_prevouts_json(ps: Seq<PrevOut>) -> Seq<char> {
    "["@ + spec_prevouts_body(ps) + "]"@
}

/// Relies on `String::push`: appends exactly the one given character.
#[verifier::external_body]
fn push_char(out: &mut String, c: char)
    ensures
        final(out)@ == old(out)@.push(c),
{
    out.push(c);
}

/// One hexadecimal digit character.
fn hex_digit_char(d: u8) -> (c: char)
    requires
        d < 16,
    ensures
        c == hex_digit(d as int),
{
    match d {
        0 => '0',
        1 => '1',
        2 => '2',
        3 => '3',
        4 => '4',
        5 => '5',
        6 => '6',
        7 => '7',
        8 => '8',
        9 => '9',
        10 => 'a',
        11 => 'b',
        12 => 'c',
        13 => 'd',
        14 => 'e',
        _ => 'f',
    }
}

/// Appends one character in its escaped form.
fn push_esc_char(out: &mut String, c: char)
    ensures
        final(out)@ == old(out)@ + esc_char(c),
{
    if c == '"' {
        push_char(out, '\\');
        push_char(out, '"');
        assert(out@ =~= old(out)@ + esc_char(c));
    } else if c == '\\' {
        push_char(out, '\\');
        push_char(out, '\\');
        assert(out@ =~= old(out)@ + esc_char(c));
    } else {
        let d = c as u32;
        if d < 32 {
            push_char(out, '\\');
            push_char(out, 'u');
            push_char(out, '0');
            push_char(out, '0');
            push_char(out, hex_digit_char((d / 16) as u8));
            push_char(out, hex_digit_char((d % 16) as u8));
            assert(out@ =~= old(out)@ + esc_char(c));
        } else {
            push_char(out, c);
            assert(out@ =~= old(out)@ + esc_char(c));
        }
    }
}

/// Appends a whole text in its escaped form.
fn push_escaped(out: &mut String, s: &str)
    ensures
        final(out)@ == old(out)@ + esc_str(s@),
{
    let n = s.unicode_len();
    let mut i: usize = 0;
    proof {
        assert(s@.subrange(0, 0) =~= Seq::<char>::empty());
        assert(out@ =~= out@ + esc_str(s@.subrange(0, 0)));
    }
    while i < n
        invariant
            n == s@.len(),
            i <= n,
            out@ == old(out)@ + esc_str(s@.subrange(0, i as int)),
        decreases n - i,
    {
        let c = s.get_char(i);
        push_esc_char(out, c);
        proof {
            let t = s@.subrange(0, i as int + 1);
            assert(t.drop_last() =~= s@.subrange(0, i as int));
            assert(t.last() == s@[i as int]);
            assert(out@ =~= old(out)@ + esc_str(t));
        }
        i = i + 1;
    }
    proof {
        assert(s@.subrange(0, s@.len() as int) =~= s@);
    }
}

/// Appends the decimal digits of a number.
fn push_dec(out: &mut String, n: u32)
    ensures
        final(out)@ == old(out)@ + dec_str(n as int),
    decreases n,
{
    if n >= 10 {
        push_dec(out, n / 10);
    }
    push_char(out, hex_digit_char((n % 10) as u8));
    assert(out@ =~= old(out)@ + dec_str(n as int));
}

/// Appends the serialized form of one previous output.
fn push_prevout(out: &mut String, p: &PrevOut)
    ensures
        final(out)@ == old(out)@ + spec_prevout_json(*p),
{
    out.append("{\"txid\":\"");
    push_escaped(out, p.txid.as_str());
    out.append("\",\"vout\":");
    push_dec(out, p.vout);
    out.append(",\"amount\":");
    out.append(p.amount.as_str());
    out.append(",\"scriptPubKey\":\"");
    push_escaped(out, p.script_pubkey.as_str());
    out.append("\"}");
    assert(out@ =~= old(out)@ + spec_prevout_json(*p));
}

/// Serializes a previous-output list to the exact text the wallet command
/// takes: a JSON array of objects carrying txid, vout, amount and
/// scriptPubKey, in list order.
pub fn prevouts_to_json(ps: &Vec<PrevOut>) -> (r: String)
    ensures
        r@ == spec_prevouts_json(ps@),
{
    let mut out = String::from_str("[");
    let n = ps.len();
    let mut i: usize = 0;
    proof {
        assert(ps@.subrange(0, 0) =~= Seq::<PrevOut>::empty());
        assert(out@ =~= "["@ + spec_prevouts_body(ps@.subrange(0, 0)));
    }
    while i < n
        invariant
            n == ps@.len(),
            i <= n,
            out@ == "["@ + spec_prevouts_body(ps@.subrange(0, i as int)),
        decreases n - i,
    {
        if i > 0 {
            out.append(",");
        }
        push_prevout(&mut out, &ps[i]);
        proof {
            let t = ps@.subrange(0, i as int + 1);
            assert(t.drop_last() =~= ps@.subrange(0, i as int));
            assert(t.last() == ps@[i as int]);
            assert(out@ =~= "["@ + spec_prevouts_body(t));
        }
        i = i + 1;
    }
    out.append("]");
    proof {
        assert(ps@.subrange(0, ps@.len() as int) =~= ps@);
        assert(out@ =~= spec_prevouts_json(ps@));
    }
    out
}

/// What the decode command for a raw transaction looks like.
pub open spec fn is_decode_cmd(c: Command, raw: Seq<char>) -> bool {
    &&& c.name@ == "decoderawtransaction"@
    &&& c.args@.len() == 1
    &&& c.args@[0]@ == raw
    &&& !c.wallet
}

/// What the fetch command for a referenced transaction looks like.
pub open spec fn is_fetch_cmd(c: Command, txid: Seq<char>) -> bool {
    &&& c.name@ == "getrawtransaction"@
    &&& c.args@.len() == 2
    &&& c.args@[0]@ == txid
    &&& c.args@[1]@ == "true"@
    &&& !c.wallet
}

/// What the wallet signing command for a request looks like.
pub open spec fn is_sign_cmd(c: Command, raw: Seq<char>, ps: Seq<PrevOut>) -> bool {
    &&& c.name@ == "signrawtransactionwithwallet"@
    &&& c.args@.len() == 2
    &&& c.args@[0]@ == raw
    &&& c.args@[1]@ == spec_prevouts_json(ps)
    &&& c.wallet
}

/// Builds the decode command for one raw transaction.
pub fn decode_command(raw_tx: &String) -> (c: Command)
    ensures
        is_decode_cmd(c, raw_tx@),
{
    let mut args: Vec<String> = Vec::new();
    args.push(raw_tx.clone());
    Command { name: String::from_str("decoderawtransaction"), args, wallet: false }
}

/// Builds the fetch command for one referenced transaction.
pub fn fetch_command(txid: &String) -> (c: Command)
    ensures
        is_fetch_cmd(c, txid@),
{
    let mut args: Vec<String> = Vec::new();
    args.push(txid.clone());
    args.push(String::from_str("true"));
    Command { name: String::from_str("getrawtransaction"), args, wallet: false }
}

/// Builds the signing request, or reports that nothing needs signing: a
/// transaction whose resolved previous-output list came out empty takes the
/// passthrough path, and the signer is never invoked for it.
pub fn build_signing_request(raw_tx: &String, prevouts: Vec<PrevOut>) -> (r: Option<
    SigningRequest,
>)
    ensures
        prevouts@.len() == 0 ==> r is None,
        prevouts@.len() > 0 ==> (r matches Some(q) && q.raw_tx@ == raw_tx@ && q.prevouts@
            == prevouts@),
{
    if prevouts.len() == 0 {
        None
    } else {
        Some(SigningRequest { raw_tx: raw_tx.clone(), prevouts })
    }
}

/// Builds the wallet signing command for a request.
pub fn sign_command(req: &SigningRequest) -> (c: Command)
    ensures
        is_sign_cmd(c, req.raw_tx@, req.prevouts@),
{
    let mut args: Vec<String> = Vec::new();
    args.push(req.raw_tx.clone());
    args.push(prevouts_to_json(&req.prevouts));
    Command { name: String::from_str("signrawtransactionwithwallet"), args, wallet: true }
}

} // verus!
