//! Reads the node's and the wallet's textual replies. A reply travels as an
//! opaque JSON value through the trusted layer in `json`, paired with its
//! ghost document; the spec functions here say exactly which documents each
//! reader accepts and what it extracts, and every other shape is a parse
//! error carrying the reader's fixed diagnostic text.
use vstd::prelude::*;

use crate::json;
use crate::json::Json;
use crate::json::json_of;
use crate::json::json_text_of;
use crate::json::parses_as_json;
use crate::types::PrevOut;
use crate::types::RunError;
use crate::types::SignOutcome;
use crate::types::TxInput;
use crate::types::VoutInfo;

verus! {

/// Whether the document is an object with the given field.
pub open spec fn has_field(j: Json, key: Seq<char>) -> bool {
    match j {
        Json::Obj(m) => m.contains_key(key),
        _ => false,
    }
}

/// The named field of an object document.
pub open spec fn field_of(j: Json, key: Seq<char>) -> Json
    recommends
        has_field(j, key),
{
    match j {
        Json::Obj(m) => m[key],
        _ => Json::Null,
    }
}

/// The decode reply's input list: the elements of its `vin` array.
pub open spec fn vin_entries(j: Json) -> Seq<Json> {
    match field_of(j, "vin"@) {
        Json::Arr(a) => a,
        _ => Seq::empty(),
    }
}

/// What one `vin` entry must hold: a string `txid`, an integer `vout` that
/// fits an unsigned 32-bit index, and — when a `txinwitness` field is there
/// at all — a null or a list.
pub open spec fn decode_entry_ok(e: Json) -> bool {
    &&& has_field(e, "txid"@)
    &&& field_of(e, "txid"@) is Str
    &&& has_field(e, "vout"@)
    &&& (field_of(e, "vout"@) matches Json::Num(n) && n.int_u64 matches Some(v) && v
        <= 0xffff_ffffu64)
    &&& (has_field(e, "txinwitness"@) ==> (field_of(e, "txinwitness"@) is Null || field_of(
        e,
        "txinwitness"@,
    ) is Arr))
}

/// The decode replies the reader accepts: an object whose `vin` is a list
/// of well-shaped entries.
pub open spec fn decode_shape_ok(j: Json) -> bool {
    &&& has_field(j, "vin"@)
    &&& field_of(j, "vin"@) is Arr
    &&& (forall|k: int|
        0 <= k < vin_entries(j).len() ==> decode_entry_ok(#[trigger] vin_entries(j)[k]))
}

/// Whether a `vin` entry already carries a witness: a present, non-null
/// `txinwitness` list.
pub open spec fn entry_witnessed(e: Json) -> bool {
    has_field(e, "txinwitness"@) && field_of(e, "txinwitness"@) is Arr
}

/// Whether every input of the decode reply already carries a witness.
pub open spec fn vin_all_witnessed(j: Json) -> bool {
    forall|k: int| 0 <= k < vin_entries(j).len() ==> entry_witnessed(#[trigger] vin_entries(j)[k])
}

/// How a returned input records its `vin` entry: the referenced coordinates
/// verbatim, and the witness marker exactly when the entry carries one.
pub open spec fn input_of_entry(t: TxInput, e: Json) -> bool {
    &&& (field_of(e, "txid"@) matches Json::Str(s) && t.txid@ == s)
    &&& (field_of(e, "vout"@) matches Json::Num(n) && n.int_u64 == Some(t.vout as u64))
    &&& t.has_witness == entry_witnessed(e)
}

/// A parse failure carrying the given diagnostic text.
fn parse_err(what: &str) -> (e: RunError)
    ensures
        e matches RunError::Parse(m) && m@ == what@,
{
    RunError::Parse(String::from_str(what))
}

/// Reads the decode reply: the list of inputs under `vin`, in reply order,
/// each with the coordinates of the output it references and whether it
/// already carries a witness. Succeeds exactly on replies of the expected
/// shape, and returns exactly what the reply holds.
pub fn parse_decode_response(s: &str) -> (r: Result<Vec<TxInput>, RunError>)
    ensures
        r is Ok <==> (parses_as_json(s@) && decode_shape_ok(json_of(s@))),
        r matches Err(e) ==> (e matches RunError::Parse(m) && m@
            == "Failed to parse decoded transaction"@),
        r matches Ok(v) ==> (v@.len() == vin_entries(json_of(s@)).len() && (forall|k: int|
            0 <= k < v@.len() ==> input_of_entry(
                #[trigger] v@[k],
                vin_entries(json_of(s@))[k],
            ))),
{
    let doc = match json::parse_value(s) {
        Ok(v) => v,
        Err(_) => {
            return Err(parse_err("Failed to parse decoded transaction"));
        },
    };
    let vin = match json::value_get(&doc, "vin") {
        Some(x) => x,
        None => {
            return Err(parse_err("Failed to parse decoded transaction"));
        },
    };
    let n = match json::arr_len(vin) {
        Some(n) => n,
        None => {
            return Err(parse_err("Failed to parse decoded transaction"));
        },
    };
    let mut inputs: Vec<TxInput> = Vec::new();
    let mut i: usize = 0;
    while i < n
        invariant
            parses_as_json(s@),
            json::value_model(*vin) == field_of(json_of(s@), "vin"@),
            has_field(json_of(s@), "vin"@),
            json::value_model(*vin) matches Json::Arr(a) && a == vin_entries(json_of(s@))
                && a.len() == n as nat,
            i <= n,
            inputs@.len() == i as nat,
            forall|k: int|
                0 <= k < i as int ==> (decode_entry_ok(#[trigger] vin_entries(json_of(s@))[k])
                    && input_of_entry(inputs@[k], vin_entries(json_of(s@))[k])),
        decreases n - i,
    {
        let ghost entries = vin_entries(json_of(s@));
        let entry = match json::arr_get(vin, i) {
            Some(e) => e,
            None => {
                return unreached();
            },
        };
        let txid_val = match json::value_get(entry, "txid") {
            Some(t) => t,
            None => {
                proof {
                    assert(!decode_entry_ok(entries[i as int]));
                }
                return Err(parse_err("Failed to parse decoded transaction"));
            },
        };
        let txid = match json::str_value(txid_val) {
            Some(t) => t,
            None => {
                proof {
                    assert(!decode_entry_ok(entries[i as int]));
                }
                return Err(parse_err("Failed to parse decoded transaction"));
            },
        };
        let vout_val = match json::value_get(entry, "vout") {
            Some(t) => t,
            None => {
                proof {
                    assert(!decode_entry_ok(entries[i as int]));
                }
                return Err(parse_err("Failed to parse decoded transaction"));
            },
        };
        let vout64 = match json::u64_value(vout_val) {
            Some(x) => x,
            None => {
                proof {
                    assert(!decode_entry_ok(entries[i as int]));
                }
                return Err(parse_err("Failed to parse decoded transaction"));
            },
        };
        if vout64 > 0xffff_ffffu64 {
            proof {
                assert(!decode_entry_ok(entries[i as int]));
            }
            return Err(parse_err("Failed to parse decoded transaction"));
        }
        let has_witness = match json::value_get(entry, "txinwitness") {
            None => false,
            Some(w) => {
                if json::is_null(w) {
                    false
                } else {
                    match json::arr_len(w) {
                        Some(_) => true,
                        None => {
                            proof {
                                assert(!decode_entry_ok(entries[i as int]));
                            }
                            return Err(parse_err("Failed to parse decoded transaction"));
                        },
                    }
                }
            },
        };
        proof {
            assert((vout64 as u32) as u64 == vout64);
        }
        inputs.push(TxInput { txid: txid.to_owned(), vout: vout64 as u32, has_witness });
        i = i + 1;
    }
    Ok(inputs)
}

/// The fetch reply's output list: the elements of its `vout` array.
pub open spec fn vout_entries(j: Json) -> Seq<Json> {
    match field_of(j, "vout"@) {
        Json::Arr(a) => a,
        _ => Seq::empty(),
    }
}

/// What one `vout` entry must hold: a numeric `value` and a string
/// `scriptPubKey.hex`.
pub open spec fn fetch_entry_ok(e: Json) -> bool {
    &&& has_field(e, "value"@)
    &&& field_of(e, "value"@) is Num
    &&& has_field(e, "scriptPubKey"@)
    &&& has_field(field_of(e, "scriptPubKey"@), "hex"@)
    &&& field_of(field_of(e, "scriptPubKey"@), "hex"@) is Str
}

/// The fetch replies the reader accepts: an object whose `vout` is a list
/// of well-shaped entries.
pub open spec fn fetch_shape_ok(j: Json) -> bool {
    &&& has_field(j, "vout"@)
    &&& field_of(j, "vout"@) is Arr
    &&& (forall|k: int|
        0 <= k < vout_entries(j).len() ==> fetch_entry_ok(#[trigger] vout_entries(j)[k]))
}

/// How a returned output records its `vout` entry: the value's own decimal
/// text and the spending script hex, verbatim.
pub open spec fn voutinfo_of_entry(v: VoutInfo, e: Json) -> bool {
    &&& (field_of(e, "value"@) matches Json::Num(n) && v.amount@ == n.text)
    &&& (field_of(field_of(e, "scriptPubKey"@), "hex"@) matches Json::Str(h) && v.script_hex@ == h)
}

/// How a resolved previous output records the input it resolves and the
/// `vout` entry the node reported for it.
pub open spec fn prevout_of_input_entry(p: PrevOut, inp: TxInput, e: Json) -> bool {
    &&& p.txid@ == inp.txid@
    &&& p.vout == inp.vout
    &&& (field_of(e, "value"@) matches Json::Num(n) && p.amount@ == n.text)
    &&& (field_of(field_of(e, "scriptPubKey"@), "hex"@) matches Json::Str(h) && p.script_pubkey@
        == h)
}

/// Reads the fetch reply: the referenced transaction's output list under
/// `vout`, in reply order, keeping each output's value as the decimal text
/// of its JSON number and its spending script hex. Succeeds exactly on
/// replies of the expected shape.
pub fn parse_fetch_response(s: &str) -> (r: Result<Vec<VoutInfo>, RunError>)
    ensures
        r is Ok <==> (parses_as_json(s@) && fetch_shape_ok(json_of(s@))),
        r matches Err(e) ==> (e matches RunError::Parse(m) && m@
            == "Failed to parse transaction info"@),
        r matches Ok(v) ==> (v@.len() == vout_entries(json_of(s@)).len() && (forall|k: int|
            0 <= k < v@.len() ==> voutinfo_of_entry(
                #[trigger] v@[k],
                vout_entries(json_of(s@))[k],
            ))),
{
    let doc = match json::parse_value(s) {
        Ok(v) => v,
        Err(_) => {
            return Err(parse_err("Failed to parse transaction info"));
        },
    };
    let vout = match json::value_get(&doc, "vout") {
        Some(x) => x,
        None => {
            return Err(parse_err("Failed to parse transaction info"));
        },
    };
    let n = match json::arr_len(vout) {
        Some(n) => n,
        None => {
            return Err(parse_err("Failed to parse transaction info"));
        },
    };
    let mut vouts: Vec<VoutInfo> = Vec::new();
    let mut i: usize = 0;
    while i < n
        invariant
            parses_as_json(s@),
            json::value_model(*vout) == field_of(json_of(s@), "vout"@),
            has_field(json_of(s@), "vout"@),
            json::value_model(*vout) matches Json::Arr(a) && a == vout_entries(json_of(s@))
                && a.len() == n as nat,
            i <= n,
            vouts@.len() == i as nat,
            forall|k: int|
                0 <= k < i as int ==> (fetch_entry_ok(#[trigger] vout_entries(json_of(s@))[k])
                    && voutinfo_of_entry(vouts@[k], vout_entries(json_of(s@))[k])),
        decreases n - i,
    {
        let ghost entries = vout_entries(json_of(s@));
        let entry = match json::arr_get(vout, i) {
            Some(e) => e,
            None => {
                return unreached();
            },
        };
        let value_val = match json::value_get(entry, "value") {
            Some(t) => t,
            None => {
                proof {
                    assert(!fetch_entry_ok(entries[i as int]));
                }
                return Err(parse_err("Failed to parse transaction info"));
            },
        };
        let amount = match json::num_text(value_val) {
            Some(t) => t,
            None => {
                proof {
                    assert(!fetch_entry_ok(entries[i as int]));
                }
                return Err(parse_err("Failed to parse transaction info"));
            },
        };
        let spk = match json::value_get(entry, "scriptPubKey") {
            Some(t) => t,
            None => {
                proof {
                    assert(!fetch_entry_ok(entries[i as int]));
                }
                return Err(parse_err("Failed to parse transaction info"));
            },
        };
        let hex_val = match json::value_get(spk, "hex") {
            Some(t) => t,
            None => {
                proof {
                    assert(!fetch_entry_ok(entries[i as int]));
                }
                return Err(parse_err("Failed to parse transaction info"));
            },
        };
        let script_hex = match json::str_value(hex_val) {
            Some(t) => t,
            None => {
                proof {
                    assert(!fetch_entry_ok(entries[i as int]));
                }
                return Err(parse_err("Failed to parse transaction info"));
            },
        };
        vouts.push(VoutInfo { amount, script_hex: script_hex.to_owned() });
        i = i + 1;
    }
    Ok(vouts)
}

/// The resolver's decision on one input once the node's reply is read: the
/// referenced output when the reply contains its index, and `None` — not an
/// error — when the index is absent from the node's view, as happens when
/// the output comes from a sibling transaction not yet broadcast.
pub fn resolve_prevout(txid: &String, vout: u32, vouts: &Vec<VoutInfo>) -> (r: Option<PrevOut>)
    ensures
        vouts@.len() <= vout as int ==> r is None,
        (vout as int) < vouts@.len() ==> (r matches Some(p) && p.txid@ == txid@ && p.vout == vout
            && p.amount@ == vouts@[vout as int].amount@ && p.script_pubkey@ == vouts@[
            vout as int].script_hex@),
{
    if (vout as usize) < vouts.len() {
        let e = &vouts[vout as usize];
        Some(
            PrevOut {
                txid: txid.clone(),
                vout,
                amount: e.amount.clone(),
                script_pubkey: e.script_hex.clone(),
            },
        )
    } else {
        None
    }
}

/// Whether the sign reply carries an error-record list.
pub open spec fn sign_errors_present(j: Json) -> bool {
    has_field(j, "errors"@) && field_of(j, "errors"@) is Arr
}

/// The sign reply's error records.
pub open spec fn sign_error_entries(j: Json) -> Seq<Json> {
    match field_of(j, "errors"@) {
        Json::Arr(a) => a,
        _ => Seq::empty(),
    }
}

/// The printed text of each error record, in reply order.
pub open spec fn sign_error_texts(j: Json) -> Seq<Seq<char>> {
    sign_error_entries(j).map(|k: int, e: Json| json_text_of(e))
}

/// The sign replies the reader accepts: a string `hex`, a boolean
/// `complete`, and — when an `errors` field is there at all — a null or a
/// list of records.
pub open spec fn sign_shape_ok(j: Json) -> bool {
    &&& has_field(j, "hex"@)
    &&& field_of(j, "hex"@) is Str
    &&& has_field(j, "complete"@)
    &&& field_of(j, "complete"@) is Bool
    &&& (has_field(j, "errors"@) ==> (field_of(j, "errors"@) is Null || field_of(
        j,
        "errors"@,
    ) is Arr))
}

/// The sign reply's hex.
pub open spec fn sign_hex_of(j: Json) -> Seq<char> {
    match field_of(j, "hex"@) {
        Json::Str(t) => t,
        _ => Seq::empty(),
    }
}

/// The sign reply's completeness flag.
pub open spec fn sign_complete_of(j: Json) -> bool {
    match field_of(j, "complete"@) {
        Json::Bool(b) => b,
        _ => false,
    }
}

/// How a returned outcome records the sign reply: the reply's own hex and
/// flag, and its error records' printed texts, in order, exactly when the
/// reply carries a record list.
pub open spec fn outcome_of_reply(o: SignOutcome, j: Json) -> bool {
    &&& o.hex@ == sign_hex_of(j)
    &&& o.complete == sign_complete_of(j)
    &&& (o.errors is Some) == sign_errors_present(j)
    &&& (o.errors matches Some(es) ==> (es@.len() == sign_error_texts(j).len() && (forall|k: int|
        0 <= k < es@.len() ==> #[trigger] es@[k]@ == sign_error_texts(j)[k])))
}

/// Reads the wallet signer's reply: the signed hex, the completeness flag,
/// and the per-input error records, each kept as its printed text. An
/// incomplete signing is a valid outcome of this reply, not an error.
/// Succeeds exactly on replies of the expected shape.
pub fn parse_sign_response(s: &str) -> (r: Result<SignOutcome, RunError>)
    ensures
        r is Ok <==> (parses_as_json(s@) && sign_shape_ok(json_of(s@))),
        r matches Err(e) ==> (e matches RunError::Parse(m) && m@
            == "Failed to parse sign result"@),
        r matches Ok(o) ==> outcome_of_reply(o, json_of(s@)),
{
    let doc = match json::parse_value(s) {
        Ok(v) => v,
        Err(_) => {
            return Err(parse_err("Failed to parse sign result"));
        },
    };
    let hex_val = match json::value_get(&doc, "hex") {
        Some(t) => t,
        None => {
            return Err(parse_err("Failed to parse sign result"));
        },
    };
    let hex = match json::str_value(hex_val) {
        Some(t) => t,
        None => {
            return Err(parse_err("Failed to parse sign result"));
        },
    };
    let complete_val = match json::value_get(&doc, "complete") {
        Some(t) => t,
        None => {
            return Err(parse_err("Failed to parse sign result"));
        },
    };
    let complete = match json::bool_value(complete_val) {
        Some(b) => b,
        None => {
            return Err(parse_err("Failed to parse sign result"));
        },
    };
    let errors = match json::value_get(&doc, "errors") {
        None => None,
        Some(w) => {
            if json::is_null(w) {
                None
            } else {
                let n = match json::arr_len(w) {
                    Some(n) => n,
                    None => {
                        return Err(parse_err("Failed to parse sign result"));
                    },
                };
                let mut texts: Vec<String> = Vec::new();
                let mut i: usize = 0;
                while i < n
                    invariant
                        json::value_model(*w) == field_of(json_of(s@), "errors"@),
                        has_field(json_of(s@), "errors"@),
                        json::value_model(*w) matches Json::Arr(a) && a == sign_error_entries(
                            json_of(s@),
                        ) && a.len() == n as nat,
                        i <= n,
                        texts@.len() == i as nat,
                        forall|k: int|
                            0 <= k < i as int ==> #[trigger] texts@[k]@ == sign_error_texts(
                                json_of(s@),
                            )[k],
                    decreases n - i,
                {
                    let record = match json::arr_get(w, i) {
                        Some(e) => e,
                        None => {
                            return unreached();
                        },
                    };
                    let text = match json::value_to_text(record) {
                        Ok(t) => t,
                        Err(_) => {
                            return unreached();
                        },
                    };
                    texts.push(text);
                    i = i + 1;
                }
                Some(texts)
            }
        },
    };
    Ok(SignOutcome { hex: hex.to_owned(), complete, errors })
}

} // verus!
