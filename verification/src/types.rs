use vstd::prelude::*;

verus! {

/// One spending input of a decoded transaction: the coordinates of the
/// referenced output and whether unlocking data is already attached.
pub struct TxInput {
    pub txid: String,
    pub vout: u32,
    pub has_witness: bool,
}

/// The value and spending script of one output of a fetched transaction, as
/// the node reports them. The amount is kept as the text the JSON layer
/// prints for the node's number, so that it travels to the signer as a
/// number and never passes through this library's own arithmetic.
pub struct VoutInfo {
    pub amount: String,
    pub script_hex: String,
}

/// A resolved previous output: everything the wallet signer needs about the
/// coin an input spends.
pub struct PrevOut {
    pub txid: String,
    pub vout: u32,
    pub amount: String,
    pub script_pubkey: String,
}

/// A raw transaction together with the previous outputs resolved for it.
pub struct SigningRequest {
    pub raw_tx: String,
    pub prevouts: Vec<PrevOut>,
}

/// The wallet signer's report: the (possibly partially) signed hex, whether
/// every input now carries valid unlocking data, and the signer's per-input
/// error records, kept as opaque serialized text.
pub struct SignOutcome {
    pub hex: String,
    pub complete: bool,
    pub errors: Option<Vec<String>>,
}

/// One command for the node/wallet service: a name, ordered string arguments,
/// and whether the call must reach the wallet's transport.
pub struct Command {
    pub name: String,
    pub args: Vec<String>,
    pub wallet: bool,
}

/// A fatal failure: either the gateway could not run a command, or a response
/// did not have the expected shape. Either one aborts the whole batch.
#[derive(Debug)]
pub enum RunError {
    Gateway(String),
    Parse(String),
}

impl RunError {
    /// The diagnostic text carried by the error.
    pub fn message(&self) -> (m: &String)
        ensures
            (self matches RunError::Gateway(d) ==> m@ == d@),
            (self matches RunError::Parse(d) ==> m@ == d@),
    {
        match self {
            RunError::Gateway(d) => d,
            RunError::Parse(d) => d,
        }
    }
}

/// What the gateway handed back for one command: the trimmed output text;
/// the service's report that the queried item is unknown to it (the driver
/// classifies this from a failed call's diagnostic — for the node it is the
/// "no such transaction" complaint); or the diagnostic text of a genuinely
/// failed run. Absence and failure stay distinct: an unknown referenced
/// transaction is the expected case for intra-batch dependencies and must
/// not abort the batch.
pub enum GatewayReply {
    Output(String),
    NotFound(String),
    Failure(String),
}

} // verus!
