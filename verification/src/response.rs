//! The success acknowledgment a handler returns: observability attributes,
//! structured events, and queued asynchronous requests, all as plain values.
//! The host-facing shell turns an acknowledgment into whatever its transport
//! expects; the handlers' contracts pin its contents exactly.
use vstd::prelude::*;

verus! {

/// One key/value pair of observability metadata.
#[derive(Debug)]
pub struct Attribute {
    pub key: String,
    pub value: String,
}

/// A structured observability event: a type tag and its own attributes.
#[derive(Debug)]
pub struct Event {
    pub ty: String,
    pub attributes: Vec<Attribute>,
}

/// One coin of attached funds.
#[derive(Debug)]
pub struct Coin {
    pub denom: String,
    pub amount: u128,
}

/// A request to instantiate another contract instance.
#[derive(Debug)]
pub struct WasmInstantiate {
    /// Account allowed to migrate the child; `None` leaves it immutable.
    pub admin: Option<String>,
    /// Which stored code to instantiate.
    pub code_id: u64,
    /// The child's instantiation payload.
    pub msg: Vec<u8>,
    /// Funds handed to the child at creation.
    pub funds: Vec<Coin>,
    /// Human-readable name of the child instance.
    pub label: String,
}

/// An asynchronous request queued in an acknowledgment. The host executes it
/// after the current operation commits, fire-and-forget; on success it
/// delivers a separate completion notification carrying `id`, the correlation
/// token, so the notification can be matched back to this request.
#[derive(Debug)]
pub struct SubMsg {
    pub id: u64,
    pub msg: WasmInstantiate,
}

/// The success acknowledgment of a handler.
#[derive(Debug)]
pub struct Response {
    pub messages: Vec<SubMsg>,
    pub attributes: Vec<Attribute>,
    pub events: Vec<Event>,
}

/// `a` is the attribute `k` = `v`.
pub open spec fn attr_is(a: Attribute, k: Seq<char>, v: Seq<char>) -> bool {
    a.key@ == k && a.value@ == v
}

/// The acknowledgment claims among its attributes that funds were swept.
pub open spec fn claims_fund_sweep(r: Response) -> bool {
    exists|i: int| 0 <= i < r.attributes@.len() && r.attributes@[i].key@ == "steal_funds"@
}

impl Response {
    /// An empty acknowledgment: nothing queued, nothing reported.
    pub fn empty() -> (r: Response)
        ensures
            r.messages@.len() == 0,
            r.attributes@.len() == 0,
            r.events@.len() == 0,
    {
        Response { messages: Vec::new(), attributes: Vec::new(), events: Vec::new() }
    }
}

/// The attribute `k` = `v`.
pub fn attr(k: &str, v: &str) -> (r: Attribute)
    ensures
        attr_is(r, k@, v@),
{
    Attribute { key: k.to_owned(), value: v.to_owned() }
}

/// The digit character for value `d`.
pub open spec fn dec_digit(d: int) -> char {
    if d == 0 {
        '0'
    } else if d == 1 {
        '1'
    } else if d == 2 {
        '2'
    } else if d == 3 {
        '3'
    } else if d == 4 {
        '4'
    } else if d == 5 {
        '5'
    } else if d == 6 {
        '6'
    } else if d == 7 {
        '7'
    } else if d == 8 {
        '8'
    } else {
        '9'
    }
}

/// The decimal rendering of `n`: most significant digit first, no sign, no
/// padding, no leading zeros.
pub open spec fn dec_chars(n: int) -> Seq<char>
    decreases n,
{
    if n < 10 {
        seq![dec_digit(n)]
    } else {
        dec_chars(n / 10).push(dec_digit(n % 10))
    }
}

/// Relies on `u32`'s `Display` implementation: `format!` renders the value in
/// decimal, with no sign, padding, or leading zeros.
#[verifier::external_body]
pub(crate) fn u32_dec_string(n: u32) -> (r: String)
    ensures
        r@ == dec_chars(n as int),
{
    format!("{}", n)
}

} // verus!
