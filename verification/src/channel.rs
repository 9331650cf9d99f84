//! The channel handshake manager: a linear per-channel state machine,
//! Opening -> Open -> Closed, driven by the host transport's lifecycle
//! events. On connect it queues exactly one correlated child-instantiation
//! request; on close it performs teardown bookkeeping.
use vstd::prelude::*;
use crate::msg::ContractError;
use crate::response::{attr, attr_is, claims_fund_sweep, Attribute, Event, Response, SubMsg,
    WasmInstantiate};
use crate::{CONTRACT_VERSION, INIT_CALLBACK_ID};

verus! {

/// Delivery ordering a channel can be opened with. Only unordered channels
/// are supported.
#[derive(Clone, Copy, Debug, PartialEq, Eq, Structural)]
pub enum IbcOrder {
    Unordered,
    Ordered,
}

/// Where a channel stands in its linear lifecycle; there is no re-open.
#[derive(Clone, Copy, Debug, PartialEq, Eq, Structural)]
pub enum ChannelPhase {
    /// The open handshake has started but is not confirmed on both sides.
    Opening,
    /// The handshake completed; the channel carries traffic.
    Open,
    /// The channel was torn down.
    Closed,
}

/// Per-channel handshake bookkeeping, created when an open is proposed.
#[derive(Debug)]
pub struct ChannelHandshakeState {
    pub channel_id: String,
    pub negotiated_version: String,
    pub phase: ChannelPhase,
}

/// A proposal from the host transport to open a channel.
#[derive(Debug)]
pub struct IbcChannelOpenMsg {
    pub channel_id: String,
    /// Protocol version the counterparty proposes.
    pub proposed_version: String,
    pub ordering: IbcOrder,
    /// Version offered by the counterparty chain, when it opened first.
    pub counterparty_version: Option<String>,
}

/// The accepted protocol version, answered to a channel-open proposal.
#[derive(Debug)]
pub struct IbcChannelOpenResponse {
    pub version: String,
}

/// Confirmation that the handshake completed on both sides.
#[derive(Debug)]
pub struct IbcChannelConnectMsg {
    pub channel_id: String,
}

/// Notice that the remote or local side tore the channel down.
#[derive(Debug)]
pub struct IbcChannelCloseMsg {
    pub channel_id: String,
}

/// Completion notification for an outbound packet; never expected, as this
/// contract sends none.
#[derive(Debug)]
pub struct IbcPacketAckMsg {}

/// Timeout notification for an outbound packet; never expected, as this
/// contract sends none.
#[derive(Debug)]
pub struct IbcPacketTimeoutMsg {}

/// The child's instantiation payload: the JSON empty object.
pub open spec fn empty_init_payload() -> Seq<u8> {
    seq![123u8, 125u8]
}

/// Answers a channel-open proposal. A pure negotiation step: no state is
/// mutated, and calling it again has no further effect. It accepts any
/// proposed version and always answers with the contract's own fixed
/// supported version, but rejects any ordering other than unordered. On
/// acceptance it returns the fresh handshake record for the channel, in phase
/// `Opening`.
pub fn ibc_channel_open(msg: IbcChannelOpenMsg) -> (r: Result<
    (ChannelHandshakeState, IbcChannelOpenResponse),
    ContractError,
>)
    ensures
        msg.ordering == IbcOrder::Unordered ==> (r matches Ok(p) && {
            &&& p.1.version@ == CONTRACT_VERSION@
            &&& p.0.channel_id@ == msg.channel_id@
            &&& p.0.negotiated_version@ == CONTRACT_VERSION@
            &&& p.0.phase == ChannelPhase::Opening
        }),
        msg.ordering != IbcOrder::Unordered ==> (r matches Err(e) && e
            == ContractError::HandshakeRejected),
{
    match msg.ordering {
        IbcOrder::Ordered => Err(ContractError::HandshakeRejected),
        IbcOrder::Unordered => {
            let chan = ChannelHandshakeState {
                channel_id: msg.channel_id,
                negotiated_version: CONTRACT_VERSION.to_owned(),
                phase: ChannelPhase::Opening,
            };
            let resp = IbcChannelOpenResponse { version: CONTRACT_VERSION.to_owned() };
            Ok((chan, resp))
        },
    }
}

/// Reacts to the host's confirmation that the handshake completed: the
/// channel becomes `Open`, and exactly one asynchronous request to
/// instantiate the counterpart object is queued, fire-and-forget, with no
/// admin, the empty initialization payload, no funds, and the reflect label.
/// The request carries `INIT_CALLBACK_ID` so the later completion
/// notification can be matched back to this connect event; consuming that
/// notification is the host's reply path, not handled here.
pub fn ibc_channel_connect(chan: &mut ChannelHandshakeState, msg: IbcChannelConnectMsg) -> (r:
    Response)
    requires
        old(chan).phase == ChannelPhase::Opening,
    ensures
        final(chan).phase == ChannelPhase::Open,
        final(chan).channel_id == old(chan).channel_id,
        final(chan).negotiated_version == old(chan).negotiated_version,
        r.messages@.len() == 1,
        r.messages@[0].id == INIT_CALLBACK_ID,
        r.messages@[0].msg.admin is None,
        r.messages@[0].msg.code_id == 0,
        r.messages@[0].msg.msg@ == empty_init_payload(),
        r.messages@[0].msg.funds@.len() == 0,
        r.messages@[0].msg.label@ == "ibc-reflect-1"@,
        r.attributes@.len() == 2,
        attr_is(r.attributes@[0], "action"@, "ibc_connect"@),
        attr_is(r.attributes@[1], "channel_id"@, msg.channel_id@),
        r.events@.len() == 1,
        r.events@[0].ty@ == "ibc"@,
        r.events@[0].attributes@.len() == 1,
        attr_is(r.events@[0].attributes@[0], "channel"@, "connect"@),
{
    chan.phase = ChannelPhase::Open;
    let payload: Vec<u8> = vec![123u8, 125u8];
    proof {
        assert(payload@ =~= empty_init_payload());
    }
    let child = WasmInstantiate {
        admin: None,
        code_id: 0,
        msg: payload,
        funds: Vec::new(),
        label: "ibc-reflect-1".to_owned(),
    };
    let mut resp = Response::empty();
    resp.messages.push(SubMsg { id: INIT_CALLBACK_ID, msg: child });
    resp.attributes.push(attr("action", "ibc_connect"));
    resp.attributes.push(Attribute { key: "channel_id".to_owned(), value: msg.channel_id });
    let mut ev_attrs: Vec<Attribute> = Vec::new();
    ev_attrs.push(attr("channel", "connect"));
    resp.events.push(Event { ty: "ibc".to_owned(), attributes: ev_attrs });
    resp
}

/// Reacts to a channel teardown: the channel becomes `Closed`, from any
/// phase and idempotently. A complete implementation would also sweep the
/// counterpart object's funds back here; no counterpart bookkeeping is kept
/// yet, so no sweep messages are queued, and the acknowledgment accordingly
/// claims none: its attributes describe exactly the effects it carries.
pub fn ibc_channel_close(chan: &mut ChannelHandshakeState, msg: IbcChannelCloseMsg) -> (r:
    Response)
    ensures
        final(chan).phase == ChannelPhase::Closed,
        final(chan).channel_id == old(chan).channel_id,
        final(chan).negotiated_version == old(chan).negotiated_version,
        r.messages@.len() == 0,
        r.attributes@.len() == 2,
        attr_is(r.attributes@[0], "action"@, "ibc_close"@),
        attr_is(r.attributes@[1], "channel_id"@, msg.channel_id@),
        r.events@.len() == 0,
        !claims_fund_sweep(r),
{
    chan.phase = ChannelPhase::Closed;
    let mut resp = Response::empty();
    resp.attributes.push(attr("action", "ibc_close"));
    resp.attributes.push(Attribute { key: "channel_id".to_owned(), value: msg.channel_id });
    proof {
        reveal_strlit("action");
        reveal_strlit("channel_id");
        reveal_strlit("steal_funds");
        assert("action"@.len() == 6);
        assert("channel_id"@.len() == 10);
        assert("steal_funds"@.len() == 11);
    }
    resp
}

/// Defensive stub: this contract never sends packets, so no acknowledgment
/// should ever arrive. It only acknowledges receipt.
pub fn ibc_packet_ack(_msg: IbcPacketAckMsg) -> (r: Response)
    ensures
        r.messages@.len() == 0,
        r.attributes@.len() == 1,
        attr_is(r.attributes@[0], "action"@, "ibc_packet_ack"@),
        r.events@.len() == 0,
{
    let mut resp = Response::empty();
    resp.attributes.push(attr("action", "ibc_packet_ack"));
    resp
}

/// Defensive stub: this contract never sends packets, so no timeout should
/// ever arrive. It only acknowledges receipt.
pub fn ibc_packet_timeout(_msg: IbcPacketTimeoutMsg) -> (r: Response)
    ensures
        r.messages@.len() == 0,
        r.attributes@.len() == 1,
        attr_is(r.attributes@[0], "action"@, "ibc_packet_timeout"@),
        r.events@.len() == 0,
{
    let mut resp = Response::empty();
    resp.attributes.push(attr("action", "ibc_packet_timeout"));
    resp
}

} // verus!
