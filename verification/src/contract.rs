//! The counter service and the migration guard: every state-touching
//! operation loads the state, decides, and either commits a fully updated
//! state with a success acknowledgment or fails leaving the state unchanged.
use vstd::prelude::*;
use crate::msg::{ContractError, ExecuteMsg, InstantiateMsg, MigrateMsg, QueryMsg, QueryResponse};
use crate::response::{attr, attr_is, dec_chars, u32_dec_string, Attribute, Response};
use crate::semver::{lemma_digit_seq_val, lemma_parse_semver_split, spec_parse_semver,
    spec_version_lt, version_lt, SemVer};
use crate::state::{state_wf, ContractState, ContractVersion};
use crate::{CONTRACT_NAME, CONTRACT_VERSION};

verus! {

/// The build's own version string parses, as `0.1.0`.
pub proof fn lemma_build_version_parses()
    ensures
        spec_parse_semver(CONTRACT_VERSION@) == Some(SemVer { major: 0, minor: 1, patch: 0 }),
{
    reveal_strlit("0.1.0");
    let s = CONTRACT_VERSION@;
    assert(s.len() == 5);
    assert(s[0] == '0' && s[1] == '.' && s[2] == '1' && s[3] == '.' && s[4] == '0');
    assert(s.subrange(0, 1) =~= seq![s[0]]);
    assert(s.subrange(2, 3) =~= seq![s[2]]);
    assert(s.subrange(4, 5) =~= seq![s[4]]);
    lemma_digit_seq_val(s[0]);
    lemma_digit_seq_val(s[2]);
    lemma_digit_seq_val(s[4]);
    lemma_parse_semver_split(s, 1, 3);
}

/// Creates the contract's initial state: the build's version tag and a
/// counter at zero, acknowledged with the init action attribute.
pub fn instantiate(_msg: InstantiateMsg) -> (r: (ContractState, Response))
    ensures
        r.0.counter == 0,
        r.0.version.contract@ == CONTRACT_NAME@,
        r.0.version.version@ == CONTRACT_VERSION@,
        state_wf(r.0),
        r.1.messages@.len() == 0,
        r.1.events@.len() == 0,
        r.1.attributes@.len() == 1,
        attr_is(r.1.attributes@[0], "action"@, "counter_contract_init"@),
{
    let version = ContractVersion {
        contract: CONTRACT_NAME.to_owned(),
        version: CONTRACT_VERSION.to_owned(),
    };
    let state = ContractState { version, counter: 0 };
    let mut resp = Response::empty();
    resp.attributes.push(attr("action", "counter_contract_init"));
    proof {
        lemma_build_version_parses();
    }
    (state, resp)
}

/// The counter after adding `value` to `c`: the transition a successful
/// `IncreaseBy` makes.
pub open spec fn increase_result(c: int, value: u32) -> int {
    c + value
}

/// What an increment leaves behind: on overflow the error is surfaced and
/// the state untouched; otherwise the counter grows by `value` and the
/// acknowledgment records the applied delta.
pub open spec fn increase_post(
    pre: ContractState,
    post: ContractState,
    value: u32,
    r: Result<Response, ContractError>,
) -> bool {
    if pre.counter + value <= u32::MAX {
        &&& r matches Ok(resp) && resp.messages@.len() == 0 && resp.events@.len() == 0
            && resp.attributes@.len() == 1 && attr_is(
            resp.attributes@[0],
            "value"@,
            dec_chars(value as int),
        )
        &&& post.counter == increase_result(pre.counter as int, value)
        &&& post.version == pre.version
    } else {
        &&& r matches Err(e) && e == ContractError::ArithmeticOverflow
        &&& post == pre
    }
}

/// What a reset leaves behind: the counter at zero, whatever it held before,
/// and the reset attribute in the acknowledgment.
pub open spec fn reset_post(pre: ContractState, post: ContractState, r: Response) -> bool {
    &&& post.counter == 0
    &&& post.version == pre.version
    &&& r.messages@.len() == 0
    &&& r.events@.len() == 0
    &&& r.attributes@.len() == 1
    &&& attr_is(r.attributes@[0], "counter_reset"@, "0"@)
}

/// Adds `value` to the counter, surfacing overflow instead of wrapping.
pub fn try_increase_counter(state: &mut ContractState, value: u32) -> (r: Result<
    Response,
    ContractError,
>)
    ensures
        increase_post(*old(state), *final(state), value, r),
{
    match state.counter.checked_add(value) {
        None => Err(ContractError::ArithmeticOverflow),
        Some(n) => {
            state.counter = n;
            let mut resp = Response::empty();
            let rendered = u32_dec_string(value);
            resp.attributes.push(Attribute { key: "value".to_owned(), value: rendered });
            Ok(resp)
        },
    }
}

/// Sets the counter back to zero, unconditionally.
pub fn try_reset_counter(state: &mut ContractState) -> (r: Response)
    ensures
        reset_post(*old(state), *final(state), r),
{
    state.counter = 0;
    let mut resp = Response::empty();
    resp.attributes.push(attr("counter_reset", "0"));
    resp
}

/// Dispatches a state-mutating operation, one arm per variant.
pub fn execute(state: &mut ContractState, msg: ExecuteMsg) -> (r: Result<Response, ContractError>)
    ensures
        match msg {
            ExecuteMsg::IncreaseBy { value } => increase_post(*old(state), *final(state), value, r),
            ExecuteMsg::Reset {  } => r matches Ok(resp) && reset_post(
                *old(state),
                *final(state),
                resp,
            ),
        },
{
    match msg {
        ExecuteMsg::IncreaseBy { value } => try_increase_counter(state, value),
        ExecuteMsg::Reset {  } => Ok(try_reset_counter(state)),
    }
}

/// Advances the stored version tag to the build's own, and nothing else.
/// Rejected with `TypeMismatch` when the stored name is not the build's
/// name, whatever the versions; rejected with `DowngradeRejected` when the
/// stored version is not strictly older than the build's in the semantic
/// order (equal versions included, and any stored tag that does not parse);
/// a rejection leaves the state unchanged.
pub fn migrate(state: &mut ContractState, _msg: MigrateMsg) -> (r: Result<Response, ContractError>)
    ensures
        old(state).version.contract@ != CONTRACT_NAME@ ==> (r matches Err(e) && e
            == ContractError::TypeMismatch && *final(state) == *old(state)),
        old(state).version.contract@ == CONTRACT_NAME@ && !spec_version_lt(
            old(state).version.version@,
            CONTRACT_VERSION@,
        ) ==> (r matches Err(e) && e == ContractError::DowngradeRejected && *final(state) == *old(
            state,
        )),
        old(state).version.contract@ == CONTRACT_NAME@ && spec_version_lt(
            old(state).version.version@,
            CONTRACT_VERSION@,
        ) ==> (r matches Ok(resp) && {
            &&& final(state).counter == old(state).counter
            &&& final(state).version.contract@ == CONTRACT_NAME@
            &&& final(state).version.version@ == CONTRACT_VERSION@
            &&& state_wf(*final(state))
            &&& resp.messages@.len() == 0
            &&& resp.attributes@.len() == 0
            &&& resp.events@.len() == 0
        }),
{
    let target_name: String = CONTRACT_NAME.to_owned();
    if !(state.version.contract == target_name) {
        return Err(ContractError::TypeMismatch);
    }
    if !version_lt(state.version.version.as_str(), CONTRACT_VERSION) {
        return Err(ContractError::DowngradeRejected);
    }
    state.version.contract = target_name;
    state.version.version = CONTRACT_VERSION.to_owned();
    proof {
        lemma_build_version_parses();
    }
    Ok(Response::empty())
}

/// What a query answers: pinned by the queried state alone.
pub open spec fn query_post(s: ContractState, msg: QueryMsg, r: QueryResponse) -> bool {
    match msg {
        QueryMsg::GetContractVersion {  } => r matches QueryResponse::Version { contract, version }
            && contract@ == s.version.contract@ && version@ == s.version.version@,
        QueryMsg::FetchCounter {  } => r == QueryResponse::Counter(s.counter),
    }
}

/// Answers a read-only query. It takes the state by shared reference and
/// cannot mutate it.
pub fn query(state: &ContractState, msg: QueryMsg) -> (r: QueryResponse)
    ensures
        query_post(*state, msg, r),
{
    match msg {
        QueryMsg::GetContractVersion {  } => QueryResponse::Version {
            contract: state.version.contract.clone(),
            version: state.version.version.clone(),
        },
        QueryMsg::FetchCounter {  } => QueryResponse::Counter(query_counter(state)),
    }
}

/// The current counter value, read without mutation.
pub fn query_counter(state: &ContractState) -> (r: u32)
    ensures
        r == state.counter,
{
    state.counter
}

/// Queries never mutate the state — they take it by shared reference — and
/// their answer is a function of the state alone: any two answers the query
/// contract admits for the same state and message agree, so repeated queries
/// between mutations answer alike.
pub proof fn lemma_query_repeatable(
    s: ContractState,
    msg: QueryMsg,
    r1: QueryResponse,
    r2: QueryResponse,
)
    requires
        query_post(s, msg, r1),
        query_post(s, msg, r2),
    ensures
        match (r1, r2) {
            (
                QueryResponse::Version { contract: c1, version: v1 },
                QueryResponse::Version { contract: c2, version: v2 },
            ) => c1@ == c2@ && v1@ == v2@,
            _ => r1 == r2,
        },
{
}

/// The sum of the increment values `vs`.
pub open spec fn sum_of(vs: Seq<u32>) -> int
    decreases vs.len(),
{
    if vs.len() == 0 {
        0
    } else {
        vs[0] + sum_of(vs.skip(1))
    }
}

/// The counter after applying the increments `vs` in order to `c`, each by
/// the transition that a successful `IncreaseBy` makes.
pub open spec fn run_increases(c: int, vs: Seq<u32>) -> int
    decreases vs.len(),
{
    if vs.len() == 0 {
        c
    } else {
        run_increases(increase_result(c, vs[0]), vs.skip(1))
    }
}

/// A sequence of increments, each applied without overflow, leaves the
/// counter at its initial value plus the sum of the applied values.
pub proof fn lemma_increase_sequence(c: int, vs: Seq<u32>)
    ensures
        run_increases(c, vs) == c + sum_of(vs),
    decreases vs.len(),
{
    if vs.len() > 0 {
        lemma_increase_sequence(increase_result(c, vs[0]), vs.skip(1));
    }
}

} // verus!
