//! The coordinator's operations: one explicit handler per message kind,
//! a closed dispatch over the message enums, and the query surface.

use vstd::prelude::*;
use vstd::utf8::encode_utf8;
use crate::context::{env_entropy, fresh_rand_bytes, EnvInfo};
use crate::crypto::{base64_encode, base64_of, bytes_eq, sha_256, sha256_of, rand_bytes_of,
    prng_rand_bytes};
use crate::error::ContractError;
use crate::factory::msg::{ExecuteMsg, FilterTypes, HandleAnswer, HandleResponse, InstantiateMsg,
    LogAttribute, QueryAnswer, QueryMsg, RegisterOffspringInfo, ResponseStatus};
use crate::factory::offspring_msg::{OffspringInstantiateMsg, SpawnInstruction};
use crate::factory::state::{FactoryState, RegisteredOffspring};
use crate::factory::structs::{CodeInfo, ContractInfo, StoreOffspringInfo};
use crate::index::AddrIndex;
use crate::strmap::StrMap;
use crate::viewing_keys::{minted_key, ViewingKeys};

verus! {

/// Initializes the factory: the sender becomes admin, the generator seed
/// is derived from the supplied entropy, and every registry is empty.
pub fn init(env: &EnvInfo, msg: InstantiateMsg) -> (r: FactoryState)
    ensures
        r.wf(),
        r.admin == env.sender,
        r.stopped == false,
        r.offspring_code == msg.offspring_code_info,
        r.prng_seed@ == sha256_of(encode_utf8(base64_of(encode_utf8(msg.entropy@)))),
        r.pending() is None,
        r.records_map() == Map::<Seq<char>, RegisteredOffspring>::empty(),
        r.active@ == Seq::<Seq<char>>::empty(),
        r.inactive@ == Seq::<Seq<char>>::empty(),
        r.viewing_keys.hashes() == Map::<Seq<char>, Seq<u8>>::empty(),
        forall|o: Seq<char>|
            #![trigger r.owner_active(o)]
            #![trigger r.owner_inactive(o)]
            r.owner_active(o) == Seq::<Seq<char>>::empty() && r.owner_inactive(o) == Seq::<
                Seq<char>,
            >::empty(),
{
    let encoded = base64_encode(msg.entropy.as_str().as_bytes());
    let prng_seed = sha_256(encoded.as_str().as_bytes());
    let r = FactoryState {
        admin: env.sender.clone(),
        stopped: false,
        offspring_code: msg.offspring_code_info,
        prng_seed,
        pending_password: None,
        records: StrMap::new(),
        active: AddrIndex::new(),
        inactive: AddrIndex::new(),
        owners_active: StrMap::new(),
        owners_inactive: StrMap::new(),
        viewing_keys: ViewingKeys::new(),
    };
    proof {
        assert(r.wf());
    }
    r
}

/// Generates new entropy from the block data, the sender, and the
/// caller-supplied entropy; the stored seed is not advanced here.
pub fn new_entropy(env: &EnvInfo, seed: &[u8], entropy: &[u8]) -> (r: Vec<u8>)
    ensures
        r@ == rand_bytes_of(seed@, env_entropy(*env, entropy@)),
        r@.len() == 32,
{
    let material = crate::context::build_env_entropy(env, entropy);
    prng_rand_bytes(seed, material.as_slice())
}

/// Everything `try_create_offspring` guarantees: the stopped factory
/// rejects with no mutation; otherwise the generator advances, the minted
/// password lands in the pending slot, nothing else of the state changes,
/// and the spawn instruction carries the template version and the full
/// instantiation message, password included.
pub open spec fn create_offspring_post(
    s0: FactoryState,
    s1: FactoryState,
    env: EnvInfo,
    label: String,
    entropy: String,
    owner: String,
    count: i32,
    description: Option<String>,
    r: Result<HandleResponse, ContractError>,
) -> bool {
    &&& (s0.stopped ==> r == Err::<HandleResponse, ContractError>(ContractError::InvalidState)
        && s1 == s0)
    &&& (!s0.stopped ==> ({
        let rand = fresh_rand_bytes(s0.prng_seed@, env, encode_utf8(entropy@));
        let password = sha256_of(rand);
        &&& r matches Ok(resp)
        &&& s1.prng_seed@ == rand
        &&& s1.pending() == Some(password)
        &&& s1.records == s0.records
        &&& s1.active == s0.active
        &&& s1.inactive == s0.inactive
        &&& s1.owners_active == s0.owners_active
        &&& s1.owners_inactive == s0.owners_inactive
        &&& s1.viewing_keys == s0.viewing_keys
        &&& s1.admin == s0.admin
        &&& s1.stopped == s0.stopped
        &&& s1.offspring_code == s0.offspring_code
        &&& resp.messages@.len() == 1
        &&& resp.messages@[0].label == label
        &&& resp.messages@[0].code_info == s0.offspring_code
        &&& resp.messages@[0].init_msg.factory.code_hash == env.contract_code_hash
        &&& resp.messages@[0].init_msg.factory.address == env.contract_address
        &&& resp.messages@[0].init_msg.label == label
        &&& resp.messages@[0].init_msg.password@ == password
        &&& resp.messages@[0].init_msg.owner == owner
        &&& resp.messages@[0].init_msg.count == count
        &&& resp.messages@[0].init_msg.description == description
        &&& resp.log@.len() == 0
        &&& resp.data == Some(HandleAnswer::Status {
            status: ResponseStatus::Success,
            message: None::<String>,
        })
    }))
}

/// Creates a new offspring: advances the generator, mints a one-time
/// password, overwrites the pending slot with it, and returns the spawn
/// instruction. Rejected while the factory is stopped. No index changes.
pub fn try_create_offspring(
    state: &mut FactoryState,
    env: &EnvInfo,
    label: String,
    entropy: String,
    owner: String,
    count: i32,
    description: Option<String>,
) -> (r: Result<HandleResponse, ContractError>)
    requires
        old(state).wf(),
    ensures
        final(state).wf(),
        create_offspring_post(
            *old(state),
            *final(state),
            *env,
            label,
            entropy,
            owner,
            count,
            description,
            r,
        ),
{
    if state.stopped {
        return Err(ContractError::InvalidState);
    }
    let factory = ContractInfo {
        code_hash: env.contract_code_hash.clone(),
        address: env.contract_address.clone(),
    };
    // advance the generator and mint the one-time password
    let new_prng_bytes = new_entropy(env, state.prng_seed.as_slice(), entropy.as_str().as_bytes());
    let password = sha_256(new_prng_bytes.as_slice());
    state.prng_seed = new_prng_bytes;
    state.pending_password = Some(password.clone());
    let init_msg = OffspringInstantiateMsg {
        factory,
        label: label.clone(),
        password,
        owner,
        count,
        description,
    };
    let offspring_code = state.offspring_code.clone();
    let spawn = SpawnInstruction { label, code_info: offspring_code, init_msg };
    let mut messages: Vec<SpawnInstruction> = Vec::new();
    messages.push(spawn);
    proof {
        FactoryState::lemma_wf_same_registry(*old(state), *state);
    }
    Ok(
        HandleResponse {
            messages,
            log: Vec::new(),
            data: Some(
                HandleAnswer::Status { status: ResponseStatus::Success, message: None },
            ),
        },
    )
}

/// Everything `try_new_contract` guarantees: only the admin may install
/// a version; on success only the template version changes and a success
/// status is returned.
pub open spec fn new_contract_post(
    s0: FactoryState,
    s1: FactoryState,
    env: EnvInfo,
    offspring_code_info: CodeInfo,
    r: Result<HandleResponse, ContractError>,
) -> bool {
    &&& (env.sender@ != s0.admin@ ==> r == Err::<HandleResponse, ContractError>(
        ContractError::Unauthorized,
    ) && s1 == s0)
    &&& (env.sender@ == s0.admin@ ==> ({
        &&& r matches Ok(resp)
        &&& s1 == (FactoryState { offspring_code: offspring_code_info, ..s0 })
        &&& resp.messages@.len() == 0
        &&& resp.log@.len() == 0
        &&& resp.data == Some(HandleAnswer::Status {
            status: ResponseStatus::Success,
            message: None::<String>,
        })
    }))
}

/// Installs a new offspring template version; admin only.
pub fn try_new_contract(
    state: &mut FactoryState,
    env: &EnvInfo,
    offspring_code_info: CodeInfo,
) -> (r: Result<HandleResponse, ContractError>)
    requires
        old(state).wf(),
    ensures
        final(state).wf(),
        new_contract_post(*old(state), *final(state), *env, offspring_code_info, r),
{
    if !(state.admin == env.sender) {
        return Err(ContractError::Unauthorized);
    }
    state.offspring_code = offspring_code_info;
    proof {
        FactoryState::lemma_wf_same_registry(*old(state), *state);
    }
    Ok(
        HandleResponse {
            messages: Vec::new(),
            log: Vec::new(),
            data: Some(
                HandleAnswer::Status { status: ResponseStatus::Success, message: None },
            ),
        },
    )
}

/// Everything `try_set_status` guarantees: only the admin may start or
/// stop creation; on success only the stopped flag changes and a success
/// status is returned.
pub open spec fn set_status_post(
    s0: FactoryState,
    s1: FactoryState,
    env: EnvInfo,
    stop: bool,
    r: Result<HandleResponse, ContractError>,
) -> bool {
    &&& (env.sender@ != s0.admin@ ==> r == Err::<HandleResponse, ContractError>(
        ContractError::Unauthorized,
    ) && s1 == s0)
    &&& (env.sender@ == s0.admin@ ==> ({
        &&& r matches Ok(resp)
        &&& s1 == (FactoryState { stopped: stop, ..s0 })
        &&& resp.messages@.len() == 0
        &&& resp.log@.len() == 0
        &&& resp.data == Some(HandleAnswer::Status {
            status: ResponseStatus::Success,
            message: None::<String>,
        })
    }))
}

/// Starts or stops offspring creation; admin only.
pub fn try_set_status(state: &mut FactoryState, env: &EnvInfo, stop: bool) -> (r: Result<
    HandleResponse,
    ContractError,
>)
    requires
        old(state).wf(),
    ensures
        final(state).wf(),
        set_status_post(*old(state), *final(state), *env, stop, r),
{
    if !(state.admin == env.sender) {
        return Err(ContractError::Unauthorized);
    }
    state.stopped = stop;
    proof {
        FactoryState::lemma_wf_same_registry(*old(state), *state);
    }
    Ok(
        HandleResponse {
            messages: Vec::new(),
            log: Vec::new(),
            data: Some(
                HandleAnswer::Status { status: ResponseStatus::Success, message: None },
            ),
        },
    )
}

/// Everything `try_create_key` guarantees: a key minted from the stored
/// seed and the call's entropy is installed for the sender (overwriting
/// any prior key), nothing else of the state changes, and the answer
/// carries that exact key.
pub open spec fn create_key_post(
    s0: FactoryState,
    s1: FactoryState,
    env: EnvInfo,
    entropy: String,
    r: Result<HandleResponse, ContractError>,
) -> bool {
    let key = minted_key(s0.prng_seed@, env, encode_utf8(entropy@));
    &&& r matches Ok(resp)
    &&& s1.viewing_keys.hashes() == s0.viewing_keys.hashes().insert(
        env.sender@,
        sha256_of(encode_utf8(key)),
    )
    &&& s1.records == s0.records
    &&& s1.active == s0.active
    &&& s1.inactive == s0.inactive
    &&& s1.owners_active == s0.owners_active
    &&& s1.owners_inactive == s0.owners_inactive
    &&& s1.admin == s0.admin
    &&& s1.stopped == s0.stopped
    &&& s1.offspring_code == s0.offspring_code
    &&& s1.prng_seed == s0.prng_seed
    &&& s1.pending_password == s0.pending_password
    &&& resp.messages@.len() == 0
    &&& resp.log@.len() == 0
    &&& (resp.data matches Some(HandleAnswer::ViewingKey { key: k }) && k@ == key)
}

/// Mints a viewing key for the caller and installs it, overwriting any
/// prior key.
pub fn try_create_key(state: &mut FactoryState, env: &EnvInfo, entropy: String) -> (r: Result<
    HandleResponse,
    ContractError,
>)
    requires
        old(state).wf(),
    ensures
        final(state).wf(),
        create_key_post(*old(state), *final(state), *env, entropy, r),
{
    let key = state.viewing_keys.create(
        env.sender.clone(),
        &state.prng_seed,
        env,
        entropy.as_str().as_bytes(),
    );
    proof {
        FactoryState::lemma_wf_same_registry(*old(state), *state);
    }
    Ok(
        HandleResponse {
            messages: Vec::new(),
            log: Vec::new(),
            data: Some(HandleAnswer::ViewingKey { key }),
        },
    )
}

/// Everything `try_set_key` guarantees: the caller-chosen key is
/// installed for the sender (overwriting any prior key), nothing else of
/// the state changes, and the answer echoes the key.
pub open spec fn set_key_post(
    s0: FactoryState,
    s1: FactoryState,
    env: EnvInfo,
    key: String,
    r: Result<HandleResponse, ContractError>,
) -> bool {
    &&& s1.viewing_keys.hashes() == s0.viewing_keys.hashes().insert(
        env.sender@,
        sha256_of(encode_utf8(key@)),
    )
    &&& s1.records == s0.records
    &&& s1.active == s0.active
    &&& s1.inactive == s0.inactive
    &&& s1.owners_active == s0.owners_active
    &&& s1.owners_inactive == s0.owners_inactive
    &&& s1.admin == s0.admin
    &&& s1.stopped == s0.stopped
    &&& s1.offspring_code == s0.offspring_code
    &&& s1.prng_seed == s0.prng_seed
    &&& s1.pending_password == s0.pending_password
    &&& (r matches Ok(resp) && resp.messages@.len() == 0 && resp.log@.len() == 0 && (
    resp.data matches Some(HandleAnswer::ViewingKey { key: k }) && k@ == key@))
}

/// Installs a caller-chosen viewing key, overwriting any prior key.
pub fn try_set_key(state: &mut FactoryState, env: &EnvInfo, key: &String) -> (r: Result<
    HandleResponse,
    ContractError,
>)
    requires
        old(state).wf(),
    ensures
        final(state).wf(),
        set_key_post(*old(state), *final(state), *env, *key, r),
{
    state.viewing_keys.set(env.sender.clone(), key);
    proof {
        FactoryState::lemma_wf_same_registry(*old(state), *state);
    }
    Ok(
        HandleResponse {
            messages: Vec::new(),
            log: Vec::new(),
            data: Some(HandleAnswer::ViewingKey { key: key.clone() }),
        },
    )
}

/// Whether the presented viewing key authenticates the address. Reads the
/// state and nothing else: the result is a function of the stored key
/// digests, the address, and the key alone.
pub fn is_key_valid(state: &FactoryState, address: &String, viewing_key: &String) -> (r: bool)
    requires
        state.wf(),
    ensures
        r == state.viewing_keys.key_valid(address@, viewing_key@),
{
    state.viewing_keys.check(address, viewing_key)
}

/// Whether the registry accepts `password` for registration: the pending
/// slot holds exactly this password.
pub open spec fn register_accepts(s: FactoryState, password: Seq<u8>) -> bool {
    s.pending() == Some(password)
}

/// A consumed or overwritten password never authenticates again: once the
/// pending slot is empty, registration is refused for every presented
/// password. Together with `try_register_offspring`'s postcondition that a
/// successful registration empties the slot, at most one registration can
/// succeed per created password.
pub proof fn lemma_register_at_most_once(s: FactoryState)
    requires
        s.pending() is None,
    ensures
        forall|password: Seq<u8>| !register_accepts(s, password),
{
}

/// Everything `try_register_offspring` guarantees: a password mismatch
/// (or empty slot) authenticates nothing and mutates nothing; an
/// already-registered sender is refused; on success the slot is consumed,
/// the exact record is stored, the sender is appended to the global and
/// owner-scoped active indices, nothing else changes, and the response
/// logs the registered address.
pub open spec fn register_offspring_post(
    s0: FactoryState,
    s1: FactoryState,
    env: EnvInfo,
    owner: String,
    reg: RegisterOffspringInfo,
    r: Result<HandleResponse, ContractError>,
) -> bool {
    &&& (!register_accepts(s0, reg.password@) ==> r == Err::<HandleResponse, ContractError>(
        ContractError::AuthenticationFailed,
    ) && s1 == s0)
    &&& (register_accepts(s0, reg.password@) && s0.registered(env.sender@) ==> r == Err::<
        HandleResponse,
        ContractError,
    >(ContractError::InvalidState) && s1 == s0)
    &&& (register_accepts(s0, reg.password@) && !s0.registered(env.sender@) ==> ({
        &&& r matches Ok(resp)
        &&& s1.pending() is None
        &&& s1.records_map() == s0.records_map().insert(
            env.sender@,
            (RegisteredOffspring {
                owner: owner,
                info: StoreOffspringInfo {
                    contract: ContractInfo {
                        code_hash: s0.offspring_code.code_hash,
                        address: env.sender,
                    },
                    label: reg.label,
                },
            }),
        )
        &&& s1.active@ == s0.active@.push(env.sender@)
        &&& s1.owner_active(owner@) == s0.owner_active(owner@).push(env.sender@)
        &&& forall|o: Seq<char>| o != owner@ ==> s1.owner_active(o) == s0.owner_active(o)
        &&& forall|o: Seq<char>| s1.owner_inactive(o) == s0.owner_inactive(o)
        &&& s1.inactive == s0.inactive
        &&& s1.viewing_keys == s0.viewing_keys
        &&& s1.admin == s0.admin
        &&& s1.stopped == s0.stopped
        &&& s1.offspring_code == s0.offspring_code
        &&& s1.prng_seed == s0.prng_seed
        &&& resp.messages@.len() == 0
        &&& resp.log@.len() == 1
        &&& resp.log@[0].key@ == "offspring_address"@
        &&& resp.log@[0].value == env.sender
        &&& resp.data is None
    }))
}

/// Registers the calling offspring: the presented password must exactly
/// match the pending slot, which is consumed; the record is stored and the
/// sender enters the global and owner-scoped active indices.
pub fn try_register_offspring(
    state: &mut FactoryState,
    env: &EnvInfo,
    owner: String,
    reg: &RegisterOffspringInfo,
) -> (r: Result<HandleResponse, ContractError>)
    requires
        old(state).wf(),
    ensures
        final(state).wf(),
        register_offspring_post(*old(state), *final(state), *env, owner, *reg, r),
{
    // verify this is the offspring we are waiting for
    let password_matches = match &state.pending_password {
        Some(p) => bytes_eq(p, &reg.password),
        None => false,
    };
    if !password_matches {
        return Err(ContractError::AuthenticationFailed);
    }
    if state.records.contains_key(&env.sender) {
        return Err(ContractError::InvalidState);
    }
    // consume the slot exactly once
    state.pending_password = None;
    let offspring_info = state.offspring_code.to_contract_info(env.sender.clone());
    let offspring = reg.to_store_offspring_info(offspring_info);
    let rec = RegisteredOffspring { owner, info: offspring };
    proof {
        FactoryState::lemma_wf_same_registry(*old(state), *state);
    }
    state.add_active(rec);
    let mut log: Vec<LogAttribute> = Vec::new();
    log.push(
        LogAttribute { key: String::from_str("offspring_address"), value: env.sender.clone() },
    );
    Ok(HandleResponse { messages: Vec::new(), log, data: None })
}

/// Everything `try_deactivate_offspring` guarantees: an inactive or
/// unknown sender is refused with no mutation, as is an owner that does
/// not match the record; on success the sender moves from the active to
/// the inactive side of both the global and the owner-scoped index pair,
/// the record store and everything else stay untouched, and the response
/// is empty.
pub open spec fn deactivate_offspring_post(
    s0: FactoryState,
    s1: FactoryState,
    env: EnvInfo,
    owner: String,
    r: Result<HandleResponse, ContractError>,
) -> bool {
    &&& (!s0.active@.contains(env.sender@) ==> r == Err::<HandleResponse, ContractError>(
        ContractError::InvalidState,
    ) && s1 == s0)
    &&& (s0.active@.contains(env.sender@) && s0.records_map()[env.sender@].owner@ != owner@ ==> r
        == Err::<HandleResponse, ContractError>(ContractError::Unauthorized) && s1 == s0)
    &&& (s0.active@.contains(env.sender@) && s0.records_map()[env.sender@].owner@ == owner@
        ==> ({
        &&& r matches Ok(resp)
        &&& s1.records_map() == s0.records_map()
        &&& s1.active@ == s0.active@.remove(s0.active@.index_of(env.sender@))
        &&& !s1.active@.contains(env.sender@)
        &&& s1.inactive@ == s0.inactive@.push(env.sender@)
        &&& s1.owner_active(owner@) == s0.owner_active(owner@).remove(
            s0.owner_active(owner@).index_of(env.sender@),
        )
        &&& s1.owner_inactive(owner@) == s0.owner_inactive(owner@).push(env.sender@)
        &&& forall|o2: Seq<char>|
            o2 != owner@ ==> s1.owner_active(o2) == s0.owner_active(o2) && s1.owner_inactive(o2)
                == s0.owner_inactive(o2)
        &&& s1.viewing_keys == s0.viewing_keys
        &&& s1.admin == s0.admin
        &&& s1.stopped == s0.stopped
        &&& s1.offspring_code == s0.offspring_code
        &&& s1.prng_seed == s0.prng_seed
        &&& s1.pending_password == s0.pending_password
        &&& resp.messages@.len() == 0
        &&& resp.log@.len() == 0
        &&& resp.data is None
    }))
}

/// Deactivates the calling offspring: the sender must currently be
/// active, and the reported owner must be the owner it registered with;
/// the address then moves from the active to the inactive side of both
/// index pairs. No password is re-checked: unlike registration, this
/// step trusts the transport-verified sender identity, so a transport
/// that allowed sender spoofing would also allow forged deactivations.
pub fn try_deactivate_offspring(state: &mut FactoryState, env: &EnvInfo, owner: &String) -> (r:
    Result<HandleResponse, ContractError>)
    requires
        old(state).wf(),
    ensures
        final(state).wf(),
        deactivate_offspring_post(*old(state), *final(state), *env, *owner, r),
{
    let offspring_addr = &env.sender;
    // verify the offspring is in the active list
    if !state.active.contains(offspring_addr) {
        return Err(ContractError::InvalidState);
    }
    proof {
        assert(old(state).registered(env.sender@));
    }
    let owner_matches = match state.records.get(offspring_addr) {
        Some(rec) => rec.owner == *owner,
        None => false,
    };
    if !owner_matches {
        return Err(ContractError::Unauthorized);
    }
    state.move_to_inactive(offspring_addr);
    Ok(HandleResponse { messages: Vec::new(), log: Vec::new(), data: None })
}

/// The effective start page: 0 when unset.
pub open spec fn eff_start(p: Option<u32>) -> nat {
    match p {
        Some(v) => v as nat,
        None => 0,
    }
}

/// The effective page size: the default when unset.
pub open spec fn eff_size(p: Option<u32>) -> nat {
    match p {
        Some(v) => v as nat,
        None => crate::DEFAULT_PAGE_SIZE as nat,
    }
}

/// The effective filter: both categories when unset.
pub open spec fn eff_filter(f: Option<FilterTypes>) -> FilterTypes {
    match f {
        Some(v) => v,
        None => FilterTypes::All,
    }
}

/// The view of an optional owner argument.
pub open spec fn opt_view(o: Option<&String>) -> Option<Seq<char>> {
    match o {
        Some(x) => Some(x@),
        None => None,
    }
}

/// The index enumerated by a listing: the global or owner-scoped index of
/// the selected category. `All` selects nothing; listings reject it.
pub open spec fn selected_keys(
    s: FactoryState,
    owner: Option<Seq<char>>,
    filter: FilterTypes,
) -> Seq<Seq<char>> {
    match filter {
        FilterTypes::Active => match owner {
            Some(o) => s.owner_active(o),
            None => s.active@,
        },
        FilterTypes::Inactive => match owner {
            Some(o) => s.owner_inactive(o),
            None => s.inactive@,
        },
        FilterTypes::All => Seq::empty(),
    }
}

/// What a listing returns: one page of the selected index, each address
/// resolved to its stored record.
pub open spec fn listing(
    s: FactoryState,
    owner: Option<Seq<char>>,
    filter: FilterTypes,
    start: nat,
    size: nat,
) -> Seq<StoreOffspringInfo> {
    crate::index::page_of(selected_keys(s, owner, filter), start, size).map_values(
        |a: Seq<char>| s.records_map()[a].info,
    )
}

/// Pages the selected index and resolves each address to its record.
/// `All` is rejected as a malformed filter. Under the registry invariant
/// every paged address resolves, so the internal-consistency failure can
/// never be reached.
pub fn display_active_or_inactive_list(
    state: &FactoryState,
    owner: Option<&String>,
    filter: FilterTypes,
    start_page: Option<u32>,
    page_size: Option<u32>,
) -> (r: Result<Vec<StoreOffspringInfo>, ContractError>)
    requires
        state.wf(),
    ensures
        filter is All ==> r == Err::<Vec<StoreOffspringInfo>, ContractError>(
            ContractError::BadRequest,
        ),
        !(filter is All) ==> (r matches Ok(list) && list@ == listing(
            *state,
            opt_view(owner),
            filter,
            eff_start(start_page),
            eff_size(page_size),
        )),
{
    let start: u32 = match start_page {
        Some(v) => v,
        None => 0,
    };
    let size: u32 = match page_size {
        Some(v) => v,
        None => crate::DEFAULT_PAGE_SIZE,
    };
    let ghost sel = selected_keys(*state, opt_view(owner), filter);
    let keys: Vec<String> = match filter {
        FilterTypes::Active => match owner {
            Some(owner_addr) => match state.owners_active.get(owner_addr) {
                Some(lst) => lst.page(start, size),
                None => Vec::new(),
            },
            None => state.active.page(start, size),
        },
        FilterTypes::Inactive => match owner {
            Some(owner_addr) => match state.owners_inactive.get(owner_addr) {
                Some(lst) => lst.page(start, size),
                None => Vec::new(),
            },
            None => state.inactive.page(start, size),
        },
        FilterTypes::All => {
            return Err(ContractError::BadRequest);
        },
    };
    let ghost paged = crate::index::page_of(sel, start as nat, size as nat);
    proof {
        assert(crate::index::addr_view(keys@) =~= paged);
        assert forall|a: Seq<char>| #[trigger] sel.contains(a) implies state.registered(a) by {
            match owner {
                Some(owner_addr) => {
                    if filter is Active {
                        assert(state.owner_active_has(owner_addr@, a));
                    } else {
                        assert(state.owner_inactive_has(owner_addr@, a));
                    }
                },
                None => {},
            }
        }
    }
    let n = keys.len();
    let mut list: Vec<StoreOffspringInfo> = Vec::new();
    let mut i: usize = 0;
    while i < n
        invariant
            n == keys@.len(),
            i <= n,
            list@.len() == i,
            forall|j: int|
                0 <= j < i ==> list@[j] == state.records_map()[paged[j]].info,
        decreases n - i,
    {
        proof {
            assert(paged[i as int] == keys@[i as int]@);
            if paged.len() > 0 {
                assert(sel.contains(paged[i as int]));
            }
            assert(state.registered(keys@[i as int]@));
        }
        match state.records.get(&keys[i]) {
            Some(rec) => {
                let info = rec.info.clone();
                list.push(info);
            },
            None => {
                // unreachable under the registry invariant
                proof {
                    assert(false);
                }
                return Err(ContractError::InternalConsistency);
            },
        }
        i = i + 1;
    }
    proof {
        assert(list@ =~= listing(
            *state,
            opt_view(owner),
            filter,
            eff_start(start_page),
            eff_size(page_size),
        ));
    }
    Ok(list)
}

/// Answers whether an address/key pair is valid.
pub fn try_validate_key(state: &FactoryState, address: &String, viewing_key: &String) -> (r: Result<
    QueryAnswer,
    ContractError,
>)
    requires
        state.wf(),
    ensures
        r matches Ok(QueryAnswer::IsKeyValid { is_valid }) && is_valid
            == state.viewing_keys.key_valid(address@, viewing_key@),
{
    Ok(QueryAnswer::IsKeyValid { is_valid: is_key_valid(state, address, viewing_key) })
}

/// Lists one page of the active offspring.
pub fn try_list_active(state: &FactoryState, start_page: Option<u32>, page_size: Option<u32>) -> (r:
    Result<QueryAnswer, ContractError>)
    requires
        state.wf(),
    ensures
        r matches Ok(QueryAnswer::ListActiveOffspring { active }) && active@ == listing(
            *state,
            None,
            FilterTypes::Active,
            eff_start(start_page),
            eff_size(page_size),
        ),
{
    let list = match display_active_or_inactive_list(
        state,
        None,
        FilterTypes::Active,
        start_page,
        page_size,
    ) {
        Ok(l) => l,
        Err(e) => {
            proof {
                assert(false);
            }
            return Err(e);
        },
    };
    Ok(QueryAnswer::ListActiveOffspring { active: list })
}

/// Lists one page of the inactive offspring.
pub fn try_list_inactive(state: &FactoryState, start_page: Option<u32>, page_size: Option<u32>) -> (
    r: Result<QueryAnswer, ContractError>)
    requires
        state.wf(),
    ensures
        r matches Ok(QueryAnswer::ListInactiveOffspring { inactive }) && inactive@ == listing(
            *state,
            None,
            FilterTypes::Inactive,
            eff_start(start_page),
            eff_size(page_size),
        ),
{
    let list = match display_active_or_inactive_list(
        state,
        None,
        FilterTypes::Inactive,
        start_page,
        page_size,
    ) {
        Ok(l) => l,
        Err(e) => {
            proof {
                assert(false);
            }
            return Err(e);
        },
    };
    Ok(QueryAnswer::ListInactiveOffspring { inactive: list })
}

/// Lists the offspring owned by `address`, after validating its viewing
/// key. On a failed validation a distinguished error answer is returned
/// and no list contents are revealed. A category that was not requested
/// stays unset.
pub fn try_list_my(
    state: &FactoryState,
    address: &String,
    viewing_key: &String,
    filter: Option<FilterTypes>,
    start_page: Option<u32>,
    page_size: Option<u32>,
) -> (r: Result<QueryAnswer, ContractError>)
    requires
        state.wf(),
    ensures
        !state.viewing_keys.key_valid(address@, viewing_key@) ==> (r matches Ok(
            QueryAnswer::ViewingKeyError { error },
        ) && error@ == "Wrong viewing key for this address or viewing key not set"@),
        state.viewing_keys.key_valid(address@, viewing_key@) ==> ({
            let types = eff_filter(filter);
            &&& r matches Ok(QueryAnswer::ListMyOffspring { active, inactive })
            &&& (active is Some <==> (types is Active || types is All))
            &&& (inactive is Some <==> (types is Inactive || types is All))
            &&& (active matches Some(l) ==> l@ == listing(
                *state,
                Some(address@),
                FilterTypes::Active,
                eff_start(start_page),
                eff_size(page_size),
            ))
            &&& (inactive matches Some(l) ==> l@ == listing(
                *state,
                Some(address@),
                FilterTypes::Inactive,
                eff_start(start_page),
                eff_size(page_size),
            ))
        }),
{
    if !is_key_valid(state, address, viewing_key) {
        return Ok(
            QueryAnswer::ViewingKeyError {
                error: String::from_str(
                    "Wrong viewing key for this address or viewing key not set",
                ),
            },
        );
    }
    let mut active_list: Option<Vec<StoreOffspringInfo>> = None;
    let mut inactive_list: Option<Vec<StoreOffspringInfo>> = None;
    // if no filter, default to All
    let types: FilterTypes = match filter {
        Some(f) => f,
        None => FilterTypes::All,
    };
    if types == FilterTypes::Active || types == FilterTypes::All {
        let list = match display_active_or_inactive_list(
            state,
            Some(address),
            FilterTypes::Active,
            start_page,
            page_size,
        ) {
            Ok(l) => l,
            Err(e) => {
                proof {
                    assert(false);
                }
                return Err(e);
            },
        };
        active_list = Some(list);
    }
    if types == FilterTypes::Inactive || types == FilterTypes::All {
        let list = match display_active_or_inactive_list(
            state,
            Some(address),
            FilterTypes::Inactive,
            start_page,
            page_size,
        ) {
            Ok(l) => l,
            Err(e) => {
                proof {
                    assert(false);
                }
                return Err(e);
            },
        };
        inactive_list = Some(list);
    }
    Ok(QueryAnswer::ListMyOffspring { active: active_list, inactive: inactive_list })
}

/// Routes a query to its handler.
pub fn query(state: &FactoryState, msg: QueryMsg) -> (r: Result<QueryAnswer, ContractError>)
    requires
        state.wf(),
    ensures
        match msg {
            QueryMsg::ListMyOffspring { address, viewing_key, filter, start_page, page_size } => {
                &&& (!state.viewing_keys.key_valid(address@, viewing_key@) ==> (r matches Ok(
                    QueryAnswer::ViewingKeyError { error },
                ) && error@ == "Wrong viewing key for this address or viewing key not set"@))
                &&& (state.viewing_keys.key_valid(address@, viewing_key@) ==> ({
                    let types = eff_filter(filter);
                    &&& r matches Ok(QueryAnswer::ListMyOffspring { active, inactive })
                    &&& (active is Some <==> (types is Active || types is All))
                    &&& (inactive is Some <==> (types is Inactive || types is All))
                    &&& (active matches Some(l) ==> l@ == listing(
                        *state,
                        Some(address@),
                        FilterTypes::Active,
                        eff_start(start_page),
                        eff_size(page_size),
                    ))
                    &&& (inactive matches Some(l) ==> l@ == listing(
                        *state,
                        Some(address@),
                        FilterTypes::Inactive,
                        eff_start(start_page),
                        eff_size(page_size),
                    ))
                }))
            },
            QueryMsg::ListActiveOffspring { start_page, page_size } => r matches Ok(
                QueryAnswer::ListActiveOffspring { active },
            ) && active@ == listing(
                *state,
                None,
                FilterTypes::Active,
                eff_start(start_page),
                eff_size(page_size),
            ),
            QueryMsg::ListInactiveOffspring { start_page, page_size } => r matches Ok(
                QueryAnswer::ListInactiveOffspring { inactive },
            ) && inactive@ == listing(
                *state,
                None,
                FilterTypes::Inactive,
                eff_start(start_page),
                eff_size(page_size),
            ),
            QueryMsg::IsKeyValid { address, viewing_key } => r matches Ok(
                QueryAnswer::IsKeyValid { is_valid },
            ) && is_valid == state.viewing_keys.key_valid(address@, viewing_key@),
        },
{
    match msg {
        QueryMsg::ListMyOffspring { address, viewing_key, filter, start_page, page_size } => {
            try_list_my(state, &address, &viewing_key, filter, start_page, page_size)
        },
        QueryMsg::ListActiveOffspring { start_page, page_size } => {
            try_list_active(state, start_page, page_size)
        },
        QueryMsg::ListInactiveOffspring { start_page, page_size } => {
            try_list_inactive(state, start_page, page_size)
        },
        QueryMsg::IsKeyValid { address, viewing_key } => {
            try_validate_key(state, &address, &viewing_key)
        },
    }
}

/// Routes an execute message to its handler.
pub fn handle(state: &mut FactoryState, env: &EnvInfo, msg: ExecuteMsg) -> (r: Result<
    HandleResponse,
    ContractError,
>)
    requires
        old(state).wf(),
    ensures
        final(state).wf(),
        match msg {
            ExecuteMsg::CreateOffspring { label, entropy, owner, count, description } => {
                create_offspring_post(
                    *old(state),
                    *final(state),
                    *env,
                    label,
                    entropy,
                    owner,
                    count,
                    description,
                    r,
                )
            },
            ExecuteMsg::RegisterOffspring { owner, offspring } => {
                register_offspring_post(*old(state), *final(state), *env, owner, offspring, r)
            },
            ExecuteMsg::DeactivateOffspring { owner } => {
                deactivate_offspring_post(*old(state), *final(state), *env, owner, r)
            },
            ExecuteMsg::NewOffspringContract { offspring_code_info } => {
                new_contract_post(*old(state), *final(state), *env, offspring_code_info, r)
            },
            ExecuteMsg::CreateViewingKey { entropy } => {
                create_key_post(*old(state), *final(state), *env, entropy, r)
            },
            ExecuteMsg::SetViewingKey { key, padding } => {
                set_key_post(*old(state), *final(state), *env, key, r)
            },
            ExecuteMsg::SetStatus { stop } => {
                set_status_post(*old(state), *final(state), *env, stop, r)
            },
        },
{
    match msg {
        ExecuteMsg::CreateOffspring { label, entropy, owner, count, description } => {
            try_create_offspring(state, env, label, entropy, owner, count, description)
        },
        ExecuteMsg::RegisterOffspring { owner, offspring } => {
            try_register_offspring(state, env, owner, &offspring)
        },
        ExecuteMsg::DeactivateOffspring { owner } => try_deactivate_offspring(state, env, &owner),
        ExecuteMsg::NewOffspringContract { offspring_code_info } => {
            try_new_contract(state, env, offspring_code_info)
        },
        ExecuteMsg::CreateViewingKey { entropy } => try_create_key(state, env, entropy),
        ExecuteMsg::SetViewingKey { key, padding: _ } => try_set_key(state, env, &key),
        ExecuteMsg::SetStatus { stop } => try_set_status(state, env, stop),
    }
}

} // verus!
