//! Broadcast payloads of account deployments, their fee checks, and the
//! identifiers derived from them.

use vstd::prelude::*;
use crate::felt::{
    Felt, byte_of, u128_felt, felts_view, exec_byte_of, is_canonical, all_canonical,
    all_canonical_exec,
};
use crate::hashing::{
    pedersen_on_elements, poseidon_on_elements, contract_address_of, hash_on_elements,
    poseidon_many, contract_address,
};

verus! {

/// The short string "deploy_account", the prefix of deployment hashes.
pub const DEPLOY_ACCOUNT_PREFIX: u128 = 0x6465706c6f795f6163636f756e74;

/// The short string "L1_GAS", the name of the L1 gas resource.
pub const L1_GAS_NAME: u128 = 0x4c315f474153;

/// The short string "L2_GAS", the name of the L2 gas resource.
pub const L2_GAS_NAME: u128 = 0x4c325f474153;

/// Where the data of a transaction is to be made available.
#[derive(Clone, Copy, Debug, PartialEq, Eq, Structural)]
pub enum DataAvailabilityMode {
    L1,
    L2,
}

/// The most of one resource that a transaction may use, and the most it pays
/// for each unit of it.
#[derive(Clone, Copy, Debug, PartialEq, Eq, Structural)]
pub struct ResourceBounds {
    pub max_amount: u64,
    pub max_price_per_unit: u128,
}

/// The bounds on the chargeable resources of a V3 transaction.
#[derive(Clone, Copy, Debug, PartialEq, Eq, Structural)]
pub struct ResourceBoundsWrapper {
    pub l1_gas: ResourceBounds,
    pub l2_gas: ResourceBounds,
}

impl ResourceBoundsWrapper {
    pub fn new(
        l1_gas_max_amount: u64,
        l1_gas_max_price_per_unit: u128,
        l2_gas_max_amount: u64,
        l2_gas_max_price_per_unit: u128,
    ) -> (r: ResourceBoundsWrapper)
        ensures
            r.l1_gas.max_amount == l1_gas_max_amount,
            r.l1_gas.max_price_per_unit == l1_gas_max_price_per_unit,
            r.l2_gas.max_amount == l2_gas_max_amount,
            r.l2_gas.max_price_per_unit == l2_gas_max_price_per_unit,
    {
        ResourceBoundsWrapper {
            l1_gas: ResourceBounds {
                max_amount: l1_gas_max_amount,
                max_price_per_unit: l1_gas_max_price_per_unit,
            },
            l2_gas: ResourceBounds {
                max_amount: l2_gas_max_amount,
                max_price_per_unit: l2_gas_max_price_per_unit,
            },
        }
    }

    /// The most that the transaction could pay: the sum over the resources of
    /// amount times unit price.
    pub open spec fn fee_potential(self) -> int {
        self.l1_gas.max_amount as int * self.l1_gas.max_price_per_unit as int
            + self.l2_gas.max_amount as int * self.l2_gas.max_price_per_unit as int
    }
}

/// A legacy deployment request, with a single maximal fee.
#[derive(Debug)]
pub struct BroadcastedDeployAccountTransactionV1 {
    pub signature: Vec<Felt>,
    pub max_fee: u128,
    pub nonce: Felt,
    pub version: Felt,
    pub contract_address_salt: Felt,
    pub constructor_calldata: Vec<Felt>,
    pub class_hash: Felt,
}

/// The fields that V3 transactions of every kind carry.
#[derive(Debug)]
pub struct BroadcastedTransactionCommonV3 {
    pub version: Felt,
    pub signature: Vec<Felt>,
    pub nonce: Felt,
    pub resource_bounds: ResourceBoundsWrapper,
    pub tip: u64,
    pub paymaster_data: Vec<Felt>,
    pub nonce_data_availability_mode: DataAvailabilityMode,
    pub fee_data_availability_mode: DataAvailabilityMode,
}

/// A deployment request in the resource-bounds fee model.
#[derive(Debug)]
pub struct BroadcastedDeployAccountTransactionV3 {
    pub common: BroadcastedTransactionCommonV3,
    pub contract_address_salt: Felt,
    pub constructor_calldata: Vec<Felt>,
    pub class_hash: Felt,
}

/// A deployment request as the client sent it, tagged with its version.
#[derive(Debug)]
pub enum BroadcastedDeployAccountTransaction {
    V1(BroadcastedDeployAccountTransactionV1),
    V3(BroadcastedDeployAccountTransactionV3),
}

fn copy_felts(v: &Vec<Felt>) -> (r: Vec<Felt>)
    ensures
        r@ == v@,
{
    let mut r: Vec<Felt> = Vec::new();
    let mut i: usize = 0;
    while i < v.len()
        invariant
            i <= v@.len(),
            r@ == v@.subrange(0, i as int),
        decreases v@.len() - i,
    {
        r.push(v[i]);
        i = i + 1;
        assert(r@ =~= v@.subrange(0, i as int));
    }
    assert(r@ =~= v@);
    r
}

impl BroadcastedDeployAccountTransactionV1 {
    /// A payload from its fields, in the order of the legacy constructor.
    pub fn new(
        constructor_calldata: &Vec<Felt>,
        max_fee: u128,
        signature: &Vec<Felt>,
        nonce: Felt,
        class_hash: Felt,
        contract_address_salt: Felt,
        version: Felt,
    ) -> (r: BroadcastedDeployAccountTransactionV1)
        ensures
            r.constructor_calldata@ == constructor_calldata@,
            r.max_fee == max_fee,
            r.signature@ == signature@,
            r.nonce == nonce,
            r.class_hash == class_hash,
            r.contract_address_salt == contract_address_salt,
            r.version == version,
    {
        BroadcastedDeployAccountTransactionV1 {
            signature: copy_felts(signature),
            max_fee,
            nonce,
            version,
            contract_address_salt,
            constructor_calldata: copy_felts(constructor_calldata),
            class_hash,
        }
    }

    /// The same payload.
    pub fn duplicate(&self) -> (r: BroadcastedDeployAccountTransactionV1)
        ensures
            r.same(*self),
    {
        BroadcastedDeployAccountTransactionV1 {
            signature: copy_felts(&self.signature),
            max_fee: self.max_fee,
            nonce: self.nonce,
            version: self.version,
            contract_address_salt: self.contract_address_salt,
            constructor_calldata: copy_felts(&self.constructor_calldata),
            class_hash: self.class_hash,
        }
    }

    /// Field by field equality.
    pub open spec fn same(self, o: Self) -> bool {
        &&& self.signature@ == o.signature@
        &&& self.max_fee == o.max_fee
        &&& self.nonce == o.nonce
        &&& self.version == o.version
        &&& self.contract_address_salt == o.contract_address_salt
        &&& self.constructor_calldata@ == o.constructor_calldata@
        &&& self.class_hash == o.class_hash
    }

    /// Whether every field element of the payload is below the prime.
    pub open spec fn is_canonical(self) -> bool {
        &&& all_canonical(self.signature@)
        &&& is_canonical(self.nonce.bytes@)
        &&& is_canonical(self.version.bytes@)
        &&& is_canonical(self.contract_address_salt.bytes@)
        &&& all_canonical(self.constructor_calldata@)
        &&& is_canonical(self.class_hash.bytes@)
    }

    /// Whether every field element of the payload is below the prime.
    pub fn fields_are_canonical(&self) -> (r: bool)
        ensures
            r == self.is_canonical(),
    {
        all_canonical_exec(&self.signature) && self.nonce.is_canonical()
            && self.version.is_canonical() && self.contract_address_salt.is_canonical()
            && all_canonical_exec(&self.constructor_calldata) && self.class_hash.is_canonical()
    }

    /// The address of the deployed account: it depends on the salt, the class
    /// hash and the constructor calldata, with the zero deployer.
    pub open spec fn address_spec(self) -> Seq<u8> {
        contract_address_of(
            self.contract_address_salt.bytes@,
            self.class_hash.bytes@,
            felts_view(self.constructor_calldata@),
            u128_felt(0),
        )
    }

    /// The transaction hash on the chain `chain_id`: the Pedersen hash of the
    /// deployment prefix, the version, the address, a zero entry point, the
    /// hash of class, salt and calldata, the fee, the chain and the nonce.
    pub open spec fn hash_spec(self, chain_id: Seq<u8>) -> Seq<u8> {
        pedersen_on_elements(
            seq![
                u128_felt(DEPLOY_ACCOUNT_PREFIX),
                self.version.bytes@,
                self.address_spec(),
                u128_felt(0),
                pedersen_on_elements(
                    seq![self.class_hash.bytes@, self.contract_address_salt.bytes@]
                        + felts_view(self.constructor_calldata@),
                ),
                u128_felt(self.max_fee),
                chain_id,
                self.nonce.bytes@,
            ],
        )
    }

    /// The address of the account that this payload deploys.
    pub fn contract_address(&self) -> (r: Felt)
        ensures
            r.bytes@ == self.address_spec(),
    {
        let deployer = Felt::zero();
        contract_address(
            &self.contract_address_salt,
            &self.class_hash,
            &self.constructor_calldata,
            &deployer,
        )
    }

    /// The hash of this payload on the chain `chain_id`.
    pub fn transaction_hash(&self, chain_id: &Felt, address: &Felt) -> (r: Felt)
        requires
            address.bytes@ == self.address_spec(),
        ensures
            r.bytes@ == self.hash_spec(chain_id.bytes@),
    {
        let mut inner: Vec<Felt> = Vec::new();
        inner.push(self.class_hash);
        inner.push(self.contract_address_salt);
        let mut i: usize = 0;
        while i < self.constructor_calldata.len()
            invariant
                i <= self.constructor_calldata@.len(),
                inner@ == seq![self.class_hash, self.contract_address_salt]
                    + self.constructor_calldata@.subrange(0, i as int),
            decreases self.constructor_calldata@.len() - i,
        {
            inner.push(self.constructor_calldata[i]);
            i = i + 1;
            assert(inner@ =~= seq![self.class_hash, self.contract_address_salt]
                + self.constructor_calldata@.subrange(0, i as int));
        }
        assert(self.constructor_calldata@.subrange(0, i as int) =~= self.constructor_calldata@);
        assert(felts_view(inner@) =~= seq![self.class_hash.bytes@, self.contract_address_salt.bytes@]
            + felts_view(self.constructor_calldata@));
        let calldata_hash = hash_on_elements(&inner);
        let mut outer: Vec<Felt> = Vec::new();
        outer.push(Felt::from_u128(DEPLOY_ACCOUNT_PREFIX));
        outer.push(self.version);
        outer.push(*address);
        outer.push(Felt::zero());
        outer.push(calldata_hash);
        outer.push(Felt::from_u128(self.max_fee));
        outer.push(*chain_id);
        outer.push(self.nonce);
        let r = hash_on_elements(&outer);
        assert(felts_view(outer@) =~= seq![
            u128_felt(DEPLOY_ACCOUNT_PREFIX),
            self.version.bytes@,
            self.address_spec(),
            u128_felt(0),
            pedersen_on_elements(
                seq![self.class_hash.bytes@, self.contract_address_salt.bytes@]
                    + felts_view(self.constructor_calldata@),
            ),
            u128_felt(self.max_fee),
            chain_id.bytes@,
            self.nonce.bytes@,
        ]);
        r
    }
}

/// The encoding of one resource bound: the resource's name, then the amount
/// in 64 bits, then the unit price in 128 bits.
pub open spec fn bound_felt(name: u128, b: ResourceBounds) -> Seq<u8> {
    Seq::new(
        32,
        |i: int|
            if i < 2 {
                0u8
            } else if i < 8 {
                byte_of(name, (7 - i) as nat)
            } else if i < 16 {
                byte_of(b.max_amount as u128, (15 - i) as nat)
            } else {
                byte_of(b.max_price_per_unit, (31 - i) as nat)
            },
    )
}

/// The number that stands for a data availability mode.
pub open spec fn da_value(m: DataAvailabilityMode) -> u128 {
    match m {
        DataAvailabilityMode::L1 => 0,
        DataAvailabilityMode::L2 => 1,
    }
}

/// Both data availability modes in one number: the nonce's mode shifted by
/// 32 bits, plus the fee's mode.
pub open spec fn da_modes_value(nonce_mode: DataAvailabilityMode, fee_mode: DataAvailabilityMode) -> u128 {
    (da_value(nonce_mode) * 0x1_0000_0000 + da_value(fee_mode)) as u128
}

fn bound_felt_exec(name: u128, b: ResourceBounds) -> (r: Felt)
    requires
        name < 0x1_0000_0000_0000,
    ensures
        r.bytes@ == bound_felt(name, b),
{
    let mut bytes: [u8; 32] = [0u8; 32];
    let mut i: usize = 0;
    while i < 32
        invariant
            0 <= i <= 32,
            bytes@.len() == 32,
            forall|j: int| 0 <= j < i ==> bytes@[j] == bound_felt(name, b)[j],
        decreases 32 - i,
    {
        let v: u8 = if i < 2 {
            0u8
        } else if i < 8 {
            exec_byte_of(name, (7 - i) as u32)
        } else if i < 16 {
            exec_byte_of(b.max_amount as u128, (15 - i) as u32)
        } else {
            exec_byte_of(b.max_price_per_unit, (31 - i) as u32)
        };
        bytes[i] = v;
        i = i + 1;
    }
    assert(bytes@ =~= bound_felt(name, b));
    Felt { bytes }
}

fn da_modes_exec(nonce_mode: DataAvailabilityMode, fee_mode: DataAvailabilityMode) -> (r: u128)
    ensures
        r == da_modes_value(nonce_mode, fee_mode),
{
    let n: u128 = match nonce_mode {
        DataAvailabilityMode::L1 => 0,
        DataAvailabilityMode::L2 => 1,
    };
    let f: u128 = match fee_mode {
        DataAvailabilityMode::L1 => 0,
        DataAvailabilityMode::L2 => 1,
    };
    n * 0x1_0000_0000 + f
}

impl BroadcastedTransactionCommonV3 {
    /// Whether the resource bounds allow no fee at all.
    pub fn is_max_fee_zero_value(&self) -> (r: bool)
        ensures
            r == (self.resource_bounds.fee_potential() == 0),
    {
        let l1 = self.resource_bounds.l1_gas;
        let l2 = self.resource_bounds.l2_gas;
        proof {
            let a1 = l1.max_amount as int;
            let p1 = l1.max_price_per_unit as int;
            let a2 = l2.max_amount as int;
            let p2 = l2.max_price_per_unit as int;
            assert(a1 * p1 >= 0 && a2 * p2 >= 0) by (nonlinear_arith)
                requires a1 >= 0, p1 >= 0, a2 >= 0, p2 >= 0;
            assert((a1 * p1 == 0) == (a1 == 0 || p1 == 0)) by (nonlinear_arith)
                requires a1 >= 0, p1 >= 0;
            assert((a2 * p2 == 0) == (a2 == 0 || p2 == 0)) by (nonlinear_arith)
                requires a2 >= 0, p2 >= 0;
        }
        (l1.max_amount == 0 || l1.max_price_per_unit == 0)
            && (l2.max_amount == 0 || l2.max_price_per_unit == 0)
    }

    /// Field by field equality.
    pub open spec fn same(self, o: Self) -> bool {
        &&& self.version == o.version
        &&& self.signature@ == o.signature@
        &&& self.nonce == o.nonce
        &&& self.resource_bounds == o.resource_bounds
        &&& self.tip == o.tip
        &&& self.paymaster_data@ == o.paymaster_data@
        &&& self.nonce_data_availability_mode == o.nonce_data_availability_mode
        &&& self.fee_data_availability_mode == o.fee_data_availability_mode
    }
}

impl BroadcastedDeployAccountTransactionV3 {
    /// The same payload.
    pub fn duplicate(&self) -> (r: BroadcastedDeployAccountTransactionV3)
        ensures
            r.same(*self),
    {
        BroadcastedDeployAccountTransactionV3 {
            common: BroadcastedTransactionCommonV3 {
                version: self.common.version,
                signature: copy_felts(&self.common.signature),
                nonce: self.common.nonce,
                resource_bounds: self.common.resource_bounds,
                tip: self.common.tip,
                paymaster_data: copy_felts(&self.common.paymaster_data),
                nonce_data_availability_mode: self.common.nonce_data_availability_mode,
                fee_data_availability_mode: self.common.fee_data_availability_mode,
            },
            contract_address_salt: self.contract_address_salt,
            constructor_calldata: copy_felts(&self.constructor_calldata),
            class_hash: self.class_hash,
        }
    }

    /// Field by field equality.
    pub open spec fn same(self, o: Self) -> bool {
        &&& self.common.same(o.common)
        &&& self.contract_address_salt == o.contract_address_salt
        &&& self.constructor_calldata@ == o.constructor_calldata@
        &&& self.class_hash == o.class_hash
    }

    /// The address of the deployed account: it depends on the salt, the class
    /// hash and the constructor calldata, with the zero deployer.
    pub open spec fn address_spec(self) -> Seq<u8> {
        contract_address_of(
            self.contract_address_salt.bytes@,
            self.class_hash.bytes@,
            felts_view(self.constructor_calldata@),
            u128_felt(0),
        )
    }

    /// Whether every field element of the payload is below the prime.
    pub open spec fn is_canonical(self) -> bool {
        &&& is_canonical(self.common.version.bytes@)
        &&& all_canonical(self.common.signature@)
        &&& is_canonical(self.common.nonce.bytes@)
        &&& all_canonical(self.common.paymaster_data@)
        &&& is_canonical(self.contract_address_salt.bytes@)
        &&& all_canonical(self.constructor_calldata@)
        &&& is_canonical(self.class_hash.bytes@)
    }

    /// Whether every field element of the payload is below the prime.
    pub fn fields_are_canonical(&self) -> (r: bool)
        ensures
            r == self.is_canonical(),
    {
        self.common.version.is_canonical() && all_canonical_exec(&self.common.signature)
            && self.common.nonce.is_canonical() && all_canonical_exec(&self.common.paymaster_data)
            && self.contract_address_salt.is_canonical()
            && all_canonical_exec(&self.constructor_calldata) && self.class_hash.is_canonical()
    }

    /// The hash of the tip and the resource bounds.
    pub open spec fn fee_fields_hash(self) -> Seq<u8> {
        poseidon_on_elements(
            seq![
                u128_felt(self.common.tip as u128),
                bound_felt(L1_GAS_NAME, self.common.resource_bounds.l1_gas),
                bound_felt(L2_GAS_NAME, self.common.resource_bounds.l2_gas),
            ],
        )
    }

    /// The transaction hash on the chain `chain_id`: the Poseidon hash of the
    /// deployment prefix, the version, the address, the hash of tip and
    /// bounds, the hash of the paymaster data, the chain, the nonce, the data
    /// availability modes, the hash of the calldata, the class hash and the
    /// salt.
    pub open spec fn hash_spec(self, chain_id: Seq<u8>) -> Seq<u8> {
        poseidon_on_elements(
            seq![
                u128_felt(DEPLOY_ACCOUNT_PREFIX),
                self.common.version.bytes@,
                self.address_spec(),
                self.fee_fields_hash(),
                poseidon_on_elements(felts_view(self.common.paymaster_data@)),
                chain_id,
                self.common.nonce.bytes@,
                u128_felt(
                    da_modes_value(
                        self.common.nonce_data_availability_mode,
                        self.common.fee_data_availability_mode,
                    ),
                ),
                poseidon_on_elements(felts_view(self.constructor_calldata@)),
                self.class_hash.bytes@,
                self.contract_address_salt.bytes@,
            ],
        )
    }

    /// The address of the account that this payload deploys.
    pub fn contract_address(&self) -> (r: Felt)
        ensures
            r.bytes@ == self.address_spec(),
    {
        let deployer = Felt::zero();
        contract_address(
            &self.contract_address_salt,
            &self.class_hash,
            &self.constructor_calldata,
            &deployer,
        )
    }

    /// The hash of this payload on the chain `chain_id`.
    pub fn transaction_hash(&self, chain_id: &Felt, address: &Felt) -> (r: Felt)
        requires
            address.bytes@ == self.address_spec(),
        ensures
            r.bytes@ == self.hash_spec(chain_id.bytes@),
    {
        let mut fee_fields: Vec<Felt> = Vec::new();
        fee_fields.push(Felt::from_u128(self.common.tip as u128));
        fee_fields.push(bound_felt_exec(L1_GAS_NAME, self.common.resource_bounds.l1_gas));
        fee_fields.push(bound_felt_exec(L2_GAS_NAME, self.common.resource_bounds.l2_gas));
        assert(felts_view(fee_fields@) =~= seq![
            u128_felt(self.common.tip as u128),
            bound_felt(L1_GAS_NAME, self.common.resource_bounds.l1_gas),
            bound_felt(L2_GAS_NAME, self.common.resource_bounds.l2_gas),
        ]);
        let fee_hash = poseidon_many(&fee_fields);
        let paymaster_hash = poseidon_many(&self.common.paymaster_data);
        let calldata_hash = poseidon_many(&self.constructor_calldata);
        let da = da_modes_exec(
            self.common.nonce_data_availability_mode,
            self.common.fee_data_availability_mode,
        );
        let mut all: Vec<Felt> = Vec::new();
        all.push(Felt::from_u128(DEPLOY_ACCOUNT_PREFIX));
        all.push(self.common.version);
        all.push(*address);
        all.push(fee_hash);
        all.push(paymaster_hash);
        all.push(*chain_id);
        all.push(self.common.nonce);
        all.push(Felt::from_u128(da));
        all.push(calldata_hash);
        all.push(self.class_hash);
        all.push(self.contract_address_salt);
        let r = poseidon_many(&all);
        assert(felts_view(all@) =~= seq![
            u128_felt(DEPLOY_ACCOUNT_PREFIX),
            self.common.version.bytes@,
            self.address_spec(),
            self.fee_fields_hash(),
            poseidon_on_elements(felts_view(self.common.paymaster_data@)),
            chain_id.bytes@,
            self.common.nonce.bytes@,
            u128_felt(
                da_modes_value(
                    self.common.nonce_data_availability_mode,
                    self.common.fee_data_availability_mode,
                ),
            ),
            poseidon_on_elements(felts_view(self.constructor_calldata@)),
            self.class_hash.bytes@,
            self.contract_address_salt.bytes@,
        ]);
        r
    }
}

} // verus!
