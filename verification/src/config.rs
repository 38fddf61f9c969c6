//! The fee schedule: one cost triple per billable operation, the storage accounting
//! constants and the two protocol ratios.

use vstd::prelude::*;
use crate::fee::{Fee, Gas};
use crate::rational::{lemma_lowest_terms_unique, Rational};

verus! {

/// All the fees that the runtime charges.
#[derive(Debug, Clone, Hash, PartialEq, Eq)]
pub struct RuntimeFeesConfig {
    /// Describes the cost of creating an action receipt, `ActionReceipt`, excluding the actual cost
    /// of actions.
    pub action_receipt_creation_config: Fee,
    /// Describes the cost of creating a data receipt, `DataReceipt`.
    pub data_receipt_creation_config: DataReceiptCreationConfig,
    /// Describes the cost of creating a certain action, `Action`. Includes all variants.
    pub action_creation_config: ActionCreationConfig,
    /// Describes fees for storage.
    pub storage_usage_config: StorageUsageConfig,
    /// Fraction of the burnt gas to reward to the contract account for execution.
    pub burnt_gas_reward: Rational,
    /// Pessimistic gas price inflation ratio.
    pub pessimistic_gas_price_inflation_ratio: Rational,
}

/// Describes the cost of creating a data receipt, `DataReceipt`.
#[derive(Debug, Clone, Hash, PartialEq, Eq)]
pub struct DataReceiptCreationConfig {
    /// Base cost of creating a data receipt.
    pub base_cost: Fee,
    /// Additional cost per byte sent.
    pub cost_per_byte: Fee,
}

/// Describes the cost of creating a specific action, `Action`. Includes all variants.
#[derive(Debug, Clone, Hash, PartialEq, Eq)]
pub struct ActionCreationConfig {
    /// Base cost of creating an account.
    pub create_account_cost: Fee,
    /// Base cost of deploying a contract.
    pub deploy_contract_cost: Fee,
    /// Cost per byte of deploying a contract.
    pub deploy_contract_cost_per_byte: Fee,
    /// Base cost of calling a function.
    pub function_call_cost: Fee,
    /// Cost per byte of method name and arguments of calling a function.
    pub function_call_cost_per_byte: Fee,
    /// Base cost of making a transfer.
    pub transfer_cost: Fee,
    /// Base cost of staking.
    pub stake_cost: Fee,
    /// Base cost of adding a key.
    pub add_key_cost: AccessKeyCreationConfig,
    /// Base cost of deleting a key.
    pub delete_key_cost: Fee,
    /// Base cost of deleting an account.
    pub delete_account_cost: Fee,
}

/// Describes the cost of creating an access key.
#[derive(Debug, Clone, Hash, PartialEq, Eq)]
pub struct AccessKeyCreationConfig {
    /// Base cost of creating a full access access-key.
    pub full_access_cost: Fee,
    /// Base cost of creating an access-key restricted to specific functions.
    pub function_call_cost: Fee,
    /// Cost per byte of method_names of creating a restricted access-key.
    pub function_call_cost_per_byte: Fee,
}

/// Describes cost of storage per block
#[derive(Debug, Clone, Hash, PartialEq, Eq)]
pub struct StorageUsageConfig {
    /// Number of bytes for an account record, including rounding up for account id.
    pub num_bytes_account: u64,
    /// Additional number of bytes for a k/v record
    pub num_extra_bytes_record: u64,
}

impl DataReceiptCreationConfig {
    /// Whether every triple has a representable least send-and-execute cost.
    pub open spec fn is_bounded(&self) -> bool {
        &&& self.base_cost.is_bounded()
        &&& self.cost_per_byte.is_bounded()
    }
}

impl AccessKeyCreationConfig {
    /// Whether every triple has a representable least send-and-execute cost.
    pub open spec fn is_bounded(&self) -> bool {
        &&& self.full_access_cost.is_bounded()
        &&& self.function_call_cost.is_bounded()
        &&& self.function_call_cost_per_byte.is_bounded()
    }
}

impl ActionCreationConfig {
    /// Whether every triple has a representable least send-and-execute cost.
    pub open spec fn is_bounded(&self) -> bool {
        &&& self.create_account_cost.is_bounded()
        &&& self.deploy_contract_cost.is_bounded()
        &&& self.deploy_contract_cost_per_byte.is_bounded()
        &&& self.function_call_cost.is_bounded()
        &&& self.function_call_cost_per_byte.is_bounded()
        &&& self.transfer_cost.is_bounded()
        &&& self.stake_cost.is_bounded()
        &&& self.add_key_cost.is_bounded()
        &&& self.delete_key_cost.is_bounded()
        &&& self.delete_account_cost.is_bounded()
    }
}

impl RuntimeFeesConfig {
    /// The least gas that creating and fully executing a receipt with one function call
    /// action can cost, as an unbounded integer.
    pub open spec fn min_receipt_with_function_call(&self) -> int {
        self.action_receipt_creation_config.min_send_and_exec()
            + self.action_creation_config.function_call_cost.min_send_and_exec()
    }

    /// Whether every triple of the schedule has a representable least send-and-execute
    /// cost.
    pub open spec fn is_bounded(&self) -> bool {
        &&& self.action_receipt_creation_config.is_bounded()
        &&& self.data_receipt_creation_config.is_bounded()
        &&& self.action_creation_config.is_bounded()
    }

    /// Whether a data receipt costs at least as much as a receipt with a function call.
    ///
    /// The deepest chain of receipts is assumed to come from recursive function calls. A
    /// cheaper data receipt would allow a dependency that runs over two blocks for less
    /// than two such calls, and the bound on the depth would no longer hold.
    pub open spec fn data_receipt_covers_function_call(&self) -> bool {
        self.data_receipt_creation_config.base_cost.min_send_and_exec()
            >= self.min_receipt_with_function_call()
    }

    /// Whether the schedule is fit to run with: no derived cost overflows, and the depth
    /// assumption holds.
    pub open spec fn is_valid(&self) -> bool {
        &&& self.is_bounded()
        &&& self.data_receipt_covers_function_call()
    }

    /// Whether this is the protocol's fee table.
    pub open spec fn is_protocol_default(&self) -> bool {
        let data = self.data_receipt_creation_config;
        let action = self.action_creation_config;
        let key = action.add_key_cost;
        &&& self.action_receipt_creation_config == Fee::flat(151021812500)
        &&& data.base_cost == Fee::flat(1068762938750)
        &&& data.cost_per_byte == Fee::flat(23982274)
        &&& action.create_account_cost == Fee::flat(130476125000)
        &&& action.deploy_contract_cost == Fee::flat(222739562500)
        &&& action.deploy_contract_cost_per_byte == Fee::flat(6846508)
        &&& action.function_call_cost == Fee::flat(2614094875000)
        &&& action.function_call_cost_per_byte == Fee::flat(2521519)
        &&& action.transfer_cost == Fee::flat(159813250000)
        &&& action.stake_cost == Fee::flat(167840812500)
        &&& key.full_access_cost == Fee::flat(137640187500)
        &&& key.function_call_cost == Fee::flat(135268437500)
        &&& key.function_call_cost_per_byte == Fee::flat(22361438)
        &&& action.delete_key_cost == Fee::flat(122405750000)
        &&& action.delete_account_cost == Fee::flat(205135750000)
        &&& self.storage_usage_config.num_bytes_account == 100
        &&& self.storage_usage_config.num_extra_bytes_record == 40
        &&& self.burnt_gas_reward.is(3, 10)
        &&& self.pessimistic_gas_price_inflation_ratio.is(103, 100)
    }

    /// Whether this is the schedule that charges nothing: every cost, both storage
    /// constants and both ratios are zero.
    pub open spec fn is_free(&self) -> bool {
        let data = self.data_receipt_creation_config;
        let action = self.action_creation_config;
        let key = action.add_key_cost;
        &&& self.action_receipt_creation_config == Fee::flat(0)
        &&& data.base_cost == Fee::flat(0)
        &&& data.cost_per_byte == Fee::flat(0)
        &&& action.create_account_cost == Fee::flat(0)
        &&& action.deploy_contract_cost == Fee::flat(0)
        &&& action.deploy_contract_cost_per_byte == Fee::flat(0)
        &&& action.function_call_cost == Fee::flat(0)
        &&& action.function_call_cost_per_byte == Fee::flat(0)
        &&& action.transfer_cost == Fee::flat(0)
        &&& action.stake_cost == Fee::flat(0)
        &&& key.full_access_cost == Fee::flat(0)
        &&& key.function_call_cost == Fee::flat(0)
        &&& key.function_call_cost_per_byte == Fee::flat(0)
        &&& action.delete_key_cost == Fee::flat(0)
        &&& action.delete_account_cost == Fee::flat(0)
        &&& self.storage_usage_config.num_bytes_account == 0
        &&& self.storage_usage_config.num_extra_bytes_record == 0
        &&& self.burnt_gas_reward.is(0, 1)
        &&& self.pessimistic_gas_price_inflation_ratio.is(0, 1)
    }

    /// The schedule under which nothing costs any gas, for simulating execution without
    /// charging for it.
    pub fn free() -> (config: Self)
        ensures
            config.is_free(),
    {
        let free = Fee { send_sir: 0, send_not_sir: 0, execution: 0 };
        RuntimeFeesConfig {
            action_receipt_creation_config: free.clone(),
            data_receipt_creation_config: DataReceiptCreationConfig {
                base_cost: free.clone(),
                cost_per_byte: free.clone(),
            },
            action_creation_config: ActionCreationConfig {
                create_account_cost: free.clone(),
                deploy_contract_cost: free.clone(),
                deploy_contract_cost_per_byte: free.clone(),
                function_call_cost: free.clone(),
                function_call_cost_per_byte: free.clone(),
                transfer_cost: free.clone(),
                stake_cost: free.clone(),
                add_key_cost: AccessKeyCreationConfig {
                    full_access_cost: free.clone(),
                    function_call_cost: free.clone(),
                    function_call_cost_per_byte: free.clone(),
                },
                delete_key_cost: free.clone(),
                delete_account_cost: free,
            },
            storage_usage_config: StorageUsageConfig {
                num_bytes_account: 0,
                num_extra_bytes_record: 0,
            },
            burnt_gas_reward: Rational::from_integer(0),
            pessimistic_gas_price_inflation_ratio: Rational::from_integer(0),
        }
    }

    /// The minimum amount of gas required to create and execute a new receipt with a function call
    /// action.
    /// This amount is used to determine how many receipts can be created, send and executed for
    /// some amount of prepaid gas using function calls.
    pub fn min_receipt_with_function_call_gas(&self) -> (gas: Gas)
        requires
            self.min_receipt_with_function_call() <= Gas::MAX,
        ensures
            gas == self.min_receipt_with_function_call(),
    {
        self.action_receipt_creation_config.min_send_and_exec_fee()
            + self.action_creation_config.function_call_cost.min_send_and_exec_fee()
    }

    /// Same as [`RuntimeFeesConfig::min_receipt_with_function_call_gas`], or `None` when
    /// the amount overflows `Gas`.
    pub fn checked_min_receipt_with_function_call_gas(&self) -> (gas: Option<Gas>)
        ensures
            self.min_receipt_with_function_call() <= Gas::MAX ==> gas == Some(
                self.min_receipt_with_function_call() as Gas,
            ),
            self.min_receipt_with_function_call() > Gas::MAX ==> gas.is_none(),
    {
        let receipt = self.action_receipt_creation_config.checked_min_send_and_exec_fee();
        let call = self.action_creation_config.function_call_cost.checked_min_send_and_exec_fee();
        match (receipt, call) {
            (Some(receipt), Some(call)) => receipt.checked_add(call),
            _ => None,
        }
    }

    /// Tells whether the schedule is fit to run with. A schedule that is not must be
    /// refused at startup: its derived costs overflow, or it breaks the depth assumption.
    pub fn validate(&self) -> (valid: bool)
        ensures
            valid == self.is_valid(),
    {
        let data = &self.data_receipt_creation_config;
        let action = &self.action_creation_config;
        let key = &action.add_key_cost;
        let bounded = self.action_receipt_creation_config.checked_min_send_and_exec_fee().is_some()
            && data.base_cost.checked_min_send_and_exec_fee().is_some()
            && data.cost_per_byte.checked_min_send_and_exec_fee().is_some()
            && action.create_account_cost.checked_min_send_and_exec_fee().is_some()
            && action.deploy_contract_cost.checked_min_send_and_exec_fee().is_some()
            && action.deploy_contract_cost_per_byte.checked_min_send_and_exec_fee().is_some()
            && action.function_call_cost.checked_min_send_and_exec_fee().is_some()
            && action.function_call_cost_per_byte.checked_min_send_and_exec_fee().is_some()
            && action.transfer_cost.checked_min_send_and_exec_fee().is_some()
            && action.stake_cost.checked_min_send_and_exec_fee().is_some()
            && key.full_access_cost.checked_min_send_and_exec_fee().is_some()
            && key.function_call_cost.checked_min_send_and_exec_fee().is_some()
            && key.function_call_cost_per_byte.checked_min_send_and_exec_fee().is_some()
            && action.delete_key_cost.checked_min_send_and_exec_fee().is_some()
            && action.delete_account_cost.checked_min_send_and_exec_fee().is_some();
        if !bounded {
            return false;
        }
        match self.checked_min_receipt_with_function_call_gas() {
            Some(call) => data.base_cost.min_send_and_exec_fee() >= call,
            None => false,
        }
    }

    /// A valid schedule's least cost of a receipt with a function call is representable,
    /// being no more than what a data receipt costs.
    pub proof fn lemma_valid_is_computable(&self)
        requires
            self.is_valid(),
        ensures
            self.min_receipt_with_function_call() <= Gas::MAX,
    {
    }

    /// The derived costs of the protocol's fee table: none overflows, a receipt with a
    /// function call costs at least 5530233375000 gas and a data receipt at least
    /// 2137525877500. The table therefore does not make a data receipt cover a function
    /// call.
    pub proof fn lemma_protocol_default_costs(&self)
        requires
            self.is_protocol_default(),
        ensures
            self.is_bounded(),
            self.min_receipt_with_function_call() == 5530233375000,
            self.data_receipt_creation_config.base_cost.min_send_and_exec() == 2137525877500,
            !self.data_receipt_covers_function_call(),
            !self.is_valid(),
    {
    }

    /// The free schedule is valid: every derived cost is zero, so nothing overflows and a
    /// data receipt covers a function call with equality.
    pub proof fn lemma_free_is_valid(&self)
        requires
            self.is_free(),
        ensures
            self.is_valid(),
            self.min_receipt_with_function_call() == 0,
            self.data_receipt_creation_config.base_cost.min_send_and_exec() == 0,
    {
    }

    /// There is one protocol fee table: any two schedules that are it are equal in every
    /// field.
    pub proof fn lemma_protocol_default_unique(a: Self, b: Self)
        requires
            a.is_protocol_default(),
            b.is_protocol_default(),
        ensures
            a == b,
    {
        Rational::lemma_equal_by_parts(a.burnt_gas_reward, b.burnt_gas_reward);
        Rational::lemma_equal_by_parts(
            a.pessimistic_gas_price_inflation_ratio,
            b.pessimistic_gas_price_inflation_ratio,
        );
    }

    /// Where sending costs the same within a shard and across shards, the least cost of a
    /// receipt with a function call is the plain sum of send and execution costs, whatever
    /// the locality of the receipt and of the call.
    pub proof fn lemma_shard_uniform_receipt(&self, receipt_sir: bool, call_sir: bool)
        requires
            self.action_receipt_creation_config.is_shard_uniform(),
            self.action_creation_config.function_call_cost.is_shard_uniform(),
        ensures
            self.min_receipt_with_function_call() == self.action_receipt_creation_config.send(
                receipt_sir,
            ) + self.action_receipt_creation_config.execution
                + self.action_creation_config.function_call_cost.send(call_sir)
                + self.action_creation_config.function_call_cost.execution,
    {
    }
}

impl Default for RuntimeFeesConfig {
    /// The protocol's fee table.
    ///
    /// Its constants are fixed by the protocol. As they stand, a data receipt costs less
    /// than a receipt with a function call, so [`RuntimeFeesConfig::validate`] turns the
    /// table down; [`RuntimeFeesConfig::lemma_protocol_default_costs`] has the figures.
    fn default() -> (config: Self)
        ensures
            config.is_protocol_default(),
    {
        let burnt_gas_reward = Rational::new(3, 10);
        let pessimistic_gas_price_inflation_ratio = Rational::new(103, 100);
        proof {
            lemma_lowest_terms_unique(
                burnt_gas_reward.numer() as int,
                burnt_gas_reward.denom() as int,
                3,
                10,
                -3,
                1,
            );
            lemma_lowest_terms_unique(
                pessimistic_gas_price_inflation_ratio.numer() as int,
                pessimistic_gas_price_inflation_ratio.denom() as int,
                103,
                100,
                -33,
                34,
            );
        }
        Self {
            action_receipt_creation_config: Fee {
                send_sir: 151021812500,
                send_not_sir: 151021812500,
                execution: 151021812500,
            },
            data_receipt_creation_config: DataReceiptCreationConfig {
                base_cost: Fee {
                    send_sir: 1068762938750,
                    send_not_sir: 1068762938750,
                    execution: 1068762938750,
                },
                cost_per_byte: Fee {
                    send_sir: 23982274,
                    send_not_sir: 23982274,
                    execution: 23982274,
                },
            },
            action_creation_config: ActionCreationConfig {
                create_account_cost: Fee {
                    send_sir: 130476125000,
                    send_not_sir: 130476125000,
                    execution: 130476125000,
                },
                deploy_contract_cost: Fee {
                    send_sir: 222739562500,
                    send_not_sir: 222739562500,
                    execution: 222739562500,
                },
                deploy_contract_cost_per_byte: Fee {
                    send_sir: 6846508,
                    send_not_sir: 6846508,
                    execution: 6846508,
                },
                function_call_cost: Fee {
                    send_sir: 2614094875000,
                    send_not_sir: 2614094875000,
                    execution: 2614094875000,
                },
                function_call_cost_per_byte: Fee {
                    send_sir: 2521519,
                    send_not_sir: 2521519,
                    execution: 2521519,
                },
                transfer_cost: Fee {
                    send_sir: 159813250000,
                    send_not_sir: 159813250000,
                    execution: 159813250000,
                },
                stake_cost: Fee {
                    send_sir: 167840812500,
                    send_not_sir: 167840812500,
                    execution: 167840812500,
                },
                add_key_cost: AccessKeyCreationConfig {
                    full_access_cost: Fee {
                        send_sir: 137640187500,
                        send_not_sir: 137640187500,
                        execution: 137640187500,
                    },
                    function_call_cost: Fee {
                        send_sir: 135268437500,
                        send_not_sir: 135268437500,
                        execution: 135268437500,
                    },
                    function_call_cost_per_byte: Fee {
                        send_sir: 22361438,
                        send_not_sir: 22361438,
                        execution: 22361438,
                    },
                },
                delete_key_cost: Fee {
                    send_sir: 122405750000,
                    send_not_sir: 122405750000,
                    execution: 122405750000,
                },
                delete_account_cost: Fee {
                    send_sir: 205135750000,
                    send_not_sir: 205135750000,
                    execution: 205135750000,
                },
            },
            storage_usage_config: StorageUsageConfig {
                // See the account record for what is counted.
                num_bytes_account: 100,
                num_extra_bytes_record: 40,
            },
            burnt_gas_reward,
            pessimistic_gas_price_inflation_ratio,
        }
    }
}

} // verus!
