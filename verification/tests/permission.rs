use gringotts::permission::{authorize_admin, authorize_op, authorize_self_call};
use gringotts::state::{get_number_of_admins, get_number_of_ops, State};
use gringotts::types::{BlockInfo, Duration, Env, MessageInfo};
use gringotts::ContractError;

const GOOD_OP: &str = "good_op";
const BAD_OP: &str = "bad_op";
const GOOD_ADMIN: &str = "good_admin";
const BAD_ADMIN: &str = "bad_admin";

fn role_state(admins: Vec<String>, ops: Vec<String>) -> State {
    State {
        denom: "usei".to_string(),
        vesting_timestamps: vec![],
        vesting_amounts: vec![],
        unlock_distribution_address: "unlock_address".to_string(),
        staking_reward_address: "reward_address".to_string(),
        total_amount: 0,
        withdrawn_staking_rewards: 0,
        withdrawn_unlocked: 0,
        withdrawn_locked: 0,
        admins,
        ops,
        max_voting_period: Duration::Time(3600),
        admin_voting_threshold_percentage: 75,
        proposal_count: 0,
        proposals: vec![],
    }
}

#[test]
fn test_authorize_op() {
    let state = role_state(vec![], vec![GOOD_OP.to_string()]);

    authorize_op(&state, &GOOD_OP.to_string()).unwrap();
    authorize_op(&state, &BAD_OP.to_string()).unwrap_err();
}

#[test]
fn test_authorize_admin() {
    let state = role_state(vec![GOOD_ADMIN.to_string()], vec![]);

    authorize_admin(&state, &GOOD_ADMIN.to_string()).unwrap();
    authorize_admin(&state, &BAD_ADMIN.to_string()).unwrap_err();
}

#[test]
fn authorize_self_call_accepts_only_own_address() {
    let env = Env {
        block: BlockInfo { height: 12345, time: 1_571_797_419_879_305_533 },
        contract_address: "cosmos2contract".to_string(),
    };
    let own = MessageInfo { sender: "cosmos2contract".to_string(), funds: vec![] };
    let other = MessageInfo { sender: GOOD_ADMIN.to_string(), funds: vec![] };

    authorize_self_call(&env, &own).unwrap();
    assert_eq!(
        ContractError::Unauthorized {},
        authorize_self_call(&env, &other).unwrap_err()
    );
}

#[test]
fn test_get_number_of_admins() {
    let mut state = role_state(vec![], vec![]);
    assert_eq!(0, get_number_of_admins(&state));

    state.admins.push("admin".to_string());
    assert_eq!(1, get_number_of_admins(&state));
    state.admins.push("admin2".to_string());
    assert_eq!(2, get_number_of_admins(&state));
}

#[test]
fn test_get_number_of_ops() {
    let mut state = role_state(vec![], vec![]);
    assert_eq!(0, get_number_of_ops(&state));

    state.ops.push("op".to_string());
    assert_eq!(1, get_number_of_ops(&state));
    state.ops.push("op2".to_string());
    assert_eq!(2, get_number_of_ops(&state));
}
