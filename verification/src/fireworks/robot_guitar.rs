//! Protocol about robot guitar.
//!
//! The module includes protocol about robot guitar defined by Echo Audio Digital Corporation for
//! Fireworks board module.

use crate::fireworks::{
    answered_request, param_at, transact, EfwError, EfwProtocolExtManual, EfwRequest,
    EfwWhollyCachableParamsOperation, EfwWhollyUpdatableParamsOperation,
};
use vstd::prelude::*;

verus! {

/// The category of commands for robot guitar.
pub const CATEGORY_ROBOT_GUITAR: u32 = 10;

/// The command to set the state of charging.
pub const CMD_SET_CHARGE_STATE: u32 = 7;
/// The command to get the state of charging.
pub const CMD_GET_CHARGE_STATE: u32 = 8;

/// State of charging for Robot Guitar.
#[derive(Default, Debug, Copy, Clone, PartialEq, Eq, Structural)]
pub struct GuitarChargeState {
    pub manual_charge: bool,
    pub auto_charge: bool,
    pub suspend_to_charge: u32,
}

/// The specification of robot guitar.
pub trait EfwRobotGuitarSpecification {

}

/// The request to get the state of charging.
pub fn get_charge_state_request() -> (r: EfwRequest)
    ensures
        r.category == CATEGORY_ROBOT_GUITAR,
        r.command == CMD_GET_CHARGE_STATE,
        r.args@ == Seq::<u32>::empty(),
        r.params_len == 3,
{
    EfwRequest {
        category: CATEGORY_ROBOT_GUITAR,
        command: CMD_GET_CHARGE_STATE,
        args: Vec::new(),
        params_len: 3,
    }
}

/// Take the state of charging from the parameters of response.
pub fn parse_charge_state(states: &mut GuitarChargeState, params: &[u32]) -> (r: Result<(), EfwError>)
    ensures
        r.is_ok() <==> params@.len() >= 3,
        r.is_ok() ==> *final(states) == (GuitarChargeState {
            manual_charge: params@[0] > 0,
            auto_charge: params@[1] > 0,
            suspend_to_charge: params@[2],
        }),
        r.is_err() ==> *final(states) == *old(states),
{
    let manual = param_at(params, 0)?;
    let auto = param_at(params, 1)?;
    let suspend = param_at(params, 2)?;
    states.manual_charge = manual > 0;
    states.auto_charge = auto > 0;
    states.suspend_to_charge = suspend;
    Ok(())
}

impl<O: EfwRobotGuitarSpecification, P: EfwProtocolExtManual> EfwWhollyCachableParamsOperation<
    P,
    GuitarChargeState,
> for O {
    open spec fn cache_acceptable(states: GuitarChargeState) -> bool {
        true
    }

    fn cache_wholly(proto: &mut P, states: &mut GuitarChargeState, timeout_ms: u32) -> (r: Result<
        (),
        EfwError,
    >)
        ensures
            r.is_ok() ==> exists|p: Seq<u32>|
                #[trigger] old(proto).answered(CATEGORY_ROBOT_GUITAR, CMD_GET_CHARGE_STATE, Seq::<u32>::empty(), p)
                    && p.len() >= 3 && *final(states) == (GuitarChargeState {
                    manual_charge: p[0] > 0,
                    auto_charge: p[1] > 0,
                    suspend_to_charge: p[2],
                }),
            r.is_err() ==> *final(states) == *old(states),
    {
        let req = get_charge_state_request();
        let params = transact(proto, &req, timeout_ms)?;
        let r = parse_charge_state(states, params.as_slice());
        proof {
            assert(old(proto).answered(CATEGORY_ROBOT_GUITAR, CMD_GET_CHARGE_STATE, Seq::<u32>::empty(), params@));
        }
        r
    }
}

/// The request to set the state of charging.
pub fn set_charge_state_request(states: &GuitarChargeState) -> (r: EfwRequest)
    ensures
        r.category == CATEGORY_ROBOT_GUITAR,
        r.command == CMD_SET_CHARGE_STATE,
        r.args@ == seq![
            if states.manual_charge { 1u32 } else { 0u32 },
            if states.auto_charge { 1u32 } else { 0u32 },
            states.suspend_to_charge,
        ],
        r.params_len == 3,
{
    let manual: u32 = if states.manual_charge { 1 } else { 0 };
    let auto: u32 = if states.auto_charge { 1 } else { 0 };
    EfwRequest {
        category: CATEGORY_ROBOT_GUITAR,
        command: CMD_SET_CHARGE_STATE,
        args: vec![manual, auto, states.suspend_to_charge],
        params_len: 3,
    }
}

impl<O: EfwRobotGuitarSpecification, P: EfwProtocolExtManual> EfwWhollyUpdatableParamsOperation<
    P,
    GuitarChargeState,
> for O {
    open spec fn update_acceptable(states: GuitarChargeState) -> bool {
        true
    }

    fn update_wholly(proto: &mut P, states: &GuitarChargeState, timeout_ms: u32) -> (r: Result<
        (),
        EfwError,
    >)
        ensures
            r.is_ok() ==> answered_request(
                &*old(proto),
                CATEGORY_ROBOT_GUITAR,
                CMD_SET_CHARGE_STATE,
                seq![
                    if states.manual_charge { 1u32 } else { 0u32 },
                    if states.auto_charge { 1u32 } else { 0u32 },
                    states.suspend_to_charge,
                ],
            ),
    {
        let req = set_charge_state_request(states);
        let reply = transact(proto, &req, timeout_ms)?;
        proof {
            assert(old(proto).answered(CATEGORY_ROBOT_GUITAR, CMD_SET_CHARGE_STATE, req.args@, reply@));
        }
        Ok(())
    }
}

} // verus!
