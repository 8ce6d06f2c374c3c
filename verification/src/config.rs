use vstd::prelude::*;

use crate::addr::Addr;

verus! {

/// The single global configuration record: owner, accepted collateral asset,
/// and the margin and fee ratios.
///
/// The ratios and the fee are unsigned fixed-point values scaled by
/// `decimals`; this layer stores the scale without interpreting it.
/// Authorization of who may overwrite the record belongs to the dispatcher,
/// not to this layer.
#[derive(Debug)]
pub struct Config {
    pub owner: Addr,
    pub eligible_collateral: Addr,
    pub decimals: u128,
    pub initial_margin_ratio: u128,
    pub maintenance_margin_ratio: u128,
    pub liquidation_fee: u128,
}

/// Mathematical image of a `Config`.
#[verifier::ext_equal]
pub ghost struct ConfigView {
    pub owner: Seq<char>,
    pub eligible_collateral: Seq<char>,
    pub decimals: u128,
    pub initial_margin_ratio: u128,
    pub maintenance_margin_ratio: u128,
    pub liquidation_fee: u128,
}

impl View for Config {
    type V = ConfigView;

    open spec fn view(&self) -> ConfigView {
        ConfigView {
            owner: self.owner@,
            eligible_collateral: self.eligible_collateral@,
            decimals: self.decimals,
            initial_margin_ratio: self.initial_margin_ratio,
            maintenance_margin_ratio: self.maintenance_margin_ratio,
            liquidation_fee: self.liquidation_fee,
        }
    }
}

impl Clone for Config {
    fn clone(&self) -> (res: Config)
        ensures
            res == *self,
    {
        Config {
            owner: self.owner.clone(),
            eligible_collateral: self.eligible_collateral.clone(),
            decimals: self.decimals,
            initial_margin_ratio: self.initial_margin_ratio,
            maintenance_margin_ratio: self.maintenance_margin_ratio,
            liquidation_fee: self.liquidation_fee,
        }
    }
}

} // verus!
